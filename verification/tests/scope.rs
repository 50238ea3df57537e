use pycavalry::{Scope, ScopedType, Type, TypeLiteral};

fn name(s: &str) -> String {
    s.to_owned()
}

#[test]
fn a_fresh_scope_binds_nothing() {
    let scope = Scope::new();
    assert_eq!(scope.get(&name("a")), None);
    assert_eq!(scope.get_top(&name("a")), None);
    assert_eq!(scope.get_is_locked(&name("a")), None);
    assert_eq!(scope.get_top_is_locked(&name("a")), None);
    assert!(scope.get_ref(&name("a")).is_none());
    assert!(scope.get_top_ref(&name("a")).is_none());
    assert_eq!(Scope::default().get(&name("a")), None);
}

#[test]
fn set_binds_in_the_top_frame() {
    let mut scope = Scope::new();
    scope.set(name("a"), ScopedType::new(Type::Int));
    assert_eq!(scope.get(&name("a")), Some(ScopedType::new(Type::Int)));
    assert_eq!(scope.get_top(&name("a")), Some(ScopedType::new(Type::Int)));
    scope.add_scope();
    assert_eq!(scope.get_top(&name("a")), None);
    assert_eq!(scope.get(&name("a")), Some(ScopedType::new(Type::Int)));
    scope.set(name("a"), ScopedType::locked(Type::String));
    scope.set(name("b"), ScopedType::new(Type::Bool));
    assert_eq!(scope.get_top(&name("a")), Some(ScopedType::locked(Type::String)));
    assert_eq!(scope.get(&name("a")), Some(ScopedType::locked(Type::String)));
    assert_eq!(scope.get_is_locked(&name("a")), Some(true));
    assert_eq!(scope.get_ref(&name("b")), Some(&ScopedType::new(Type::Bool)));
    scope.pop_scope();
    assert_eq!(scope.get(&name("a")), Some(ScopedType::new(Type::Int)));
    assert_eq!(scope.get_is_locked(&name("a")), Some(false));
    assert_eq!(scope.get(&name("b")), None);
}

#[test]
fn set_overwrites_without_looking_at_the_lock() {
    let mut scope = Scope::new();
    scope.set(name("a"), ScopedType::locked(Type::Int));
    assert_eq!(scope.get_top_is_locked(&name("a")), Some(true));
    scope.set(name("a"), ScopedType::new(Type::Literal(TypeLiteral::IntLiteral(5))));
    assert_eq!(
        scope.get_top(&name("a")),
        Some(ScopedType::new(Type::Literal(TypeLiteral::IntLiteral(5))))
    );
    assert_eq!(scope.get_top_is_locked(&name("a")), Some(false));
    assert_eq!(scope.get_top_ref(&name("a")).unwrap().typ, Type::Literal(TypeLiteral::IntLiteral(5)));
}

#[test]
fn lookups_go_from_the_top_frame_down() {
    let mut scope = Scope::new();
    scope.set(name("a"), ScopedType::new(Type::Int));
    scope.add_scope();
    scope.set(name("b"), ScopedType::new(Type::String));
    scope.add_scope();
    scope.set(name("a"), ScopedType::new(Type::Bool));
    assert_eq!(scope.get(&name("a")).unwrap().typ, Type::Bool);
    assert_eq!(scope.get(&name("b")).unwrap().typ, Type::String);
    assert_eq!(scope.get_top(&name("b")), None);
    scope.pop_scope();
    assert_eq!(scope.get(&name("a")).unwrap().typ, Type::Int);
    assert_eq!(scope.get_top(&name("b")).unwrap().typ, Type::String);
    scope.pop_scope();
    assert_eq!(scope.get(&name("b")), None);
}

#[test]
fn a_binding_is_unlocked_unless_made_locked() {
    assert!(!ScopedType::new(Type::Int).is_locked);
    assert!(ScopedType::locked(Type::Int).is_locked);
    assert_ne!(ScopedType::new(Type::Int), ScopedType::locked(Type::Int));
    assert_eq!(ScopedType::locked(Type::Int).typ, Type::Int);
}
