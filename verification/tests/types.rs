use pycavalry::ast::{Expr, Number, StmtFunctionDef};
use pycavalry::types::{try_is_subtype, try_union, Class, Function, PartialFunction};
use pycavalry::{is_subtype, union, ScopedType, TextRange, Type, TypeLiteral};

fn lit_int(i: i64) -> Type {
    Type::Literal(TypeLiteral::IntLiteral(i))
}

fn lit_str(s: &str) -> Type {
    Type::Literal(TypeLiteral::StringLiteral(s.to_owned()))
}

fn lit_bytes(b: &[u8]) -> Type {
    Type::Literal(TypeLiteral::BytesLiteral(b.to_vec()))
}

fn function(args: Vec<Type>, ret: Type) -> Type {
    let names = (0..args.len()).map(|i| format!("a{}", i)).collect();
    Type::Function(Function::new(args, names, ret))
}

fn module(name: &str, bindings: Vec<(&str, Type)>) -> Type {
    Type::Module(
        name.to_owned(),
        bindings.into_iter().map(|(k, t)| (k.to_owned(), ScopedType::new(t))).collect(),
    )
}

fn samples() -> Vec<Type> {
    vec![
        Type::Any,
        Type::Unknown,
        Type::Never,
        Type::String,
        Type::Int,
        Type::Float,
        Type::Bool,
        Type::NoneType,
        Type::Ellipsis,
        lit_int(1),
        lit_str("a"),
        Type::Literal(TypeLiteral::FloatLiteral("0.1".to_owned())),
        Type::Literal(TypeLiteral::BooleanLiteral(true)),
        Type::Literal(TypeLiteral::NoneLiteral),
        Type::Literal(TypeLiteral::EllipsisLiteral),
        Type::Tuple(vec![]),
        Type::Tuple(vec![Type::Int, lit_str("a")]),
        Type::Tuple(vec![Type::Float, Type::String]),
        Type::Union(vec![Type::Int, Type::String]),
        Type::Union(vec![Type::Float, Type::String, Type::Bool]),
        function(vec![Type::Int], Type::Int),
        function(vec![Type::Float], lit_int(1)),
        function(vec![], Type::NoneType),
        Type::Class(Class::new("C".to_owned(), vec![], vec![])),
        module("sys", vec![("version", Type::Int)]),
    ]
}

fn has_gradual(t: &Type) -> bool {
    match t {
        Type::Any | Type::Unknown => true,
        Type::Tuple(ts) | Type::Union(ts) => ts.iter().any(has_gradual),
        Type::Function(f) => f.args.iter().any(has_gradual) || has_gradual(&f.ret),
        _ => false,
    }
}

#[test]
fn subtype_is_reflexive() {
    for t in samples() {
        assert!(is_subtype(&t, &t), "{:?}", t);
    }
    assert!(is_subtype(&lit_bytes(b"ab"), &lit_bytes(b"ab")));
}

#[test]
fn subtype_is_transitive_away_from_any_and_unknown() {
    let all = samples();
    for a in all.iter() {
        for b in all.iter().filter(|b| !has_gradual(b)) {
            for c in all.iter() {
                if is_subtype(a, b) && is_subtype(b, c) {
                    assert!(is_subtype(a, c), "{:?} {:?} {:?}", a, b, c);
                }
            }
        }
    }
}

#[test]
fn any_and_unknown_break_transitivity() {
    assert!(is_subtype(&Type::Int, &Type::Any));
    assert!(is_subtype(&Type::Any, &Type::String));
    assert!(!is_subtype(&Type::Int, &Type::String));
    let a = Type::Tuple(vec![Type::Int]);
    let b = Type::Tuple(vec![Type::Unknown]);
    let c = Type::Tuple(vec![Type::String]);
    assert!(is_subtype(&a, &b));
    assert!(is_subtype(&b, &c));
    assert!(!is_subtype(&a, &c));
}

#[test]
fn literals_widen_to_their_atoms() {
    assert!(is_subtype(&lit_str("a"), &Type::String));
    assert!(is_subtype(&lit_int(1), &Type::Int));
    assert!(is_subtype(&lit_int(1), &Type::Float));
    assert!(is_subtype(&Type::Literal(TypeLiteral::FloatLiteral("1.5".to_owned())), &Type::Float));
    assert!(is_subtype(&Type::Literal(TypeLiteral::BooleanLiteral(false)), &Type::Bool));
    assert!(is_subtype(&Type::Literal(TypeLiteral::NoneLiteral), &Type::NoneType));
    assert!(is_subtype(&Type::Literal(TypeLiteral::EllipsisLiteral), &Type::Ellipsis));
    assert!(!is_subtype(&lit_int(1), &Type::String));
    assert!(!is_subtype(&lit_int(1), &lit_int(2)));
    assert!(!is_subtype(&Type::Int, &lit_int(1)));
    assert!(!is_subtype(&Type::Literal(TypeLiteral::BooleanLiteral(true)), &Type::Int));
}

#[test]
fn a_literal_is_widened_before_a_union_is_opened() {
    let both = Type::Union(vec![lit_int(1), lit_int(2)]);
    assert!(!is_subtype(&lit_int(1), &both));
    assert!(is_subtype(&lit_int(1), &Type::Union(vec![Type::Int, Type::String])));
}

#[test]
fn gradual_types_fit_everywhere() {
    for t in samples() {
        assert!(is_subtype(&Type::Any, &t));
        assert!(is_subtype(&Type::Unknown, &t));
        assert!(is_subtype(&t, &Type::Any));
        assert!(is_subtype(&t, &Type::Unknown));
    }
}

#[test]
fn int_is_a_float_and_nothing_else_is() {
    assert!(is_subtype(&Type::Int, &Type::Float));
    assert!(!is_subtype(&Type::Float, &Type::Int));
    assert!(!is_subtype(&Type::Bool, &Type::Int));
    assert!(!is_subtype(&Type::Bool, &Type::Float));
    assert!(!is_subtype(&Type::String, &Type::Float));
}

#[test]
fn never_fits_only_itself() {
    assert!(is_subtype(&Type::Never, &Type::Never));
    assert!(!is_subtype(&Type::Never, &Type::Int));
    assert!(!is_subtype(&Type::Never, &Type::Union(vec![Type::Never, Type::Int])));
    assert!(is_subtype(&Type::Never, &Type::Any));
    assert!(!is_subtype(&Type::Int, &Type::Never));
}

#[test]
fn unions_on_either_side() {
    let int_or_str = Type::Union(vec![Type::Int, Type::String]);
    assert!(is_subtype(&Type::Int, &int_or_str));
    assert!(is_subtype(&Type::String, &int_or_str));
    assert!(!is_subtype(&Type::Bool, &int_or_str));
    assert!(is_subtype(&int_or_str, &Type::Union(vec![Type::String, Type::Float])));
    assert!(!is_subtype(&int_or_str, &Type::Float));
    assert!(is_subtype(&Type::Union(vec![Type::Int, lit_int(1)]), &Type::Float));
    assert!(is_subtype(&Type::Union(vec![]), &Type::Int));
    assert!(!is_subtype(&Type::Int, &Type::Union(vec![])));
}

#[test]
fn functions_take_more_and_give_less() {
    let f = function(vec![Type::Float], Type::Int);
    let g = function(vec![Type::Int], Type::Float);
    assert!(is_subtype(&f, &g));
    assert!(!is_subtype(&g, &f));
    assert!(!is_subtype(&f, &function(vec![Type::Float, Type::Float], Type::Int)));
    assert!(!is_subtype(&f, &function(vec![], Type::Int)));
    let named = Type::Function(Function::new(vec![Type::Float], vec!["x".to_owned()], Type::Int));
    let other = Type::Function(Function::new(vec![Type::Float], vec!["y".to_owned()], Type::Int));
    assert!(is_subtype(&named, &other));
    assert_ne!(named, other);
}

#[test]
fn tuples_fit_member_by_member() {
    let a = Type::Tuple(vec![Type::Int, lit_str("a")]);
    let b = Type::Tuple(vec![Type::Float, Type::String]);
    assert!(is_subtype(&a, &b));
    assert!(!is_subtype(&b, &a));
    assert!(!is_subtype(&a, &Type::Tuple(vec![Type::Float])));
    assert!(!is_subtype(&Type::Tuple(vec![]), &a));
    assert!(!is_subtype(&a, &Type::Int));
}

#[test]
fn classes_and_modules_fit_only_themselves() {
    let c = Type::Class(Class::new("C".to_owned(), vec![], vec![]));
    let d = Type::Class(Class::new("D".to_owned(), vec![], vec![]));
    assert!(is_subtype(&c, &c));
    assert!(!is_subtype(&c, &d));
    let m = module("m", vec![("a", Type::Int), ("b", Type::String)]);
    let same = module("m", vec![("b", Type::String), ("a", Type::Int)]);
    let other = module("m", vec![("a", Type::Int)]);
    assert_eq!(m, same);
    assert!(is_subtype(&m, &same));
    assert_ne!(m, other);
    assert!(!is_subtype(&m, &other));
    assert!(!is_subtype(&other, &m));
}

#[test]
fn the_last_entry_for_a_name_counts_in_a_module() {
    let twice = module("m", vec![("a", Type::Int), ("a", Type::String)]);
    let once = module("m", vec![("a", Type::String)]);
    assert_eq!(twice, once);
    assert_ne!(twice, module("m", vec![("a", Type::Int)]));
}

#[test]
fn empty_union_is_never() {
    assert_eq!(union(vec![]), Type::Never);
}

#[test]
fn union_collapse() {
    assert_eq!(union(vec![Type::Int, Type::Float]), Type::Float);
    assert_eq!(union(vec![Type::Float, Type::Int]), Type::Float);
    assert_eq!(union(vec![Type::Int, Type::Int]), Type::Int);
    assert_eq!(union(vec![lit_int(1), lit_int(1)]), lit_int(1));
    assert_eq!(union(vec![lit_int(1), Type::Int]), Type::Int);
    let letters = union(vec![lit_str("a"), lit_str("b")]);
    assert_eq!(letters, Type::Union(vec![lit_str("a"), lit_str("b")]));
    assert_eq!(letters.to_string(), "Literal[\"a\", \"b\"]");
}

#[test]
fn union_keeps_the_first_of_equals() {
    assert_eq!(union(vec![Type::Any, Type::Int]), Type::Any);
    assert_eq!(union(vec![Type::Int, Type::Any]), Type::Int);
    assert_eq!(union(vec![Type::Unknown, Type::Any]), Type::Unknown);
    assert_eq!(union(vec![lit_int(1), Type::Unknown]), lit_int(1));
}

#[test]
fn union_is_idempotent() {
    for t in samples() {
        assert_eq!(union(vec![t.clone()]), t);
        assert_eq!(union(vec![t.clone(), t.clone()]), t);
    }
}

#[test]
fn union_opens_unions_one_level() {
    let inner = Type::Union(vec![Type::Int, Type::String]);
    assert_eq!(
        union(vec![inner.clone(), Type::Bool]),
        Type::Union(vec![Type::Int, Type::String, Type::Bool])
    );
    assert_eq!(union(vec![inner.clone(), Type::Float]), Type::Union(vec![Type::String, Type::Float]));
    let nested = Type::Union(vec![inner.clone(), Type::Bool]);
    assert_eq!(union(vec![nested]), Type::Union(vec![inner, Type::Bool]));
}

#[test]
fn union_of_flat_types_is_flat() {
    let all = samples();
    for a in all.iter() {
        for b in all.iter() {
            if let Type::Union(members) = union(vec![a.clone(), b.clone()]) {
                assert!(members.len() >= 2);
                assert!(members.iter().all(|m| !matches!(m, Type::Union(_))));
                for (i, x) in members.iter().enumerate() {
                    for (j, y) in members.iter().enumerate() {
                        assert!(i == j || !is_subtype(x, y), "{:?} {:?}", x, y);
                    }
                }
            }
        }
    }
}

#[test]
fn canonical_display_of_atoms() {
    assert_eq!(Type::Any.to_string(), "Any");
    assert_eq!(Type::Unknown.to_string(), "Unknown");
    assert_eq!(Type::Never.to_string(), "Never");
    assert_eq!(Type::String.to_string(), "str");
    assert_eq!(Type::Int.to_string(), "int");
    assert_eq!(Type::Float.to_string(), "float");
    assert_eq!(Type::Bool.to_string(), "bool");
    assert_eq!(Type::NoneType.to_string(), "None");
    assert_eq!(Type::Ellipsis.to_string(), "...");
}

#[test]
fn canonical_display_of_literals() {
    assert_eq!(lit_str("a").to_string(), "Literal[\"a\"]");
    assert_eq!(lit_int(0).to_string(), "Literal[0]");
    assert_eq!(lit_int(7).to_string(), "Literal[7]");
    assert_eq!(lit_int(10).to_string(), "Literal[10]");
    assert_eq!(lit_int(-12).to_string(), "Literal[-12]");
    assert_eq!(lit_int(1234567890).to_string(), "Literal[1234567890]");
    assert_eq!(lit_int(i64::MAX).to_string(), "Literal[9223372036854775807]");
    assert_eq!(lit_int(i64::MIN).to_string(), "Literal[-9223372036854775808]");
    assert_eq!(Type::Literal(TypeLiteral::FloatLiteral("0.1".to_owned())).to_string(), "Literal[0.1]");
    assert_eq!(Type::Literal(TypeLiteral::BooleanLiteral(true)).to_string(), "Literal[True]");
    assert_eq!(Type::Literal(TypeLiteral::BooleanLiteral(false)).to_string(), "Literal[False]");
    assert_eq!(Type::Literal(TypeLiteral::NoneLiteral).to_string(), "Literal[None]");
    assert_eq!(Type::Literal(TypeLiteral::EllipsisLiteral).to_string(), "Literal[...]");
    assert_eq!(lit_bytes(b"ab").to_string(), "Literal[b\"[97, 98]\"]");
    assert_eq!(lit_bytes(b"").to_string(), "Literal[b\"[]\"]");
    assert_eq!(TypeLiteral::IntLiteral(3).to_string(), "Literal[3]");
}

#[test]
fn canonical_display_of_compounds() {
    assert_eq!(Type::Tuple(vec![]).to_string(), "tuple[]");
    assert_eq!(Type::Tuple(vec![Type::Int]).to_string(), "tuple[int]");
    assert_eq!(Type::Tuple(vec![Type::Int, lit_int(1)]).to_string(), "tuple[int, Literal[1]]");
    assert_eq!(Type::Union(vec![Type::Int, Type::String]).to_string(), "Union[int, str]");
    assert_eq!(Type::Union(vec![lit_int(1), Type::String]).to_string(), "Union[Literal[1], str]");
    assert_eq!(Type::Union(vec![lit_int(1), lit_str("x"), lit_int(2)]).to_string(), "Literal[1, \"x\", 2]");
    assert_eq!(Type::Union(vec![]).to_string(), "Literal[]");
    let f = Function::new(
        vec![Type::Int, Type::Tuple(vec![Type::String])],
        vec!["x".to_owned(), "rest".to_owned()],
        Type::NoneType,
    );
    assert_eq!(f.to_string(), "(x: int, rest: tuple[str]) -> None");
    assert_eq!(Type::Function(f).to_string(), "(x: int, rest: tuple[str]) -> None");
    assert_eq!(function(vec![], Type::Int).to_string(), "() -> int");
    let short = Function::new(vec![Type::Int, Type::Int], vec!["x".to_owned()], Type::Int);
    assert_eq!(short.to_string(), "(x: int) -> int");
    let class = Class::new("C".to_owned(), vec![], vec![]);
    assert_eq!(class.to_string(), "type[C]");
    assert_eq!(Type::Class(class).to_string(), "type[C]");
    assert_eq!(module("sys", vec![]).to_string(), "module[sys]");
}

fn definition() -> StmtFunctionDef {
    StmtFunctionDef {
        name: "f".to_owned(),
        parameters: vec![],
        returns: None,
        body: vec![],
        range: TextRange::new(0, 10),
    }
}

#[test]
fn partial_function_becomes_a_function_once_complete() {
    let complete = PartialFunction {
        ast: definition(),
        args: Some(vec![Type::Int]),
        arg_names: Some(vec!["x".to_owned()]),
        ret: Some(Box::new(Type::String)),
    };
    assert_eq!(Type::PartialFunction(complete.clone()).to_string(), "Partial Func");
    assert_eq!(
        Function::try_from(complete),
        Ok(Function::new(vec![Type::Int], vec!["x".to_owned()], Type::String))
    );
    let missing = vec![
        PartialFunction { ast: definition(), args: None, arg_names: Some(vec![]), ret: Some(Box::new(Type::Int)) },
        PartialFunction { ast: definition(), args: Some(vec![]), arg_names: None, ret: Some(Box::new(Type::Int)) },
        PartialFunction { ast: definition(), args: Some(vec![]), arg_names: Some(vec![]), ret: None },
        PartialFunction { ast: definition(), args: None, arg_names: None, ret: None },
    ];
    for partial in missing {
        assert_eq!(Function::try_from(partial.clone()), Err(partial));
    }
}

#[test]
fn partial_functions_differ_with_their_definitions() {
    let a = PartialFunction { ast: definition(), args: None, arg_names: None, ret: None };
    let mut other = definition();
    other.range = TextRange::new(0, 11);
    let b = PartialFunction { ast: other, args: None, arg_names: None, ret: None };
    assert_eq!(a, a.clone());
    assert_ne!(a, b);
}

#[test]
fn literal_of_a_literal_expression() {
    let range = TextRange::new(0, 1);
    assert_eq!(
        TypeLiteral::from_expr(&Expr::StringLiteral { value: "s".to_owned(), range }),
        TypeLiteral::StringLiteral("s".to_owned())
    );
    assert_eq!(
        TypeLiteral::from_expr(&Expr::BytesLiteral { value: vec![1, 2], range }),
        TypeLiteral::BytesLiteral(vec![1, 2])
    );
    assert_eq!(
        TypeLiteral::from_expr(&Expr::NumberLiteral { value: Number::Int(-4), range }),
        TypeLiteral::IntLiteral(-4)
    );
    assert_eq!(
        TypeLiteral::from_expr(&Expr::NumberLiteral { value: Number::Float("2.5".to_owned()), range }),
        TypeLiteral::FloatLiteral("2.5".to_owned())
    );
    assert_eq!(
        TypeLiteral::from_expr(&Expr::BooleanLiteral { value: true, range }),
        TypeLiteral::BooleanLiteral(true)
    );
    assert_eq!(TypeLiteral::from_expr(&Expr::NoneLiteral { range }), TypeLiteral::NoneLiteral);
    assert_eq!(TypeLiteral::from_expr(&Expr::EllipsisLiteral { range }), TypeLiteral::EllipsisLiteral);
}

#[test]
fn default_type_is_unknown() {
    assert_eq!(Type::default(), Type::Unknown);
}

#[test]
fn types_are_compared_by_structure() {
    let all = samples();
    for (i, a) in all.iter().enumerate() {
        for (j, b) in all.iter().enumerate() {
            assert_eq!(a == b, i == j, "{:?} {:?}", a, b);
        }
        assert_eq!(a.clone(), *a);
    }
    assert_ne!(lit_bytes(b"a"), lit_bytes(b"b"));
    assert_ne!(lit_bytes(b"a"), lit_bytes(b"ab"));
}

#[test]
fn bytes_literals_have_no_atom_to_widen_to() {
    assert_eq!(try_is_subtype(&lit_bytes(b"a"), &lit_bytes(b"a")), Some(true));
    assert_eq!(try_is_subtype(&lit_bytes(b"a"), &lit_bytes(b"b")), None);
    assert_eq!(try_is_subtype(&lit_bytes(b"a"), &Type::Int), None);
    assert_eq!(try_is_subtype(&lit_bytes(b"a"), &Type::Any), None);
    assert_eq!(try_is_subtype(&Type::Int, &lit_bytes(b"a")), Some(false));
    assert_eq!(try_is_subtype(&Type::Any, &lit_bytes(b"a")), Some(true));
    assert_eq!(try_is_subtype(&lit_int(1), &Type::Float), Some(true));
    // members are taken from left to right, as far as the answer is open
    let a = Type::Union(vec![Type::Int, lit_bytes(b"a")]);
    assert_eq!(try_is_subtype(&a, &Type::String), Some(false));
    assert_eq!(try_is_subtype(&a, &Type::Float), None);
    let b = Type::Union(vec![Type::Float, lit_bytes(b"a")]);
    assert_eq!(try_is_subtype(&Type::Int, &b), Some(true));
    assert_eq!(try_is_subtype(&Type::String, &b), Some(false));
    let t = Type::Tuple(vec![Type::String, lit_bytes(b"a")]);
    assert_eq!(try_is_subtype(&t, &Type::Tuple(vec![Type::Int, Type::Int])), Some(false));
    assert_eq!(try_is_subtype(&t, &Type::Tuple(vec![Type::String, Type::Int])), None);
    assert_eq!(try_is_subtype(&t, &Type::Tuple(vec![Type::String])), Some(false));
    let f = function(vec![lit_bytes(b"a")], Type::Int);
    let g = function(vec![Type::Int], Type::Int);
    assert_eq!(try_is_subtype(&f, &g), Some(false));
    assert_eq!(try_is_subtype(&g, &f), None);

    assert_eq!(try_union(vec![]), Some(Type::Never));
    assert_eq!(try_union(vec![Type::Int, Type::Float]), Some(Type::Float));
    assert_eq!(try_union(vec![lit_bytes(b"a")]), Some(lit_bytes(b"a")));
    assert_eq!(try_union(vec![lit_bytes(b"a"), lit_bytes(b"a")]), Some(lit_bytes(b"a")));
    assert_eq!(try_union(vec![lit_bytes(b"a"), Type::Int]), None);
    assert_eq!(try_union(vec![Type::Int, lit_bytes(b"a")]), None);
    assert_eq!(try_union(vec![Type::Any, lit_bytes(b"a")]), None);
}

#[test]
fn clean_types_hold_no_bytes_literal() {
    for t in samples() {
        assert!(t.is_clean(), "{:?}", t);
    }
    assert!(!lit_bytes(b"a").is_clean());
    assert!(!Type::Tuple(vec![Type::Int, lit_bytes(b"a")]).is_clean());
    assert!(!Type::Union(vec![lit_bytes(b"a"), Type::Int]).is_clean());
    assert!(!function(vec![lit_bytes(b"a")], Type::Int).is_clean());
    assert!(!function(vec![], lit_bytes(b"a")).is_clean());
    assert!(!module("m", vec![("a", Type::Int), ("b", lit_bytes(b"a"))]).is_clean());
    assert!(module("m", vec![("b", lit_bytes(b"a")), ("b", Type::Int)]).is_clean());
    assert!(!module("m", vec![("b", Type::Int), ("b", lit_bytes(b"a"))]).is_clean());
    let class = Class::new("C".to_owned(), vec![], vec![("f".to_owned(), lit_bytes(b"a"))]);
    assert!(Type::Class(class).is_clean());
}
