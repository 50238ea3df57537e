use pycavalry::ast::{Alias, Expr, ExprContext, Number, Parameter, Stmt, StmtFunctionDef};
use pycavalry::diagnostics::{AsDynCompare, DynCompare};
use pycavalry::helpers::read_exact_from_file;
use pycavalry::state::StatementSynthDataReturn;
use pycavalry::synth::{try_check, try_check_statement, try_synth, try_synth_annotation};
use pycavalry::{
    check_file, error_check_file, is_supported_module, Diag, Diagnostic, Error, Info,
    NotInScopeDiag, ParseError, RevealTypeDiag, Scope, ScopedType, StatementSynthData, TextRange,
    Type, TypeLiteral,
};

fn r(start: usize, end: usize) -> TextRange {
    TextRange::new(start, end)
}

fn name(id: &str, ctx: ExprContext) -> Expr {
    Expr::Name { id: id.to_owned(), ctx, range: r(0, id.len()) }
}

fn load(id: &str) -> Expr {
    name(id, ExprContext::Load)
}

fn number(i: i64) -> Expr {
    Expr::NumberLiteral { value: Number::Int(i), range: r(0, 1) }
}

fn other() -> Expr {
    Expr::Other { range: r(0, 1) }
}

fn call(func: Expr, args: Vec<Expr>) -> Expr {
    Expr::Call { func: Box::new(func), args, keywords: 0, range: r(0, 1) }
}

fn subscript(value: Expr, slice: Expr) -> Expr {
    Expr::Subscript { value: Box::new(value), slice: Box::new(slice), range: r(0, 1) }
}

fn tuple(elts: Vec<Expr>) -> Expr {
    Expr::Tuple { elts, range: r(0, 1) }
}

fn parameter(annotation: Option<Expr>, default: Option<Expr>) -> Parameter {
    Parameter { name: "x".to_owned(), annotation, default, range: r(0, 1) }
}

fn expression(value: Expr) -> Stmt {
    Stmt::Expr { value, range: r(0, 1) }
}

fn definition(parameters: Vec<Parameter>, returns: Option<Expr>, body: Vec<Stmt>) -> Stmt {
    Stmt::FunctionDef(StmtFunctionDef {
        name: "f".to_owned(),
        parameters,
        returns,
        body,
        range: r(0, 1),
    })
}

#[test]
fn supported_expressions() {
    assert!(Expr::NoneLiteral { range: r(0, 4) }.is_supported());
    assert!(Expr::BooleanLiteral { value: true, range: r(0, 4) }.is_supported());
    assert!(Expr::StringLiteral { value: "s".to_owned(), range: r(0, 3) }.is_supported());
    assert!(number(1).is_supported());
    assert!(Expr::NumberLiteral { value: Number::Float("1.5".to_owned()), range: r(0, 3) }.is_supported());
    assert!(load("a").is_supported());
    assert!(tuple(vec![number(1), load("a")]).is_supported());
    assert!(call(load("f"), vec![number(1)]).is_supported());
    assert!(Expr::Attribute { value: Box::new(load("m")), attr: "a".to_owned(), range: r(0, 3) }
        .is_supported());
    assert!(Expr::Lambda {
        parameters: vec![parameter(None, Some(other()))],
        body: Box::new(number(1)),
        range: r(0, 1)
    }
    .is_supported());
}

#[test]
fn unsupported_expressions() {
    assert!(!other().is_supported());
    assert!(!Expr::EllipsisLiteral { range: r(0, 3) }.is_supported());
    assert!(!Expr::BytesLiteral { value: vec![1], range: r(0, 3) }.is_supported());
    assert!(!Expr::NumberLiteral { value: Number::Complex, range: r(0, 3) }.is_supported());
    assert!(!Expr::NumberLiteral { value: Number::BigInt, range: r(0, 3) }.is_supported());
    assert!(!name("a", ExprContext::Store).is_supported());
    assert!(!name("a", ExprContext::Del).is_supported());
    assert!(!subscript(load("a"), number(1)).is_supported());
    assert!(!tuple(vec![number(1), other()]).is_supported());
    assert!(!call(load("f"), vec![other()]).is_supported());
    assert!(!call(other(), vec![]).is_supported());
    assert!(!Expr::Attribute { value: Box::new(other()), attr: "a".to_owned(), range: r(0, 3) }
        .is_supported());
    assert!(!Expr::Lambda { parameters: vec![], body: Box::new(other()), range: r(0, 1) }
        .is_supported());
    assert!(!Expr::Lambda {
        parameters: vec![parameter(Some(other()), None)],
        body: Box::new(number(1)),
        range: r(0, 1)
    }
    .is_supported());
}

#[test]
fn only_the_first_argument_of_reveal_type_counts() {
    assert!(call(load("reveal_type"), vec![number(1), other()]).is_supported());
    assert!(!call(load("reveal_type"), vec![other(), number(1)]).is_supported());
    assert!(!call(load("reveal_type"), vec![]).is_supported());
    assert!(call(name("reveal_type", ExprContext::Store), vec![number(1)]).is_supported());
}

#[test]
fn supported_annotations() {
    assert!(load("int").is_supported_annotation());
    assert!(name("anything", ExprContext::Store).is_supported_annotation());
    assert!(number(1).is_supported_annotation());
    assert!(Expr::EllipsisLiteral { range: r(0, 3) }.is_supported_annotation());
    assert!(Expr::NoneLiteral { range: r(0, 4) }.is_supported_annotation());
    assert!(subscript(load("Union"), tuple(vec![load("int"), load("str")])).is_supported_annotation());
    assert!(subscript(load("Literal"), number(1)).is_supported_annotation());
    assert!(!other().is_supported_annotation());
    assert!(!tuple(vec![]).is_supported_annotation());
    assert!(!Expr::BytesLiteral { value: vec![], range: r(0, 3) }.is_supported_annotation());
    assert!(!Expr::NumberLiteral { value: Number::Complex, range: r(0, 3) }.is_supported_annotation());
    assert!(!subscript(load("Union"), tuple(vec![load("int"), other()])).is_supported_annotation());
    assert!(!subscript(other(), load("int")).is_supported_annotation());
    assert!(!subscript(load("Union"), call(load("f"), vec![])).is_supported_annotation());
}

#[test]
fn supported_statements() {
    assert!(Stmt::Pass { range: r(0, 4) }.is_supported());
    assert!(Stmt::ClassDef { name: "C".to_owned(), range: r(0, 4) }.is_supported());
    assert!(Stmt::Import { names: vec![], range: r(0, 4) }.is_supported());
    assert!(Stmt::ImportFrom { module: Some("m".to_owned()), names: vec![], range: r(0, 4) }
        .is_supported());
    assert!(expression(number(1)).is_supported());
    assert!(Stmt::Return { value: None, range: r(0, 4) }.is_supported());
    assert!(Stmt::Return { value: Some(number(1)), range: r(0, 4) }.is_supported());
    assert!(Stmt::Assign {
        targets: vec![name("a", ExprContext::Store), name("b", ExprContext::Store)],
        value: number(1),
        range: r(0, 4)
    }
    .is_supported());
    assert!(Stmt::AnnAssign {
        target: name("a", ExprContext::Store),
        annotation: load("int"),
        value: None,
        range: r(0, 4)
    }
    .is_supported());
    assert!(definition(
        vec![parameter(Some(load("int")), Some(number(1)))],
        Some(load("int")),
        vec![Stmt::Return { value: Some(number(1)), range: r(0, 4) }]
    )
    .is_supported());
}

#[test]
fn unsupported_statements() {
    assert!(!Stmt::Other { range: r(0, 4) }.is_supported());
    assert!(!Stmt::ImportFrom { module: None, names: vec![], range: r(0, 4) }.is_supported());
    assert!(!expression(other()).is_supported());
    assert!(!Stmt::Return { value: Some(other()), range: r(0, 4) }.is_supported());
    assert!(!Stmt::Assign { targets: vec![load("a")], value: number(1), range: r(0, 4) }.is_supported());
    assert!(!Stmt::Assign {
        targets: vec![tuple(vec![name("a", ExprContext::Store)])],
        value: number(1),
        range: r(0, 4)
    }
    .is_supported());
    assert!(!Stmt::Assign {
        targets: vec![name("a", ExprContext::Store)],
        value: other(),
        range: r(0, 4)
    }
    .is_supported());
    assert!(!Stmt::AnnAssign {
        target: load("a"),
        annotation: load("int"),
        value: None,
        range: r(0, 4)
    }
    .is_supported());
    assert!(!Stmt::AnnAssign {
        target: name("a", ExprContext::Store),
        annotation: other(),
        value: None,
        range: r(0, 4)
    }
    .is_supported());
    assert!(!definition(vec![], Some(other()), vec![]).is_supported());
    assert!(!definition(vec![parameter(Some(other()), None)], None, vec![]).is_supported());
    assert!(!definition(vec![parameter(None, Some(other()))], None, vec![]).is_supported());
    assert!(!definition(vec![], None, vec![Stmt::Other { range: r(0, 4) }]).is_supported());
}

#[test]
fn a_file_is_checked_only_where_it_is_supported() {
    let supported = vec![expression(call(load("reveal_type"), vec![number(1)]))];
    assert!(is_supported_module(&supported));
    let info = check_file("a.py".to_owned(), "reveal_type(1)".to_owned(), Ok(supported))
        .unwrap()
        .unwrap();
    assert_eq!(info.reporter.len(), 1);
    assert_eq!(info.reporter.errors()[0].message(), "Type is Literal[1]");
    assert_eq!(info.file_content, "reveal_type(1)");

    let unsupported = vec![Stmt::Pass { range: r(0, 4) }, Stmt::Other { range: r(5, 9) }];
    assert!(!is_supported_module(&unsupported));
    assert!(check_file("a.py".to_owned(), String::new(), Ok(unsupported)).is_none());
    assert!(is_supported_module(&vec![]));
}

#[test]
fn parser_complaints_come_back() {
    let complaints =
        vec![ParseError { message: "Expected an expression".to_owned(), range: r(4, 5) }];
    match check_file("a.py".to_owned(), "a = =".to_owned(), Err(complaints)) {
        Some(Err(Error::RuffParse(errors))) => {
            assert_eq!(errors.len(), 1);
            assert_eq!(errors[0].message, "Expected an expression");
            assert_eq!(errors[0].range, r(4, 5));
        }
        other => panic!("expected the complaints back, got {:?}", other),
    }
    let complaints = vec![ParseError { message: "bad".to_owned(), range: r(0, 1) }];
    match error_check_file("a.py".to_owned(), "?".to_owned(), Err(complaints)) {
        Err(Error::RuffParse(errors)) => assert_eq!(errors[0].message, "bad"),
        other => panic!("expected the complaints back, got {:?}", other),
    }
}

#[test]
fn nodes_know_their_range() {
    assert_eq!(number(1).range(), r(0, 1));
    assert_eq!(load("abc").range(), r(0, 3));
    assert_eq!(Stmt::Pass { range: r(2, 6) }.range(), r(2, 6));
    assert_eq!(definition(vec![], None, vec![]).range(), r(0, 1));
    assert_eq!(Stmt::Import { names: vec![], range: r(3, 9) }.range(), r(3, 9));
}

#[test]
fn syntax_trees_are_compared_by_structure() {
    let alias = Alias { name: "m".to_owned(), asname: Some("n".to_owned()), range: r(0, 1) };
    let statements = vec![
        Stmt::Pass { range: r(0, 4) },
        Stmt::Pass { range: r(0, 5) },
        Stmt::Import { names: vec![alias.clone()], range: r(0, 4) },
        Stmt::Import { names: vec![], range: r(0, 4) },
        Stmt::ImportFrom { module: None, names: vec![alias.clone()], range: r(0, 4) },
        Stmt::ImportFrom { module: Some("m".to_owned()), names: vec![alias], range: r(0, 4) },
        expression(number(1)),
        expression(number(2)),
        expression(call(load("f"), vec![number(1)])),
        expression(call(load("f"), vec![number(1), number(1)])),
        expression(subscript(load("a"), tuple(vec![number(1)]))),
        definition(vec![], None, vec![]),
        definition(vec![parameter(None, None)], None, vec![]),
        definition(vec![parameter(Some(load("int")), None)], None, vec![]),
        definition(vec![], Some(load("int")), vec![]),
        definition(vec![], None, vec![Stmt::Pass { range: r(0, 4) }]),
        Stmt::Return { value: None, range: r(0, 4) },
        Stmt::Return { value: Some(number(1)), range: r(0, 4) },
        Stmt::ClassDef { name: "C".to_owned(), range: r(0, 4) },
        Stmt::Other { range: r(0, 4) },
    ];
    for (i, a) in statements.iter().enumerate() {
        for (j, b) in statements.iter().enumerate() {
            assert_eq!(a == b, i == j, "{:?} {:?}", a, b);
        }
        assert_eq!(a.clone(), *a);
    }
}

#[test]
fn part_of_a_text() {
    assert_eq!(read_exact_from_file("hello world", r(6, 11)), "world");
    assert_eq!(read_exact_from_file("hello world", r(0, 5)), "hello");
    assert_eq!(read_exact_from_file("hello", r(2, 2)), "");
    assert_eq!(read_exact_from_file("aébc", r(1, 3)), "é");
    assert_eq!(read_exact_from_file("aébc", r(0, 5)), "aébc");
}

#[test]
fn findings_compare_across_kinds() {
    let shown = RevealTypeDiag::new(Type::Int, r(0, 1));
    let missing = NotInScopeDiag::new("a".to_owned(), r(0, 1));
    let plain = Diagnostic::error("a".to_owned(), r(0, 1));
    let as_any: Diag = shown.as_dyn_compare();
    assert_eq!(as_any, Diag::RevealType(shown.clone()));
    assert!(shown.dyn_eq(&as_any));
    assert!(!shown.dyn_eq(&missing.as_dyn_compare()));
    assert!(!shown.dyn_eq(&Diag::RevealType(RevealTypeDiag::new(Type::Float, r(0, 1)))));
    assert!(missing.dyn_eq(&Diag::NotInScope(missing.clone())));
    assert!(!missing.dyn_eq(&plain.as_dyn_compare()));
    assert!(plain.dyn_eq(&plain.as_dyn_compare()));
    assert!(as_any.dyn_eq(&as_any.as_dyn_compare()));
    assert!(!as_any.dyn_eq(&plain.as_dyn_compare()));
}

#[test]
fn scopes_are_compared_by_what_they_bind() {
    let mut a = Scope::new();
    let mut b = Scope::new();
    assert!(a == b);
    a.set("x".to_owned(), ScopedType::new(Type::Int));
    assert!(a != b);
    b.set("x".to_owned(), ScopedType::new(Type::String));
    b.set("x".to_owned(), ScopedType::new(Type::Int));
    assert!(a == b);
    assert!(a.clone() == a);
    a.add_scope();
    assert!(a != b);
    b.add_scope();
    a.set("y".to_owned(), ScopedType::locked(Type::Int));
    a.set("z".to_owned(), ScopedType::new(Type::Int));
    b.set("z".to_owned(), ScopedType::new(Type::Int));
    b.set("y".to_owned(), ScopedType::locked(Type::Int));
    assert!(a == b);
    assert!(a.clone() == b);
    b.set("y".to_owned(), ScopedType::new(Type::Int));
    assert!(a != b);
    a.pop_scope();
    b.pop_scope();
    assert!(a == b);
}

#[test]
fn checks_are_made_only_where_they_can_be() {
    let bytes = Type::Literal(TypeLiteral::BytesLiteral(vec![1]));
    let mut clean = Scope::new();
    clean.set("a".to_owned(), ScopedType::new(Type::Int));
    assert!(clean.is_clean());
    let mut unclean = Scope::new();
    unclean.add_scope();
    unclean.set("a".to_owned(), ScopedType::new(bytes.clone()));
    assert!(!unclean.is_clean());
    unclean.set("a".to_owned(), ScopedType::new(Type::Int));
    assert!(unclean.is_clean());
    unclean.set("b".to_owned(), ScopedType::new(Type::Tuple(vec![bytes.clone()])));
    assert!(!unclean.is_clean());

    let mut info = Info::default();
    assert_eq!(try_synth(&mut info, &clean, &load("a")), Some(Type::Int));
    assert_eq!(try_synth(&mut info, &clean, &load("b")), Some(Type::Unknown));
    assert_eq!(info.reporter.len(), 1);
    assert_eq!(try_synth(&mut info, &clean, &other()), None);
    assert_eq!(try_synth(&mut info, &unclean, &load("a")), None);
    assert_eq!(info.reporter.len(), 1);

    assert_eq!(try_check(&mut info, &clean, &number(1), Type::Int), Some(Some(Type::Literal(TypeLiteral::IntLiteral(1)))));
    assert_eq!(try_check(&mut info, &clean, &number(1), Type::String), Some(None));
    assert_eq!(info.reporter.len(), 2);
    assert_eq!(try_check(&mut info, &clean, &number(1), bytes.clone()), None);
    assert_eq!(try_check(&mut info, &clean, &other(), Type::Int), None);
    assert_eq!(try_check(&mut info, &unclean, &number(1), Type::Int), None);
    assert_eq!(info.reporter.len(), 2);

    assert_eq!(try_synth_annotation(&mut info, &clean, None), Some(Type::Unknown));
    assert_eq!(try_synth_annotation(&mut info, &clean, Some(&load("int"))), Some(Type::Int));
    assert_eq!(try_synth_annotation(&mut info, &clean, Some(&load("a"))), Some(Type::Int));
    assert_eq!(try_synth_annotation(&mut info, &clean, Some(&other())), None);
    assert_eq!(try_synth_annotation(&mut info, &unclean, Some(&load("int"))), None);
    assert_eq!(info.reporter.len(), 2);

    let mut data = StatementSynthData::new(None);
    let assign = Stmt::Assign {
        targets: vec![name("c", ExprContext::Store)],
        value: number(2),
        range: r(0, 5),
    };
    assert!(try_check_statement(&mut info, &mut data, &mut clean, &assign));
    assert_eq!(clean.get(&"c".to_owned()).unwrap().typ, Type::Literal(TypeLiteral::IntLiteral(2)));
    assert!(!try_check_statement(&mut info, &mut data, &mut clean, &Stmt::Other { range: r(0, 1) }));
    assert!(!try_check_statement(&mut info, &mut data, &mut unclean, &assign));
    assert_eq!(unclean.get(&"c".to_owned()), None);
    let mut unclean_data = StatementSynthData::new(Some(StatementSynthDataReturn::new(bytes)));
    assert!(!try_check_statement(&mut info, &mut unclean_data, &mut clean, &assign));
    assert_eq!(info.reporter.len(), 2);
}
