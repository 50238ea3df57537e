use pycavalry::ast::{Alias, Expr, ExprContext, Number, Parameter, Stmt, StmtFunctionDef};
use pycavalry::types::Function;
use pycavalry::{
    error_check_file, synth_annotation, CantReassignLockedDiag, Diag, DiagnosticType, Error,
    ExpectedButGotDiag, Info, NotInScopeDiag, ParseError, RevealTypeDiag, Scope, TextRange, Type,
    TypeLiteral,
};
use ruff_text_size::Ranged;

fn span(r: ruff_text_size::TextRange) -> TextRange {
    TextRange::new(r.start().to_usize(), r.end().to_usize())
}

fn r(start: usize, end: usize) -> TextRange {
    TextRange::new(start, end)
}

fn convert_context(ctx: ruff_python_ast::ExprContext) -> ExprContext {
    match ctx {
        ruff_python_ast::ExprContext::Load => ExprContext::Load,
        ruff_python_ast::ExprContext::Store => ExprContext::Store,
        ruff_python_ast::ExprContext::Del => ExprContext::Del,
        ruff_python_ast::ExprContext::Invalid => ExprContext::Invalid,
    }
}

fn convert_parameters(parameters: &ruff_python_ast::Parameters) -> Vec<Parameter> {
    parameters
        .args
        .iter()
        .map(|arg| Parameter {
            name: arg.parameter.name.id.to_string(),
            annotation: arg.parameter.annotation.as_deref().map(convert_expr),
            default: arg.default.as_deref().map(convert_expr),
            range: span(arg.range),
        })
        .collect()
}

fn convert_expr(expr: &ruff_python_ast::Expr) -> Expr {
    let range = span(expr.range());
    match expr {
        ruff_python_ast::Expr::NoneLiteral(_) => Expr::NoneLiteral { range },
        ruff_python_ast::Expr::BooleanLiteral(l) => Expr::BooleanLiteral { value: l.value, range },
        ruff_python_ast::Expr::NumberLiteral(l) => {
            let value = match &l.value {
                ruff_python_ast::Number::Int(i) => match i.as_i64() {
                    Some(i) => Number::Int(i),
                    None => Number::BigInt,
                },
                ruff_python_ast::Number::Float(f) => Number::Float(f.to_string()),
                ruff_python_ast::Number::Complex { .. } => Number::Complex,
            };
            Expr::NumberLiteral { value, range }
        }
        ruff_python_ast::Expr::StringLiteral(l) => {
            Expr::StringLiteral { value: l.value.to_str().to_owned(), range }
        }
        ruff_python_ast::Expr::BytesLiteral(l) => {
            Expr::BytesLiteral { value: l.value.bytes().collect(), range }
        }
        ruff_python_ast::Expr::EllipsisLiteral(_) => Expr::EllipsisLiteral { range },
        ruff_python_ast::Expr::Name(n) => {
            Expr::Name { id: n.id.to_string(), ctx: convert_context(n.ctx), range }
        }
        ruff_python_ast::Expr::Lambda(l) => Expr::Lambda {
            parameters: match &l.parameters {
                Some(parameters) => convert_parameters(parameters),
                None => Vec::new(),
            },
            body: Box::new(convert_expr(&l.body)),
            range,
        },
        ruff_python_ast::Expr::Call(c) => Expr::Call {
            func: Box::new(convert_expr(&c.func)),
            args: c.arguments.args.iter().map(convert_expr).collect(),
            keywords: c.arguments.keywords.len(),
            range,
        },
        ruff_python_ast::Expr::Attribute(a) => Expr::Attribute {
            value: Box::new(convert_expr(&a.value)),
            attr: a.attr.id.to_string(),
            range,
        },
        ruff_python_ast::Expr::Tuple(t) => {
            Expr::Tuple { elts: t.elts.iter().map(convert_expr).collect(), range }
        }
        ruff_python_ast::Expr::Subscript(s) => Expr::Subscript {
            value: Box::new(convert_expr(&s.value)),
            slice: Box::new(convert_expr(&s.slice)),
            range,
        },
        _ => Expr::Other { range },
    }
}

fn convert_alias(alias: &ruff_python_ast::Alias) -> Alias {
    Alias {
        name: alias.name.id.to_string(),
        asname: alias.asname.as_ref().map(|n| n.id.to_string()),
        range: span(alias.range),
    }
}

fn convert_stmt(stmt: &ruff_python_ast::Stmt) -> Stmt {
    let range = span(stmt.range());
    match stmt {
        ruff_python_ast::Stmt::AnnAssign(a) => Stmt::AnnAssign {
            target: convert_expr(&a.target),
            annotation: convert_expr(&a.annotation),
            value: a.value.as_deref().map(convert_expr),
            range,
        },
        ruff_python_ast::Stmt::Assign(a) => Stmt::Assign {
            targets: a.targets.iter().map(convert_expr).collect(),
            value: convert_expr(&a.value),
            range,
        },
        ruff_python_ast::Stmt::Expr(e) => Stmt::Expr { value: convert_expr(&e.value), range },
        ruff_python_ast::Stmt::Return(ret) => {
            Stmt::Return { value: ret.value.as_deref().map(convert_expr), range }
        }
        ruff_python_ast::Stmt::FunctionDef(def) => Stmt::FunctionDef(StmtFunctionDef {
            name: def.name.id.to_string(),
            parameters: convert_parameters(&def.parameters),
            returns: def.returns.as_deref().map(convert_expr),
            body: def.body.iter().map(convert_stmt).collect(),
            range,
        }),
        ruff_python_ast::Stmt::ClassDef(def) => {
            Stmt::ClassDef { name: def.name.id.to_string(), range }
        }
        ruff_python_ast::Stmt::Pass(_) => Stmt::Pass { range },
        ruff_python_ast::Stmt::Import(import) => {
            Stmt::Import { names: import.names.iter().map(convert_alias).collect(), range }
        }
        ruff_python_ast::Stmt::ImportFrom(import) => Stmt::ImportFrom {
            module: import.module.as_ref().map(|m| m.id.to_string()),
            names: import.names.iter().map(convert_alias).collect(),
            range,
        },
        _ => Stmt::Other { range },
    }
}

fn parse_module(content: &str) -> Result<Vec<Stmt>, Vec<ParseError>> {
    match ruff_python_parser::parse_module(content) {
        Ok(parsed) => Ok(parsed.syntax().body.iter().map(convert_stmt).collect()),
        Err(e) => Err(vec![ParseError { message: e.error.to_string(), range: span(e.location) }]),
    }
}

fn parse_expression(content: &str) -> Expr {
    let parsed = ruff_python_parser::parse_expression(content).unwrap();
    convert_expr(&parsed.syntax().body)
}

fn check_source(name: &str, content: &str) -> Info {
    let parsed = parse_module(content);
    error_check_file(name.to_owned(), content.to_owned(), parsed).unwrap()
}

fn ann(s: &str) -> Type {
    let mut info = Info::default();
    let expr = parse_expression(s);
    let typ = synth_annotation(&mut info, &Scope::new(), Some(&expr));
    assert_eq!(info.reporter.len(), 0);
    assert_ne!(typ, Type::Unknown);
    typ
}

fn ann_findings(s: &str) -> (Type, Vec<String>) {
    let mut info = Info::default();
    let expr = parse_expression(s);
    let typ = synth_annotation(&mut info, &Scope::new(), Some(&expr));
    (typ, info.reporter.errors().iter().map(|d| d.message()).collect())
}

fn displays(info: &Info) -> Vec<String> {
    info.reporter.errors().iter().map(|d| d.to_string()).collect()
}

fn messages(info: &Info) -> Vec<String> {
    info.reporter.errors().iter().map(|d| d.message()).collect()
}

fn lit_int(i: i64) -> Type {
    Type::Literal(TypeLiteral::IntLiteral(i))
}

fn lit_str(s: &str) -> Type {
    Type::Literal(TypeLiteral::StringLiteral(s.to_owned()))
}

#[test]
fn test_synth_ann_assign_1() {
    let content = "from typing import reveal_type\na: int = 3\nreveal_type(a)\na: Literal[5] = 5\nreveal_type(a)\na: int = \"f\"\nreveal_type(a) ";
    let info = check_source("test_synth_ann_assign_1.py", content);
    let expected: Vec<Diag> = vec![
        RevealTypeDiag::new(Type::Int, r(54, 55)).into(),
        CantReassignLockedDiag::new(Type::Int, ann("Literal[5]"), "a".to_owned(), r(57, 74)).into(),
        RevealTypeDiag::new(Type::Int, r(87, 88)).into(),
        ExpectedButGotDiag::new(Type::Int, ann("Literal['f']"), r(99, 102)).into(),
        CantReassignLockedDiag::new(Type::Int, Type::Int, "a".to_owned(), r(90, 102)).into(),
        RevealTypeDiag::new(Type::Int, r(115, 116)).into(),
    ];
    assert_eq!(info.reporter.errors().len(), expected.len());
    for (found, wanted) in info.reporter.errors().iter().zip(expected.iter()) {
        assert_eq!(found, wanted);
    }
}

#[test]
fn test_lambda_return_no_args() {
    let content =
        "reveal_type((lambda x, y, z: \"asdf\")(1, 2, 3))  # Debug: RevealTypeDiag(Literal[\"asdf\"], )\n";
    let info = check_source("test_lambda_return_no_args.py", content);
    assert_eq!(displays(&info), vec!["RevealTypeDiag(Literal[\"asdf\"], )".to_owned()]);
}

#[test]
fn reveal_of_literal_points_at_the_call() {
    let content = "reveal_type((lambda x, y, z: \"asdf\")(1, 2, 3))";
    let info = check_source("reveal.py", content);
    let expected: Vec<Diag> =
        vec![RevealTypeDiag::new(lit_str("asdf"), r(12, content.len() - 1)).into()];
    assert_eq!(info.reporter.errors(), &expected);
    assert_eq!(messages(&info), vec!["Type is Literal[\"asdf\"]".to_owned()]);
    assert_eq!(info.reporter.errors()[0].kind(), DiagnosticType::Info);
}

#[test]
fn annotated_reassignment_messages() {
    let content = "from typing import reveal_type\na: int = 3\nreveal_type(a)\na: Literal[5] = 5\nreveal_type(a)\na: int = \"f\"\nreveal_type(a) ";
    let info = check_source("reassign.py", content);
    assert_eq!(
        messages(&info),
        vec![
            "Type is int".to_owned(),
            "\"a\" is already defined as int, can't redefine as Literal[5] as it was previously defined with a type hint, so it can't be redefined as a different type.".to_owned(),
            "Type is int".to_owned(),
            "Expected int but found Literal[\"f\"].".to_owned(),
            "\"a\" is already defined as int, can't redefine as int as it was previously defined with a type hint, so it can't be redefined as a different type.".to_owned(),
            "Type is int".to_owned(),
        ]
    );
    let errors = info.reporter.errors().iter().filter(|d| d.kind() == DiagnosticType::Error).count();
    assert_eq!(errors, 3);
}

#[test]
fn locked_name_keeps_its_type_when_annotated_again_with_the_same_type() {
    let content = "a: int = 3\na: int = 4\nreveal_type(a)";
    let info = check_source("same.py", content);
    let expected: Vec<Diag> = vec![
        CantReassignLockedDiag::new(Type::Int, Type::Int, "a".to_owned(), r(11, 21)).into(),
        RevealTypeDiag::new(Type::Int, r(34, 35)).into(),
    ];
    assert_eq!(info.reporter.errors(), &expected);
}

#[test]
fn callable_arity_mismatch() {
    let content = "f = lambda x: 1\nf(1, 2)";
    let info = check_source("arity.py", content);
    assert_eq!(messages(&info), vec!["expected 1 args, got 2 args".to_owned()]);
    assert_eq!(info.reporter.errors()[0].range(), r(16, 23));
    assert_eq!(info.reporter.errors()[0].kind(), DiagnosticType::Error);
}

#[test]
fn lambda_parameters_are_not_in_reach_of_the_body() {
    let content = "f = lambda x: x\nf(1, 2)";
    let info = check_source("arity.py", content);
    assert_eq!(
        messages(&info),
        vec![
            "Name \"x\" not found in scope.".to_owned(),
            "expected 1 args, got 2 args".to_owned(),
        ]
    );
    assert_eq!(info.reporter.errors()[1].range(), r(16, 23));
}

#[test]
fn keyword_arguments_count_for_the_arity_but_are_not_checked() {
    let content = "f = lambda x, y: 1\nf(1, y=\"s\")\nf(1, 2, y=3)";
    let info = check_source("keywords.py", content);
    assert_eq!(messages(&info), vec!["expected 2 args, got 2 args".to_owned()]);
}

#[test]
fn function_return_union() {
    let content = "def g(x: int) -> int:\n    return 1\n    return \"s\"\nreveal_type(g)\nreveal_type(g(2))";
    let info = check_source("returns.py", content);
    let expected_first: Diag =
        ExpectedButGotDiag::new(Type::Int, lit_str("s"), r(46, 49)).into();
    assert_eq!(info.reporter.errors()[0], expected_first);
    let signature = Type::Function(Function::new(vec![Type::Int], vec!["x".to_owned()], lit_int(1)));
    let expected_second: Diag = RevealTypeDiag::new(signature, r(62, 63)).into();
    assert_eq!(info.reporter.errors()[1], expected_second);
    assert_eq!(
        messages(&info),
        vec![
            "Expected int but found Literal[\"s\"].".to_owned(),
            "Type is (x: int) -> Literal[1]".to_owned(),
            "Type is Literal[1]".to_owned(),
        ]
    );
}

#[test]
fn function_without_return_has_result_never() {
    let content = "def g():\n    pass\nreveal_type(g)";
    let info = check_source("never.py", content);
    assert_eq!(messages(&info), vec!["Type is () -> Never".to_owned()]);
}

#[test]
fn bare_return_gives_none() {
    let content = "def g(x):\n    return\nreveal_type(g)";
    let info = check_source("none.py", content);
    assert_eq!(messages(&info), vec!["Type is (x: Unknown) -> None".to_owned()]);
}

#[test]
fn parameter_default_is_checked_and_gives_the_parameter_type() {
    let content = "def g(x: int = 1, y: int = \"s\", z: str = \"t\"):\n    reveal_type(x)\nreveal_type(g)";
    let info = check_source("defaults.py", content);
    assert_eq!(
        messages(&info),
        vec![
            "Expected int but found Literal[\"s\"].".to_owned(),
            "Type is int".to_owned(),
            "Type is (x: Literal[1], y: Unknown, z: Literal[\"t\"]) -> Never".to_owned(),
        ]
    );
}

#[test]
fn parameters_are_gone_after_the_body() {
    let content = "def g(x: int):\n    pass\nx";
    let info = check_source("frames.py", content);
    assert_eq!(messages(&info), vec!["Name \"x\" not found in scope.".to_owned()]);
    assert_eq!(displays(&info), vec!["NotInScopeDiag(x, )".to_owned()]);
}

#[test]
fn nested_function_keeps_the_outer_return_context() {
    let content = "def f() -> int:\n    def g() -> str:\n        return \"a\"\n    return 1\nreveal_type(f)";
    let info = check_source("nested.py", content);
    assert_eq!(messages(&info), vec!["Type is () -> Literal[1]".to_owned()]);
}

#[test]
fn return_outside_function() {
    let content = "return 1";
    let info = check_source("return.py", content);
    assert_eq!(messages(&info), vec!["Can't return outside of function.".to_owned()]);
    assert_eq!(info.reporter.errors()[0].range(), r(0, 8));
    assert_eq!(displays(&info), vec!["Diagnostic(Error, )".to_owned()]);
}

#[test]
fn module_attribute() {
    let content = "import sys\nreveal_type(sys.version_info)\nreveal_type(sys)\nreveal_type(sys.other)";
    let info = check_source("module.py", content);
    let version = Type::Tuple(vec![lit_int(3), lit_int(13)]);
    let expected: Diag = RevealTypeDiag::new(version, r(23, 39)).into();
    assert_eq!(info.reporter.errors()[0], expected);
    assert_eq!(
        messages(&info),
        vec![
            "Type is tuple[Literal[3], Literal[13]]".to_owned(),
            "Type is module[sys]".to_owned(),
            "Type is Unknown".to_owned(),
        ]
    );
}

#[test]
fn import_under_an_alias_binds_the_alias() {
    let content = "import sys as s\nreveal_type(s)\nsys";
    let info = check_source("alias.py", content);
    assert_eq!(
        messages(&info),
        vec!["Type is module[s]".to_owned(), "Name \"sys\" not found in scope.".to_owned()]
    );
}

#[test]
fn import_of_an_unknown_module_binds_an_empty_module() {
    let content = "import os\nreveal_type(os.path)";
    let info = check_source("os.py", content);
    assert_eq!(messages(&info), vec!["Type is Unknown".to_owned()]);
}

#[test]
fn attribute_of_what_is_no_module() {
    let content = "a = 1\na.real";
    let info = check_source("attribute.py", content);
    assert_eq!(messages(&info), vec!["Unknown attribute \"real\" for Literal[1]".to_owned()]);
    assert_eq!(info.reporter.errors()[0].range(), r(6, 12));
}

#[test]
fn from_import_missing_name() {
    let content = "from sys import not_a_thing\nnot_a_thing";
    let info = check_source("missing.py", content);
    let expected: Vec<Diag> = vec![
        NotInScopeDiag::new("not_a_thing".to_owned(), r(16, 27)).into(),
        NotInScopeDiag::new("not_a_thing".to_owned(), r(28, 39)).into(),
    ];
    assert_eq!(info.reporter.errors(), &expected);
}

#[test]
fn from_import_binds_what_the_module_binds() {
    let content = "from sys import version_info\nreveal_type(version_info)\nfrom typing import reveal_type as r\nr";
    let info = check_source("from.py", content);
    assert_eq!(
        messages(&info),
        vec![
            "Type is tuple[Literal[3], Literal[13]]".to_owned(),
            "Name \"r\" not found in scope.".to_owned(),
        ]
    );
}

#[test]
fn call_of_what_is_no_function() {
    let content = "a = 1\na(2)";
    let info = check_source("call.py", content);
    assert_eq!(messages(&info), vec!["Literal[1] not callable".to_owned()]);
    assert_eq!(info.reporter.errors()[0].range(), r(6, 7));
}

#[test]
fn arguments_are_checked_against_parameters() {
    let content = "def f(x: int, y: str) -> int:\n    return 1\nf(\"a\", \"b\")\nf(1, 2)";
    let info = check_source("arguments.py", content);
    assert_eq!(
        messages(&info),
        vec![
            "Expected int but found Literal[\"a\"].".to_owned(),
            "Expected str but found Literal[2].".to_owned(),
        ]
    );
}

#[test]
fn plain_assignment_to_a_locked_name() {
    let content = "a: int = 3\na = \"s\"\nreveal_type(a)\na = 5\nreveal_type(a)\na = \"t\"\nreveal_type(a)";
    let info = check_source("assign.py", content);
    assert_eq!(
        messages(&info),
        vec![
            "Expected int but found Literal[\"s\"].".to_owned(),
            "Type is int".to_owned(),
            "Type is Literal[5]".to_owned(),
            "Type is Literal[\"t\"]".to_owned(),
        ]
    );
}

#[test]
fn assignment_to_several_targets() {
    let content = "a = b = (1, \"x\")\nreveal_type(a)\nreveal_type(b)";
    let info = check_source("targets.py", content);
    assert_eq!(
        messages(&info),
        vec![
            "Type is tuple[Literal[1], Literal[\"x\"]]".to_owned(),
            "Type is tuple[Literal[1], Literal[\"x\"]]".to_owned(),
        ]
    );
}

#[test]
fn class_definition_binds_the_class() {
    let content = "class C:\n    pass\nreveal_type(C)\nx: C = C";
    let info = check_source("class.py", content);
    assert_eq!(messages(&info), vec!["Type is type[C]".to_owned()]);
}

#[test]
fn literals_have_literal_types() {
    let content = "reveal_type(None)\nreveal_type(True)\nreveal_type(7)\nreveal_type(1.5)\nreveal_type(\"s\")\nreveal_type(())";
    let info = check_source("literals.py", content);
    assert_eq!(
        messages(&info),
        vec![
            "Type is None".to_owned(),
            "Type is Literal[True]".to_owned(),
            "Type is Literal[7]".to_owned(),
            "Type is Literal[1.5]".to_owned(),
            "Type is Literal[\"s\"]".to_owned(),
            "Type is tuple[]".to_owned(),
        ]
    );
}

#[test]
fn parser_errors_short_circuit() {
    let parsed = parse_module("a = = 1");
    assert!(parsed.is_err());
    match error_check_file("bad.py".to_owned(), "a = = 1".to_owned(), parsed) {
        Err(Error::RuffParse(errors)) => assert_eq!(errors.len(), 1),
        other => panic!("expected parse errors, got {:?}", other),
    }
}

#[test]
fn empty_file_has_no_findings() {
    let info = check_source("empty.py", "");
    assert!(info.reporter.is_empty());
    assert_eq!(info.file_name, "empty.py");
}

#[test]
fn annotation_atoms() {
    assert_eq!(ann("int"), Type::Int);
    assert_eq!(ann("str"), Type::String);
    assert_eq!(ann("float"), Type::Float);
    assert_eq!(ann("bool"), Type::Bool);
    assert_eq!(ann("Any"), Type::Any);
    assert_eq!(ann_findings("Unknown"), (Type::Unknown, vec![]));
}

#[test]
fn annotation_literals() {
    assert_eq!(ann("Literal[5]"), lit_int(5));
    assert_eq!(ann("Literal['f']"), lit_str("f"));
    assert_eq!(ann("Literal[True]"), Type::Literal(TypeLiteral::BooleanLiteral(true)));
    assert_eq!(ann("Literal[None]"), Type::Literal(TypeLiteral::NoneLiteral));
    assert_eq!(ann("Literal[...]"), Type::Literal(TypeLiteral::EllipsisLiteral));
    assert_eq!(ann("Literal[1.5]"), Type::Literal(TypeLiteral::FloatLiteral("1.5".to_owned())));
    assert_eq!(ann("Literal[1, 2]"), Type::Union(vec![lit_int(1), lit_int(2)]));
    assert_eq!(ann("Literal[1, 1]"), lit_int(1));
    assert_eq!(ann("5"), lit_int(5));
}

#[test]
fn annotation_unions_and_tuples() {
    assert_eq!(ann("Union[int, str]"), Type::Union(vec![Type::Int, Type::String]));
    assert_eq!(ann("Union[int, float]"), Type::Float);
    assert_eq!(ann("Union[int]"), Type::Int);
    assert_eq!(ann("Union[int, Union[str, bool]]"), Type::Union(vec![Type::Int, Type::String, Type::Bool]));
    assert_eq!(ann("tuple[int, str]"), Type::Tuple(vec![Type::Int, Type::String]));
    assert_eq!(ann("Tuple[int]"), Type::Tuple(vec![Type::Int]));
    assert_eq!(
        ann("tuple[Literal[1], Union[int, str]]"),
        Type::Tuple(vec![lit_int(1), Type::Union(vec![Type::Int, Type::String])])
    );
    assert_eq!(ann("Union[int][str]"), Type::Union(vec![Type::Int, Type::String]));
}

#[test]
fn annotation_round_trips() {
    let types = vec![
        Type::Any,
        Type::String,
        Type::Int,
        Type::Float,
        Type::Bool,
        Type::Tuple(vec![Type::Int, Type::String]),
        Type::Tuple(vec![Type::Bool, Type::Float, Type::Any]),
        lit_int(1),
        lit_int(0),
        lit_int(9223372036854775807),
        lit_str("a"),
        Type::Literal(TypeLiteral::BooleanLiteral(true)),
        Type::Literal(TypeLiteral::BooleanLiteral(false)),
        Type::Literal(TypeLiteral::NoneLiteral),
        Type::Literal(TypeLiteral::EllipsisLiteral),
        Type::Literal(TypeLiteral::FloatLiteral("0.1".to_owned())),
        Type::Union(vec![lit_str("a"), lit_str("b")]),
        Type::Union(vec![Type::Int, Type::String]),
        Type::Union(vec![Type::String, Type::Bool, Type::Float]),
    ];
    for typ in types {
        assert_eq!(ann(&typ.to_string()), typ);
    }
}

#[test]
fn nested_literal_is_rejected() {
    let (typ, findings) = ann_findings("Literal[Literal[1]]");
    assert_eq!(typ, Type::Unknown);
    assert_eq!(findings, vec!["Expecting literal, found Literal".to_owned()]);
}

#[test]
fn literal_of_a_type_is_rejected() {
    let mut info = Info::default();
    let expr = parse_expression("Literal[1, int]");
    let typ = synth_annotation(&mut info, &Scope::new(), Some(&expr));
    assert_eq!(typ, Type::Unknown);
    assert_eq!(info.reporter.errors()[0].message(), "Expecting literal, found int");
    assert_eq!(info.reporter.errors()[0].range(), r(11, 14));
}

#[test]
fn arguments_for_a_type_are_rejected() {
    let mut info = Info::default();
    let expr = parse_expression("int[str]");
    let typ = synth_annotation(&mut info, &Scope::new(), Some(&expr));
    assert_eq!(typ, Type::Unknown);
    assert_eq!(info.reporter.errors()[0].message(), "Type int doesn't support type arguments.");
    assert_eq!(info.reporter.errors()[0].range(), r(0, 3));
}

#[test]
fn unknown_name_in_annotation() {
    let mut info = Info::default();
    let expr = parse_expression("Union[int, Thing, Other]");
    let typ = synth_annotation(&mut info, &Scope::new(), Some(&expr));
    assert_eq!(typ, Type::Unknown);
    let expected: Vec<Diag> = vec![NotInScopeDiag::new("Thing".to_owned(), r(11, 16)).into()];
    assert_eq!(info.reporter.errors(), &expected);
}

#[test]
fn missing_annotation_is_unknown() {
    let mut info = Info::default();
    let typ = synth_annotation(&mut info, &Scope::new(), None);
    assert_eq!(typ, Type::Unknown);
    assert!(info.reporter.is_empty());
}

#[test]
fn names_in_scope_come_before_the_built_in_names() {
    let content = "int = \"s\"\na: int = \"s\"\nreveal_type(a)";
    let info = check_source("shadow.py", content);
    assert_eq!(messages(&info), vec!["Type is Literal[\"s\"]".to_owned()]);
}
