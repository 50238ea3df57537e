use pycavalry::helpers::convert_range;
use pycavalry::state::{PartialItem, StatementSynthDataReturn};
use pycavalry::{
    CantReassignLockedDiag, Diag, Diagnostic, DiagnosticType, ExpectedButGotDiag, Info,
    NotInScopeDiag, Reporter, RevealTypeDiag, StatementSynthData, TextRange, Type, TypeLiteral,
};

fn r(start: usize, end: usize) -> TextRange {
    TextRange::new(start, end)
}

#[test]
fn reveal_type_says_type_is() {
    let d = RevealTypeDiag::new(Type::Literal(TypeLiteral::StringLiteral("asdf".to_owned())), r(1, 2));
    assert_eq!(d.message(), "Type is Literal[\"asdf\"]");
    assert_eq!(d.to_string(), "RevealTypeDiag(Literal[\"asdf\"], )");
    let d: Diag = d.into();
    assert_eq!(d.kind(), DiagnosticType::Info);
    assert_eq!(d.range(), r(1, 2));
    assert_eq!(d.message(), "Type is Literal[\"asdf\"]");
}

#[test]
fn name_not_in_scope_names_the_name() {
    let d = NotInScopeDiag::new("thing".to_owned(), r(3, 8));
    assert_eq!(d.message(), "Name \"thing\" not found in scope.");
    assert_eq!(d.to_string(), "NotInScopeDiag(thing, )");
    let d: Diag = d.into();
    assert_eq!(d.kind(), DiagnosticType::Error);
    assert_eq!(d.to_string(), "NotInScopeDiag(thing, )");
}

#[test]
fn expected_but_got_names_both_types() {
    let d = ExpectedButGotDiag::new(Type::Int, Type::String, r(0, 1));
    assert_eq!(d.message(), "Expected int but found str.");
    assert_eq!(d.to_string(), "ExpectedButGotDiag(int, str, )");
    assert_eq!(Diag::from(d).kind(), DiagnosticType::Error);
}

#[test]
fn cant_reassign_locked_uses_the_full_phrase() {
    let d = CantReassignLockedDiag::new(Type::Int, Type::String, "a".to_owned(), r(0, 1));
    assert_eq!(
        d.message(),
        "\"a\" is already defined as int, can't redefine as str as it was previously defined with a type hint, so it can't be redefined as a different type."
    );
    assert_eq!(d.to_string(), "CantReassignLockedDiag(int, str, a, )");
    assert_eq!(Diag::from(d).kind(), DiagnosticType::Error);
}

#[test]
fn plain_diagnostics_carry_their_text_and_kind() {
    let e = Diagnostic::error("bad".to_owned(), r(0, 1));
    let w = Diagnostic::warn("odd".to_owned(), r(0, 1));
    let i = Diagnostic::info("fyi".to_owned(), r(0, 1));
    assert_eq!(e, Diagnostic::new("bad".to_owned(), DiagnosticType::Error, r(0, 1)));
    assert_eq!(e.message(), "bad");
    assert_eq!(e.to_string(), "Diagnostic(Error, )");
    assert_eq!(w.to_string(), "Diagnostic(Warning, )");
    assert_eq!(i.to_string(), "Diagnostic(Info, )");
    assert_eq!(Diag::from(w).kind(), DiagnosticType::Warning);
    assert_eq!(Diag::from(i).kind(), DiagnosticType::Info);
    assert_eq!(DiagnosticType::Error.to_string(), "Error");
    assert_eq!(DiagnosticType::Warning.to_string(), "Warning");
    assert_eq!(DiagnosticType::Info.to_string(), "Info");
}

#[test]
fn findings_of_different_kinds_differ() {
    let a: Diag = NotInScopeDiag::new("int".to_owned(), r(0, 1)).into();
    let b: Diag = RevealTypeDiag::new(Type::Int, r(0, 1)).into();
    let c: Diag = RevealTypeDiag::new(Type::Int, r(0, 2)).into();
    assert_ne!(a, b);
    assert_ne!(b, c);
    assert_eq!(b, b.clone());
}

#[test]
fn reporter_keeps_the_order_of_reports() {
    let mut reporter = Reporter::default();
    assert!(reporter.is_empty());
    assert_eq!(reporter.len(), 0);
    reporter.error("first".to_owned(), r(0, 1));
    reporter.add(RevealTypeDiag::new(Type::Int, r(1, 2)).into());
    reporter.warning("third".to_owned(), r(2, 3));
    reporter.info("fourth".to_owned(), r(3, 4));
    reporter.extend(vec![
        NotInScopeDiag::new("a".to_owned(), r(4, 5)).into(),
        NotInScopeDiag::new("b".to_owned(), r(5, 6)).into(),
    ]);
    assert!(!reporter.is_empty());
    assert_eq!(reporter.len(), 6);
    let messages: Vec<String> = reporter.errors().iter().map(|d| d.message()).collect();
    assert_eq!(
        messages,
        vec![
            "first",
            "Type is int",
            "third",
            "fourth",
            "Name \"a\" not found in scope.",
            "Name \"b\" not found in scope."
        ]
    );
    let kinds: Vec<DiagnosticType> = reporter.errors().iter().map(|d| d.kind()).collect();
    assert_eq!(
        kinds,
        vec![
            DiagnosticType::Error,
            DiagnosticType::Info,
            DiagnosticType::Warning,
            DiagnosticType::Info,
            DiagnosticType::Error,
            DiagnosticType::Error
        ]
    );
}

#[test]
fn sessions_are_equal_by_file() {
    let mut a = Info::new("a.py".to_owned(), "x".to_owned());
    let b = Info::new("a.py".to_owned(), "x".to_owned());
    a.report(RevealTypeDiag::new(Type::Int, r(0, 1)).into());
    assert_eq!(a.reporter.len(), 1);
    assert!(a == b);
    assert!(a != Info::new("a.py".to_owned(), "y".to_owned()));
    assert!(a != Info::new("b.py".to_owned(), "x".to_owned()));
    let d = Info::default();
    assert_eq!(d.file_name, "unknown");
    assert_eq!(d.file_content, "");
    assert!(d.reporter.is_empty());
}

#[test]
fn checker_state_starts_empty() {
    let data = StatementSynthData::new(None);
    assert!(data.returns.is_none());
    assert!(data.partial_list.is_empty());
    let data = StatementSynthData::default();
    assert!(data.returns.is_none());
    let context = StatementSynthDataReturn::new(Type::Int);
    assert_eq!(context.annotation, Type::Int);
    assert!(context.found_types.is_empty());
    let data = StatementSynthData::new(Some(context));
    assert_eq!(data.returns.unwrap().annotation, Type::Int);
    let item = PartialItem::new("a.py".to_owned(), "f".to_owned());
    assert_eq!(item.path, "a.py");
    assert_eq!(item.name, "f");
}

#[test]
fn ranges() {
    let range = r(3, 8);
    assert_eq!(range.len(), 5);
    assert_eq!(r(8, 3).len(), 0);
    assert_eq!(convert_range(range), 3..8);
    assert_eq!(TextRange::from(3..8), range);
    assert_eq!(TextRange::default(), r(0, 0));
    assert_eq!(TextRange::empty(), r(0, 0));
}
