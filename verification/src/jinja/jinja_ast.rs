use vstd::prelude::*;

verus! {

/// A name in a template.
#[derive(Debug)]
pub struct Ident(pub String);

/// A statement of a template.
#[derive(Debug)]
pub enum JinjaStatement {
    Include(),
    Extends(),
    Macro(JinjaMacro),
    For(),
    If(),
    Block(),
    With(),
    Call(),
    Filter(),
    Assignment(),
    Expression(JinjaExpression),
}

/// A macro: its name, the names of its arguments, and its body.
#[derive(Debug)]
pub struct JinjaMacro {
    pub name: Ident,
    pub args: Vec<Ident>,
    pub body: Vec<JinjaStatement>,
}

/// An expression between `{{` and `}}`, with the filters it is passed through.
#[derive(Debug)]
pub struct JinjaExpression {
    pub expr: String,
    pub filters: Vec<String>,
}

} // verus!
