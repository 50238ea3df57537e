use crate::span::TextRange;
use vstd::prelude::*;
use vstd::std_specs::cmp::PartialEqSpecImpl;

verus! {

/// How a name is used where it occurs.
#[derive(Clone, Copy, Debug, PartialEq, Eq, Structural)]
pub enum ExprContext {
    Load,
    Store,
    Del,
    Invalid,
}

/// The value of a number literal.
///
/// Floats are carried by their text; integers that do not fit `i64` and
/// complex numbers carry no value, since nothing downstream can use one.
#[derive(Debug)]
pub enum Number {
    Int(i64),
    BigInt,
    Float(String),
    Complex,
}

/// One parameter of a `lambda` or a `def`.
#[derive(Debug)]
pub struct Parameter {
    pub name: String,
    pub annotation: Option<Expr>,
    pub default: Option<Expr>,
    pub range: TextRange,
}

/// An expression. `Other` stands for every form the checker has no rule for.
#[derive(Debug)]
#[allow(inconsistent_fields)]
pub enum Expr {
    NoneLiteral { range: TextRange },
    BooleanLiteral { value: bool, range: TextRange },
    NumberLiteral { value: Number, range: TextRange },
    StringLiteral { value: String, range: TextRange },
    BytesLiteral { value: Vec<u8>, range: TextRange },
    EllipsisLiteral { range: TextRange },
    Name { id: String, ctx: ExprContext, range: TextRange },
    Lambda { parameters: Vec<Parameter>, body: Box<Expr>, range: TextRange },
    Call { func: Box<Expr>, args: Vec<Expr>, keywords: usize, range: TextRange },
    Attribute { value: Box<Expr>, attr: String, range: TextRange },
    Tuple { elts: Vec<Expr>, range: TextRange },
    Subscript { value: Box<Expr>, slice: Box<Expr>, range: TextRange },
    Other { range: TextRange },
}

/// One name of an `import` or `from .. import` statement.
#[derive(Debug)]
pub struct Alias {
    pub name: String,
    pub asname: Option<String>,
    pub range: TextRange,
}

/// A function definition.
#[derive(Debug)]
pub struct StmtFunctionDef {
    pub name: String,
    pub parameters: Vec<Parameter>,
    pub returns: Option<Expr>,
    pub body: Vec<Stmt>,
    pub range: TextRange,
}

/// A statement. `Other` stands for every form the checker has no rule for.
#[derive(Debug)]
#[allow(inconsistent_fields)]
pub enum Stmt {
    AnnAssign { target: Expr, annotation: Expr, value: Option<Expr>, range: TextRange },
    Assign { targets: Vec<Expr>, value: Expr, range: TextRange },
    Expr { value: Expr, range: TextRange },
    Return { value: Option<Expr>, range: TextRange },
    FunctionDef(StmtFunctionDef),
    ClassDef { name: String, range: TextRange },
    Pass { range: TextRange },
    Import { names: Vec<Alias>, range: TextRange },
    ImportFrom { module: Option<String>, names: Vec<Alias>, range: TextRange },
    Other { range: TextRange },
}

// ---------------------------------------------------------------------------
// Mathematical models
// ---------------------------------------------------------------------------

/// Model of [`Number`].
pub enum NumberModel {
    Int(i64),
    BigInt,
    Float(Seq<char>),
    Complex,
}

/// Model of [`Parameter`].
pub struct ParameterModel {
    pub name: Seq<char>,
    pub annotation: Option<ExprModel>,
    pub default: Option<ExprModel>,
    pub range: TextRange,
}

/// Model of [`Expr`]: an expression as a mathematical value.
#[allow(inconsistent_fields)]
pub enum ExprModel {
    NoneLiteral { range: TextRange },
    BooleanLiteral { value: bool, range: TextRange },
    NumberLiteral { value: NumberModel, range: TextRange },
    StringLiteral { value: Seq<char>, range: TextRange },
    BytesLiteral { value: Seq<u8>, range: TextRange },
    EllipsisLiteral { range: TextRange },
    Name { id: Seq<char>, ctx: ExprContext, range: TextRange },
    Lambda { parameters: Seq<ParameterModel>, body: Box<ExprModel>, range: TextRange },
    Call { func: Box<ExprModel>, args: Seq<ExprModel>, keywords: nat, range: TextRange },
    Attribute { value: Box<ExprModel>, attr: Seq<char>, range: TextRange },
    Tuple { elts: Seq<ExprModel>, range: TextRange },
    Subscript { value: Box<ExprModel>, slice: Box<ExprModel>, range: TextRange },
    Other { range: TextRange },
}

/// Model of [`Alias`].
pub struct AliasModel {
    pub name: Seq<char>,
    pub asname: Option<Seq<char>>,
    pub range: TextRange,
}

/// Model of [`StmtFunctionDef`].
pub struct FunctionDefModel {
    pub name: Seq<char>,
    pub parameters: Seq<ParameterModel>,
    pub returns: Option<ExprModel>,
    pub body: Seq<StmtModel>,
    pub range: TextRange,
}

/// Model of [`Stmt`]: a statement as a mathematical value.
#[allow(inconsistent_fields)]
pub enum StmtModel {
    AnnAssign {
        target: ExprModel,
        annotation: ExprModel,
        value: Option<ExprModel>,
        range: TextRange,
    },
    Assign { targets: Seq<ExprModel>, value: ExprModel, range: TextRange },
    Expr { value: ExprModel, range: TextRange },
    Return { value: Option<ExprModel>, range: TextRange },
    FunctionDef(FunctionDefModel),
    ClassDef { name: Seq<char>, range: TextRange },
    Pass { range: TextRange },
    Import { names: Seq<AliasModel>, range: TextRange },
    ImportFrom { module: Option<Seq<char>>, names: Seq<AliasModel>, range: TextRange },
    Other { range: TextRange },
}

impl ExprModel {
    /// The source range of the node.
    pub open spec fn range(self) -> TextRange {
        match self {
            ExprModel::NoneLiteral { range } => range,
            ExprModel::BooleanLiteral { range, .. } => range,
            ExprModel::NumberLiteral { range, .. } => range,
            ExprModel::StringLiteral { range, .. } => range,
            ExprModel::BytesLiteral { range, .. } => range,
            ExprModel::EllipsisLiteral { range } => range,
            ExprModel::Name { range, .. } => range,
            ExprModel::Lambda { range, .. } => range,
            ExprModel::Call { range, .. } => range,
            ExprModel::Attribute { range, .. } => range,
            ExprModel::Tuple { range, .. } => range,
            ExprModel::Subscript { range, .. } => range,
            ExprModel::Other { range } => range,
        }
    }
}

impl StmtModel {
    /// The source range of the node.
    pub open spec fn range(self) -> TextRange {
        match self {
            StmtModel::AnnAssign { range, .. } => range,
            StmtModel::Assign { range, .. } => range,
            StmtModel::Expr { range, .. } => range,
            StmtModel::Return { range, .. } => range,
            StmtModel::FunctionDef(def) => def.range,
            StmtModel::ClassDef { range, .. } => range,
            StmtModel::Pass { range } => range,
            StmtModel::Import { range, .. } => range,
            StmtModel::ImportFrom { range, .. } => range,
            StmtModel::Other { range } => range,
        }
    }
}

/// The model of a number.
pub open spec fn number_model(n: Number) -> NumberModel {
    match n {
        Number::Int(i) => NumberModel::Int(i),
        Number::BigInt => NumberModel::BigInt,
        Number::Float(s) => NumberModel::Float(s@),
        Number::Complex => NumberModel::Complex,
    }
}

/// The model of an optional string.
pub open spec fn opt_string_model(o: Option<String>) -> Option<Seq<char>> {
    match o {
        Some(s) => Some(s@),
        None => None,
    }
}

/// The model of an expression.
pub open spec fn expr_model(e: Expr) -> ExprModel
    decreases e,
{
    match e {
        Expr::NoneLiteral { range } => ExprModel::NoneLiteral { range },
        Expr::BooleanLiteral { value, range } => ExprModel::BooleanLiteral { value, range },
        Expr::NumberLiteral { value, range } => ExprModel::NumberLiteral {
            value: number_model(value),
            range,
        },
        Expr::StringLiteral { value, range } => ExprModel::StringLiteral { value: value@, range },
        Expr::BytesLiteral { value, range } => ExprModel::BytesLiteral { value: value@, range },
        Expr::EllipsisLiteral { range } => ExprModel::EllipsisLiteral { range },
        Expr::Name { id, ctx, range } => ExprModel::Name { id: id@, ctx, range },
        Expr::Lambda { parameters, body, range } => ExprModel::Lambda {
            parameters: params_model(parameters@),
            body: Box::new(expr_model(*body)),
            range,
        },
        Expr::Call { func, args, keywords, range } => ExprModel::Call {
            func: Box::new(expr_model(*func)),
            args: exprs_model(args@),
            keywords: keywords as nat,
            range,
        },
        Expr::Attribute { value, attr, range } => ExprModel::Attribute {
            value: Box::new(expr_model(*value)),
            attr: attr@,
            range,
        },
        Expr::Tuple { elts, range } => ExprModel::Tuple { elts: exprs_model(elts@), range },
        Expr::Subscript { value, slice, range } => ExprModel::Subscript {
            value: Box::new(expr_model(*value)),
            slice: Box::new(expr_model(*slice)),
            range,
        },
        Expr::Other { range } => ExprModel::Other { range },
    }
}

/// The models of a list of expressions, in order.
pub open spec fn exprs_model(s: Seq<Expr>) -> Seq<ExprModel>
    decreases s,
{
    Seq::new(
        s.len(),
        |i: int|
            if 0 <= i < s.len() {
                expr_model(s[i])
            } else {
                ExprModel::Other { range: TextRange { start: 0, end: 0 } }
            },
    )
}

/// The model of an optional expression.
pub open spec fn opt_expr_model(o: Option<Expr>) -> Option<ExprModel>
    decreases o,
{
    match o {
        Some(e) => Some(expr_model(e)),
        None => None,
    }
}

/// The model of an optional reference to an expression.
pub open spec fn opt_expr_ref_model(o: Option<&Expr>) -> Option<ExprModel> {
    match o {
        Some(e) => Some(expr_model(*e)),
        None => None,
    }
}

/// The model of a parameter.
pub open spec fn param_model(p: Parameter) -> ParameterModel
    decreases p,
{
    ParameterModel {
        name: p.name@,
        annotation: opt_expr_model(p.annotation),
        default: opt_expr_model(p.default),
        range: p.range,
    }
}

/// The models of a list of parameters, in order.
pub open spec fn params_model(s: Seq<Parameter>) -> Seq<ParameterModel>
    decreases s,
{
    Seq::new(
        s.len(),
        |i: int|
            if 0 <= i < s.len() {
                param_model(s[i])
            } else {
                ParameterModel {
                    name: Seq::empty(),
                    annotation: None,
                    default: None,
                    range: TextRange { start: 0, end: 0 },
                }
            },
    )
}

/// The model of an imported name.
pub open spec fn alias_model(a: Alias) -> AliasModel {
    AliasModel { name: a.name@, asname: opt_string_model(a.asname), range: a.range }
}

/// The models of a list of imported names, in order.
pub open spec fn aliases_model(s: Seq<Alias>) -> Seq<AliasModel> {
    Seq::new(s.len(), |i: int| alias_model(s[i]))
}

/// The model of a function definition.
pub open spec fn function_def_model(d: StmtFunctionDef) -> FunctionDefModel
    decreases d,
{
    FunctionDefModel {
        name: d.name@,
        parameters: params_model(d.parameters@),
        returns: opt_expr_model(d.returns),
        body: stmts_model(d.body@),
        range: d.range,
    }
}

/// The model of a statement.
pub open spec fn stmt_model(s: Stmt) -> StmtModel
    decreases s,
{
    match s {
        Stmt::AnnAssign { target, annotation, value, range } => StmtModel::AnnAssign {
            target: expr_model(target),
            annotation: expr_model(annotation),
            value: opt_expr_model(value),
            range,
        },
        Stmt::Assign { targets, value, range } => StmtModel::Assign {
            targets: exprs_model(targets@),
            value: expr_model(value),
            range,
        },
        Stmt::Expr { value, range } => StmtModel::Expr { value: expr_model(value), range },
        Stmt::Return { value, range } => StmtModel::Return { value: opt_expr_model(value), range },
        Stmt::FunctionDef(def) => StmtModel::FunctionDef(function_def_model(def)),
        Stmt::ClassDef { name, range } => StmtModel::ClassDef { name: name@, range },
        Stmt::Pass { range } => StmtModel::Pass { range },
        Stmt::Import { names, range } => StmtModel::Import { names: aliases_model(names@), range },
        Stmt::ImportFrom { module, names, range } => StmtModel::ImportFrom {
            module: opt_string_model(module),
            names: aliases_model(names@),
            range,
        },
        Stmt::Other { range } => StmtModel::Other { range },
    }
}

/// The models of a list of statements, in order.
pub open spec fn stmts_model(s: Seq<Stmt>) -> Seq<StmtModel>
    decreases s,
{
    Seq::new(
        s.len(),
        |i: int|
            if 0 <= i < s.len() {
                stmt_model(s[i])
            } else {
                StmtModel::Other { range: TextRange { start: 0, end: 0 } }
            },
    )
}

impl View for Number {
    type V = NumberModel;

    open spec fn view(&self) -> NumberModel {
        number_model(*self)
    }
}

impl View for Parameter {
    type V = ParameterModel;

    open spec fn view(&self) -> ParameterModel {
        param_model(*self)
    }
}

impl View for Expr {
    type V = ExprModel;

    open spec fn view(&self) -> ExprModel {
        expr_model(*self)
    }
}

impl View for Alias {
    type V = AliasModel;

    open spec fn view(&self) -> AliasModel {
        alias_model(*self)
    }
}

impl View for StmtFunctionDef {
    type V = FunctionDefModel;

    open spec fn view(&self) -> FunctionDefModel {
        function_def_model(*self)
    }
}

impl View for Stmt {
    type V = StmtModel;

    open spec fn view(&self) -> StmtModel {
        stmt_model(*self)
    }
}

impl Expr {
    /// The source range of the node.
    pub fn range(&self) -> (r: TextRange)
        ensures
            r == self@.range(),
    {
        match self {
            Expr::NoneLiteral { range } => *range,
            Expr::BooleanLiteral { range, .. } => *range,
            Expr::NumberLiteral { range, .. } => *range,
            Expr::StringLiteral { range, .. } => *range,
            Expr::BytesLiteral { range, .. } => *range,
            Expr::EllipsisLiteral { range } => *range,
            Expr::Name { range, .. } => *range,
            Expr::Lambda { range, .. } => *range,
            Expr::Call { range, .. } => *range,
            Expr::Attribute { range, .. } => *range,
            Expr::Tuple { range, .. } => *range,
            Expr::Subscript { range, .. } => *range,
            Expr::Other { range } => *range,
        }
    }
}

impl Stmt {
    /// The source range of the node.
    pub fn range(&self) -> (r: TextRange)
        ensures
            r == self@.range(),
    {
        match self {
            Stmt::AnnAssign { range, .. } => *range,
            Stmt::Assign { range, .. } => *range,
            Stmt::Expr { range, .. } => *range,
            Stmt::Return { range, .. } => *range,
            Stmt::FunctionDef(def) => def.range,
            Stmt::ClassDef { range, .. } => *range,
            Stmt::Pass { range } => *range,
            Stmt::Import { range, .. } => *range,
            Stmt::ImportFrom { range, .. } => *range,
            Stmt::Other { range } => *range,
        }
    }
}

// ---------------------------------------------------------------------------
// Structural equality and copies
// ---------------------------------------------------------------------------

/// Whether two strings hold the same text.
pub fn string_eq(a: &String, b: &String) -> (r: bool)
    ensures
        r == (a@ == b@),
{
    *a == *b
}

/// Whether two optional strings are both absent or hold the same text.
pub fn opt_string_eq(a: &Option<String>, b: &Option<String>) -> (r: bool)
    ensures
        r == (opt_string_model(*a) == opt_string_model(*b)),
{
    match (a, b) {
        (Some(x), Some(y)) => string_eq(x, y),
        (None, None) => true,
        _ => false,
    }
}

/// A copy of an optional string.
pub fn opt_string_clone(a: &Option<String>) -> (r: Option<String>)
    ensures
        opt_string_model(r) == opt_string_model(*a),
{
    match a {
        Some(x) => Some(x.clone()),
        None => None,
    }
}

/// Whether two byte strings are equal.
pub fn bytes_eq(a: &Vec<u8>, b: &Vec<u8>) -> (r: bool)
    ensures
        r == (a@ == b@),
{
    if a.len() != b.len() {
        return false;
    }
    let mut i: usize = 0;
    while i < a.len()
        invariant
            i <= a.len(),
            a.len() == b.len(),
            forall|j: int| 0 <= j < i ==> a@[j] == b@[j],
        decreases a.len() - i,
    {
        if a[i] != b[i] {
            return false;
        }
        i += 1;
    }
    assert(a@ =~= b@);
    true
}

/// A copy of a byte string.
pub fn bytes_clone(a: &Vec<u8>) -> (r: Vec<u8>)
    ensures
        r@ == a@,
{
    let mut out: Vec<u8> = Vec::new();
    let mut i: usize = 0;
    while i < a.len()
        invariant
            i <= a.len(),
            out@ == a@.subrange(0, i as int),
        decreases a.len() - i,
    {
        out.push(a[i]);
        assert(a@.subrange(0, i + 1) =~= a@.subrange(0, i as int).push(a@[i as int]));
        i += 1;
    }
    assert(a@.subrange(0, a.len() as int) =~= a@);
    out
}

fn number_eq(a: &Number, b: &Number) -> (r: bool)
    ensures
        r == (a@ == b@),
{
    match (a, b) {
        (Number::Int(x), Number::Int(y)) => *x == *y,
        (Number::BigInt, Number::BigInt) => true,
        (Number::Float(x), Number::Float(y)) => string_eq(x, y),
        (Number::Complex, Number::Complex) => true,
        _ => false,
    }
}

fn number_clone(a: &Number) -> (r: Number)
    ensures
        r@ == a@,
{
    match a {
        Number::Int(x) => Number::Int(*x),
        Number::BigInt => Number::BigInt,
        Number::Float(x) => Number::Float(x.clone()),
        Number::Complex => Number::Complex,
    }
}

fn expr_eq(a: &Expr, b: &Expr) -> (r: bool)
    ensures
        r == (a@ == b@),
    decreases a,
{
    match (a, b) {
        (Expr::NoneLiteral { range: r1 }, Expr::NoneLiteral { range: r2 }) => *r1 == *r2,
        (
            Expr::BooleanLiteral { value: v1, range: r1 },
            Expr::BooleanLiteral { value: v2, range: r2 },
        ) => *v1 == *v2 && *r1 == *r2,
        (
            Expr::NumberLiteral { value: v1, range: r1 },
            Expr::NumberLiteral { value: v2, range: r2 },
        ) => number_eq(v1, v2) && *r1 == *r2,
        (
            Expr::StringLiteral { value: v1, range: r1 },
            Expr::StringLiteral { value: v2, range: r2 },
        ) => string_eq(v1, v2) && *r1 == *r2,
        (
            Expr::BytesLiteral { value: v1, range: r1 },
            Expr::BytesLiteral { value: v2, range: r2 },
        ) => bytes_eq(v1, v2) && *r1 == *r2,
        (Expr::EllipsisLiteral { range: r1 }, Expr::EllipsisLiteral { range: r2 }) => *r1 == *r2,
        (Expr::Name { id: i1, ctx: c1, range: r1 }, Expr::Name { id: i2, ctx: c2, range: r2 }) => {
            string_eq(i1, i2) && *c1 == *c2 && *r1 == *r2
        },
        (
            Expr::Lambda { parameters: p1, body: b1, range: r1 },
            Expr::Lambda { parameters: p2, body: b2, range: r2 },
        ) => {
            let x = params_eq(p1, p2);
            let y = expr_eq(b1, b2);
            x && y && *r1 == *r2
        },
        (
            Expr::Call { func: f1, args: a1, keywords: k1, range: r1 },
            Expr::Call { func: f2, args: a2, keywords: k2, range: r2 },
        ) => {
            let x = expr_eq(f1, f2);
            let y = exprs_eq(a1, a2);
            x && y && *k1 == *k2 && *r1 == *r2
        },
        (
            Expr::Attribute { value: v1, attr: a1, range: r1 },
            Expr::Attribute { value: v2, attr: a2, range: r2 },
        ) => {
            let x = expr_eq(v1, v2);
            x && string_eq(a1, a2) && *r1 == *r2
        },
        (Expr::Tuple { elts: e1, range: r1 }, Expr::Tuple { elts: e2, range: r2 }) => {
            let x = exprs_eq(e1, e2);
            x && *r1 == *r2
        },
        (
            Expr::Subscript { value: v1, slice: s1, range: r1 },
            Expr::Subscript { value: v2, slice: s2, range: r2 },
        ) => {
            let x = expr_eq(v1, v2);
            let y = expr_eq(s1, s2);
            x && y && *r1 == *r2
        },
        (Expr::Other { range: r1 }, Expr::Other { range: r2 }) => *r1 == *r2,
        _ => false,
    }
}

fn exprs_eq(a: &Vec<Expr>, b: &Vec<Expr>) -> (r: bool)
    ensures
        r == (exprs_model(a@) == exprs_model(b@)),
    decreases a,
{
    if a.len() != b.len() {
        assert(exprs_model(a@).len() != exprs_model(b@).len());
        return false;
    }
    let mut i: usize = 0;
    while i < a.len()
        invariant
            i <= a.len(),
            a.len() == b.len(),
            forall|j: int| 0 <= j < i ==> a@[j]@ == b@[j]@,
        decreases a.len() - i,
    {
        if !expr_eq(&a[i], &b[i]) {
            assert(exprs_model(a@)[i as int] != exprs_model(b@)[i as int]);
            return false;
        }
        i += 1;
    }
    assert(exprs_model(a@) =~= exprs_model(b@));
    true
}

fn opt_expr_eq(a: &Option<Expr>, b: &Option<Expr>) -> (r: bool)
    ensures
        r == (opt_expr_model(*a) == opt_expr_model(*b)),
    decreases a,
{
    match (a, b) {
        (Some(x), Some(y)) => expr_eq(x, y),
        (None, None) => true,
        _ => false,
    }
}

fn param_eq(a: &Parameter, b: &Parameter) -> (r: bool)
    ensures
        r == (a@ == b@),
    decreases a,
{
    let x = opt_expr_eq(&a.annotation, &b.annotation);
    let y = opt_expr_eq(&a.default, &b.default);
    string_eq(&a.name, &b.name) && x && y && a.range == b.range
}

fn params_eq(a: &Vec<Parameter>, b: &Vec<Parameter>) -> (r: bool)
    ensures
        r == (params_model(a@) == params_model(b@)),
    decreases a,
{
    if a.len() != b.len() {
        assert(params_model(a@).len() != params_model(b@).len());
        return false;
    }
    let mut i: usize = 0;
    while i < a.len()
        invariant
            i <= a.len(),
            a.len() == b.len(),
            forall|j: int| 0 <= j < i ==> a@[j]@ == b@[j]@,
        decreases a.len() - i,
    {
        if !param_eq(&a[i], &b[i]) {
            assert(params_model(a@)[i as int] != params_model(b@)[i as int]);
            return false;
        }
        i += 1;
    }
    assert(params_model(a@) =~= params_model(b@));
    true
}

fn alias_eq(a: &Alias, b: &Alias) -> (r: bool)
    ensures
        r == (a@ == b@),
{
    string_eq(&a.name, &b.name) && opt_string_eq(&a.asname, &b.asname) && a.range == b.range
}

fn aliases_eq(a: &Vec<Alias>, b: &Vec<Alias>) -> (r: bool)
    ensures
        r == (aliases_model(a@) == aliases_model(b@)),
{
    if a.len() != b.len() {
        assert(aliases_model(a@).len() != aliases_model(b@).len());
        return false;
    }
    let mut i: usize = 0;
    while i < a.len()
        invariant
            i <= a.len(),
            a.len() == b.len(),
            forall|j: int| 0 <= j < i ==> a@[j]@ == b@[j]@,
        decreases a.len() - i,
    {
        if !alias_eq(&a[i], &b[i]) {
            assert(aliases_model(a@)[i as int] != aliases_model(b@)[i as int]);
            return false;
        }
        i += 1;
    }
    assert(aliases_model(a@) =~= aliases_model(b@));
    true
}

fn function_def_eq(a: &StmtFunctionDef, b: &StmtFunctionDef) -> (r: bool)
    ensures
        r == (a@ == b@),
    decreases a,
{
    let x = params_eq(&a.parameters, &b.parameters);
    let y = opt_expr_eq(&a.returns, &b.returns);
    let z = stmts_eq(&a.body, &b.body);
    string_eq(&a.name, &b.name) && x && y && z && a.range == b.range
}

fn stmt_eq(a: &Stmt, b: &Stmt) -> (r: bool)
    ensures
        r == (a@ == b@),
    decreases a,
{
    match (a, b) {
        (
            Stmt::AnnAssign { target: t1, annotation: a1, value: v1, range: r1 },
            Stmt::AnnAssign { target: t2, annotation: a2, value: v2, range: r2 },
        ) => {
            let x = expr_eq(t1, t2);
            let y = expr_eq(a1, a2);
            let z = opt_expr_eq(v1, v2);
            x && y && z && *r1 == *r2
        },
        (
            Stmt::Assign { targets: t1, value: v1, range: r1 },
            Stmt::Assign { targets: t2, value: v2, range: r2 },
        ) => {
            let x = exprs_eq(t1, t2);
            let y = expr_eq(v1, v2);
            x && y && *r1 == *r2
        },
        (Stmt::Expr { value: v1, range: r1 }, Stmt::Expr { value: v2, range: r2 }) => {
            let x = expr_eq(v1, v2);
            x && *r1 == *r2
        },
        (Stmt::Return { value: v1, range: r1 }, Stmt::Return { value: v2, range: r2 }) => {
            let x = opt_expr_eq(v1, v2);
            x && *r1 == *r2
        },
        (Stmt::FunctionDef(d1), Stmt::FunctionDef(d2)) => function_def_eq(d1, d2),
        (Stmt::ClassDef { name: n1, range: r1 }, Stmt::ClassDef { name: n2, range: r2 }) => {
            string_eq(n1, n2) && *r1 == *r2
        },
        (Stmt::Pass { range: r1 }, Stmt::Pass { range: r2 }) => *r1 == *r2,
        (Stmt::Import { names: n1, range: r1 }, Stmt::Import { names: n2, range: r2 }) => {
            aliases_eq(n1, n2) && *r1 == *r2
        },
        (
            Stmt::ImportFrom { module: m1, names: n1, range: r1 },
            Stmt::ImportFrom { module: m2, names: n2, range: r2 },
        ) => opt_string_eq(m1, m2) && aliases_eq(n1, n2) && *r1 == *r2,
        (Stmt::Other { range: r1 }, Stmt::Other { range: r2 }) => *r1 == *r2,
        _ => false,
    }
}

fn stmts_eq(a: &Vec<Stmt>, b: &Vec<Stmt>) -> (r: bool)
    ensures
        r == (stmts_model(a@) == stmts_model(b@)),
    decreases a,
{
    if a.len() != b.len() {
        assert(stmts_model(a@).len() != stmts_model(b@).len());
        return false;
    }
    let mut i: usize = 0;
    while i < a.len()
        invariant
            i <= a.len(),
            a.len() == b.len(),
            forall|j: int| 0 <= j < i ==> a@[j]@ == b@[j]@,
        decreases a.len() - i,
    {
        if !stmt_eq(&a[i], &b[i]) {
            assert(stmts_model(a@)[i as int] != stmts_model(b@)[i as int]);
            return false;
        }
        i += 1;
    }
    assert(stmts_model(a@) =~= stmts_model(b@));
    true
}

fn expr_clone(a: &Expr) -> (r: Expr)
    ensures
        r@ == a@,
    decreases a,
{
    match a {
        Expr::NoneLiteral { range } => Expr::NoneLiteral { range: *range },
        Expr::BooleanLiteral { value, range } => Expr::BooleanLiteral {
            value: *value,
            range: *range,
        },
        Expr::NumberLiteral { value, range } => Expr::NumberLiteral {
            value: number_clone(value),
            range: *range,
        },
        Expr::StringLiteral { value, range } => Expr::StringLiteral {
            value: value.clone(),
            range: *range,
        },
        Expr::BytesLiteral { value, range } => Expr::BytesLiteral {
            value: bytes_clone(value),
            range: *range,
        },
        Expr::EllipsisLiteral { range } => Expr::EllipsisLiteral { range: *range },
        Expr::Name { id, ctx, range } => Expr::Name { id: id.clone(), ctx: *ctx, range: *range },
        Expr::Lambda { parameters, body, range } => Expr::Lambda {
            parameters: params_clone(parameters),
            body: Box::new(expr_clone(body)),
            range: *range,
        },
        Expr::Call { func, args, keywords, range } => Expr::Call {
            func: Box::new(expr_clone(func)),
            args: exprs_clone(args),
            keywords: *keywords,
            range: *range,
        },
        Expr::Attribute { value, attr, range } => Expr::Attribute {
            value: Box::new(expr_clone(value)),
            attr: attr.clone(),
            range: *range,
        },
        Expr::Tuple { elts, range } => Expr::Tuple { elts: exprs_clone(elts), range: *range },
        Expr::Subscript { value, slice, range } => Expr::Subscript {
            value: Box::new(expr_clone(value)),
            slice: Box::new(expr_clone(slice)),
            range: *range,
        },
        Expr::Other { range } => Expr::Other { range: *range },
    }
}

fn exprs_clone(a: &Vec<Expr>) -> (r: Vec<Expr>)
    ensures
        exprs_model(r@) == exprs_model(a@),
    decreases a,
{
    let mut out: Vec<Expr> = Vec::new();
    let mut i: usize = 0;
    while i < a.len()
        invariant
            i <= a.len(),
            out@.len() == i,
            forall|j: int| 0 <= j < i ==> out@[j]@ == a@[j]@,
        decreases a.len() - i,
    {
        out.push(expr_clone(&a[i]));
        i += 1;
    }
    assert(exprs_model(out@) =~= exprs_model(a@));
    out
}

fn opt_expr_clone(a: &Option<Expr>) -> (r: Option<Expr>)
    ensures
        opt_expr_model(r) == opt_expr_model(*a),
    decreases a,
{
    match a {
        Some(x) => Some(expr_clone(x)),
        None => None,
    }
}

fn param_clone(a: &Parameter) -> (r: Parameter)
    ensures
        r@ == a@,
    decreases a,
{
    Parameter {
        name: a.name.clone(),
        annotation: opt_expr_clone(&a.annotation),
        default: opt_expr_clone(&a.default),
        range: a.range,
    }
}

fn params_clone(a: &Vec<Parameter>) -> (r: Vec<Parameter>)
    ensures
        params_model(r@) == params_model(a@),
    decreases a,
{
    let mut out: Vec<Parameter> = Vec::new();
    let mut i: usize = 0;
    while i < a.len()
        invariant
            i <= a.len(),
            out@.len() == i,
            forall|j: int| 0 <= j < i ==> out@[j]@ == a@[j]@,
        decreases a.len() - i,
    {
        out.push(param_clone(&a[i]));
        i += 1;
    }
    assert(params_model(out@) =~= params_model(a@));
    out
}

fn alias_clone(a: &Alias) -> (r: Alias)
    ensures
        r@ == a@,
{
    Alias { name: a.name.clone(), asname: opt_string_clone(&a.asname), range: a.range }
}

fn aliases_clone(a: &Vec<Alias>) -> (r: Vec<Alias>)
    ensures
        aliases_model(r@) == aliases_model(a@),
{
    let mut out: Vec<Alias> = Vec::new();
    let mut i: usize = 0;
    while i < a.len()
        invariant
            i <= a.len(),
            out@.len() == i,
            forall|j: int| 0 <= j < i ==> out@[j]@ == a@[j]@,
        decreases a.len() - i,
    {
        out.push(alias_clone(&a[i]));
        i += 1;
    }
    assert(aliases_model(out@) =~= aliases_model(a@));
    out
}

fn function_def_clone(a: &StmtFunctionDef) -> (r: StmtFunctionDef)
    ensures
        r@ == a@,
    decreases a,
{
    StmtFunctionDef {
        name: a.name.clone(),
        parameters: params_clone(&a.parameters),
        returns: opt_expr_clone(&a.returns),
        body: stmts_clone(&a.body),
        range: a.range,
    }
}

fn stmt_clone(a: &Stmt) -> (r: Stmt)
    ensures
        r@ == a@,
    decreases a,
{
    match a {
        Stmt::AnnAssign { target, annotation, value, range } => Stmt::AnnAssign {
            target: expr_clone(target),
            annotation: expr_clone(annotation),
            value: opt_expr_clone(value),
            range: *range,
        },
        Stmt::Assign { targets, value, range } => Stmt::Assign {
            targets: exprs_clone(targets),
            value: expr_clone(value),
            range: *range,
        },
        Stmt::Expr { value, range } => Stmt::Expr { value: expr_clone(value), range: *range },
        Stmt::Return { value, range } => Stmt::Return {
            value: opt_expr_clone(value),
            range: *range,
        },
        Stmt::FunctionDef(def) => Stmt::FunctionDef(function_def_clone(def)),
        Stmt::ClassDef { name, range } => Stmt::ClassDef { name: name.clone(), range: *range },
        Stmt::Pass { range } => Stmt::Pass { range: *range },
        Stmt::Import { names, range } => Stmt::Import {
            names: aliases_clone(names),
            range: *range,
        },
        Stmt::ImportFrom { module, names, range } => Stmt::ImportFrom {
            module: opt_string_clone(module),
            names: aliases_clone(names),
            range: *range,
        },
        Stmt::Other { range } => Stmt::Other { range: *range },
    }
}

fn stmts_clone(a: &Vec<Stmt>) -> (r: Vec<Stmt>)
    ensures
        stmts_model(r@) == stmts_model(a@),
    decreases a,
{
    let mut out: Vec<Stmt> = Vec::new();
    let mut i: usize = 0;
    while i < a.len()
        invariant
            i <= a.len(),
            out@.len() == i,
            forall|j: int| 0 <= j < i ==> out@[j]@ == a@[j]@,
        decreases a.len() - i,
    {
        out.push(stmt_clone(&a[i]));
        i += 1;
    }
    assert(stmts_model(out@) =~= stmts_model(a@));
    out
}

impl Clone for Expr {
    fn clone(&self) -> (r: Self)
        ensures
            r@ == self@,
    {
        expr_clone(self)
    }
}

impl Clone for Parameter {
    fn clone(&self) -> (r: Self)
        ensures
            r@ == self@,
    {
        param_clone(self)
    }
}

impl Clone for Alias {
    fn clone(&self) -> (r: Self)
        ensures
            r@ == self@,
    {
        alias_clone(self)
    }
}

impl Clone for StmtFunctionDef {
    fn clone(&self) -> (r: Self)
        ensures
            r@ == self@,
    {
        function_def_clone(self)
    }
}

impl Clone for Stmt {
    fn clone(&self) -> (r: Self)
        ensures
            r@ == self@,
    {
        stmt_clone(self)
    }
}

impl PartialEq for Expr {
    fn eq(&self, other: &Self) -> (r: bool) {
        expr_eq(self, other)
    }
}

impl PartialEqSpecImpl for Expr {
    open spec fn obeys_eq_spec() -> bool {
        true
    }

    open spec fn eq_spec(&self, other: &Self) -> bool {
        self@ == other@
    }
}

impl PartialEq for StmtFunctionDef {
    fn eq(&self, other: &Self) -> (r: bool) {
        function_def_eq(self, other)
    }
}

impl PartialEqSpecImpl for StmtFunctionDef {
    open spec fn obeys_eq_spec() -> bool {
        true
    }

    open spec fn eq_spec(&self, other: &Self) -> bool {
        self@ == other@
    }
}

impl PartialEq for Stmt {
    fn eq(&self, other: &Self) -> (r: bool) {
        stmt_eq(self, other)
    }
}

impl PartialEqSpecImpl for Stmt {
    open spec fn obeys_eq_spec() -> bool {
        true
    }

    open spec fn eq_spec(&self, other: &Self) -> bool {
        self@ == other@
    }
}

} // verus!
