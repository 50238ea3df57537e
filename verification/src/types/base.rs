use crate::ast::{function_def_model, FunctionDefModel, StmtFunctionDef};
use vstd::prelude::*;

verus! {

/// The value behind a literal type. Floats are carried by their source text.
#[derive(Debug, Eq, Hash)]
pub enum TypeLiteral {
    StringLiteral(String),
    BytesLiteral(Vec<u8>),
    IntLiteral(i64),
    FloatLiteral(String),
    BooleanLiteral(bool),
    NoneLiteral,
    EllipsisLiteral,
}

/// A callable with positional parameters only.
#[derive(Debug)]
pub struct Function {
    pub args: Vec<Type>,
    pub arg_names: Vec<String>,
    pub ret: Box<Type>,
}

/// A callable whose signature is still being worked out from its definition.
#[derive(Debug)]
pub struct PartialFunction {
    pub ast: StmtFunctionDef,
    pub args: Option<Vec<Type>>,
    pub arg_names: Option<Vec<String>>,
    pub ret: Option<Box<Type>>,
}

/// A class, by name, with its methods and fields.
#[derive(Debug)]
pub struct Class {
    pub name: String,
    pub functions: Vec<Function>,
    pub parameters: Vec<(String, Type)>,
}

/// A type together with the flag that marks a binding made by an annotation.
#[derive(Debug)]
pub struct ScopedType {
    pub typ: Type,
    pub is_locked: bool,
}

/// A type of the checked language.
///
/// A module's bindings are kept as a list of entries; where a name occurs
/// more than once the last entry is the one that counts.
#[derive(Debug)]
pub enum Type {
    Any,
    Unknown,
    Never,
    String,
    Int,
    Float,
    Bool,
    NoneType,
    Ellipsis,
    Tuple(Vec<Type>),
    Literal(TypeLiteral),
    Function(Function),
    PartialFunction(PartialFunction),
    Class(Class),
    Union(Vec<Type>),
    Module(String, Vec<(String, ScopedType)>),
}

/// The members of a class that carry a type.
#[derive(Debug)]
pub struct TypeClass {
    pub properties: Vec<TypeClassProperty>,
}

/// One typed member of a class.
#[derive(Debug)]
pub struct TypeClassProperty {
    pub name: String,
    pub typ: Type,
}

// ---------------------------------------------------------------------------
// Mathematical models
// ---------------------------------------------------------------------------

/// Model of [`TypeLiteral`].
pub enum Lit {
    Str(Seq<char>),
    Bytes(Seq<u8>),
    Int(i64),
    Float(Seq<char>),
    Bool(bool),
    NoneLit,
    EllipsisLit,
}

/// Model of [`Function`].
pub struct FnTy {
    pub params: Seq<Ty>,
    pub names: Seq<Seq<char>>,
    pub ret: Box<Ty>,
}

/// Model of [`PartialFunction`].
pub struct PartialFnTy {
    pub ast: FunctionDefModel,
    pub params: Option<Seq<Ty>>,
    pub names: Option<Seq<Seq<char>>>,
    pub ret: Option<Box<Ty>>,
}

/// Model of [`Class`].
pub struct ClassTy {
    pub name: Seq<char>,
    pub methods: Seq<FnTy>,
    pub fields: Seq<(Seq<char>, Ty)>,
}

/// Model of [`ScopedType`].
pub struct Binding {
    pub typ: Ty,
    pub locked: bool,
}

/// Model of [`Type`]: the type lattice as a mathematical value.
pub enum Ty {
    Any,
    Unknown,
    Never,
    Str,
    Int,
    Float,
    Bool,
    NoneType,
    Ellipsis,
    Tuple(Seq<Ty>),
    Literal(Lit),
    Function(FnTy),
    PartialFunction(PartialFnTy),
    Class(ClassTy),
    Union(Seq<Ty>),
    Module(Seq<char>, Map<Seq<char>, Binding>),
}

/// The model of a literal value.
pub open spec fn literal_model(l: TypeLiteral) -> Lit {
    match l {
        TypeLiteral::StringLiteral(s) => Lit::Str(s@),
        TypeLiteral::BytesLiteral(b) => Lit::Bytes(b@),
        TypeLiteral::IntLiteral(i) => Lit::Int(i),
        TypeLiteral::FloatLiteral(s) => Lit::Float(s@),
        TypeLiteral::BooleanLiteral(b) => Lit::Bool(b),
        TypeLiteral::NoneLiteral => Lit::NoneLit,
        TypeLiteral::EllipsisLiteral => Lit::EllipsisLit,
    }
}

/// The texts of a list of strings, in order.
pub open spec fn strings_model(s: Seq<String>) -> Seq<Seq<char>> {
    Seq::new(s.len(), |i: int| s[i]@)
}

/// The texts of an optional list of strings.
pub open spec fn opt_strings_model(o: Option<Vec<String>>) -> Option<Seq<Seq<char>>> {
    match o {
        Some(v) => Some(strings_model(v@)),
        None => None,
    }
}

/// The model of a type.
pub open spec fn type_model(t: Type) -> Ty
    decreases t,
{
    match t {
        Type::Any => Ty::Any,
        Type::Unknown => Ty::Unknown,
        Type::Never => Ty::Never,
        Type::String => Ty::Str,
        Type::Int => Ty::Int,
        Type::Float => Ty::Float,
        Type::Bool => Ty::Bool,
        Type::NoneType => Ty::NoneType,
        Type::Ellipsis => Ty::Ellipsis,
        Type::Tuple(v) => Ty::Tuple(types_model(v@)),
        Type::Literal(l) => Ty::Literal(literal_model(l)),
        Type::Function(f) => Ty::Function(function_model(f)),
        Type::PartialFunction(p) => Ty::PartialFunction(partial_model(p)),
        Type::Class(c) => Ty::Class(class_model(c)),
        Type::Union(v) => Ty::Union(types_model(v@)),
        Type::Module(name, bindings) => Ty::Module(name@, assoc_map(entries_model(bindings@))),
    }
}

/// The models of a list of types, in order.
pub open spec fn types_model(s: Seq<Type>) -> Seq<Ty>
    decreases s,
{
    Seq::new(s.len(), |i: int| if 0 <= i < s.len() { type_model(s[i]) } else { Ty::Unknown })
}

/// The model of a function type.
pub open spec fn function_model(f: Function) -> FnTy
    decreases f,
{
    FnTy {
        params: types_model(f.args@),
        names: strings_model(f.arg_names@),
        ret: Box::new(type_model(*f.ret)),
    }
}

/// The models of a list of function types, in order.
pub open spec fn functions_model(s: Seq<Function>) -> Seq<FnTy>
    decreases s,
{
    Seq::new(
        s.len(),
        |i: int|
            if 0 <= i < s.len() {
                function_model(s[i])
            } else {
                FnTy { params: Seq::empty(), names: Seq::empty(), ret: Box::new(Ty::Unknown) }
            },
    )
}

/// The model of a partial function.
pub open spec fn partial_model(p: PartialFunction) -> PartialFnTy
    decreases p,
{
    PartialFnTy {
        ast: function_def_model(p.ast),
        params: match p.args {
            Some(v) => Some(types_model(v@)),
            None => None,
        },
        names: opt_strings_model(p.arg_names),
        ret: match p.ret {
            Some(r) => Some(Box::new(type_model(*r))),
            None => None,
        },
    }
}

/// The models of a list of named types, in order.
pub open spec fn fields_model(s: Seq<(String, Type)>) -> Seq<(Seq<char>, Ty)>
    decreases s,
{
    Seq::new(
        s.len(),
        |i: int|
            if 0 <= i < s.len() {
                (s[i].0@, type_model(s[i].1))
            } else {
                (Seq::empty(), Ty::Unknown)
            },
    )
}

/// The model of a class.
pub open spec fn class_model(c: Class) -> ClassTy
    decreases c,
{
    ClassTy {
        name: c.name@,
        methods: functions_model(c.functions@),
        fields: fields_model(c.parameters@),
    }
}

/// The model of a binding.
pub open spec fn scoped_model(s: ScopedType) -> Binding
    decreases s,
{
    Binding { typ: type_model(s.typ), locked: s.is_locked }
}

/// The models of a list of entries, in order.
pub open spec fn entries_model(s: Seq<(String, ScopedType)>) -> Seq<(Seq<char>, Binding)>
    decreases s,
{
    Seq::new(
        s.len(),
        |i: int|
            if 0 <= i < s.len() {
                (s[i].0@, scoped_model(s[i].1))
            } else {
                (Seq::empty(), Binding { typ: Ty::Unknown, locked: false })
            },
    )
}

/// The mapping that a list of entries stands for: a later entry for a name
/// replaces an earlier one.
pub open spec fn assoc_map(s: Seq<(Seq<char>, Binding)>) -> Map<Seq<char>, Binding>
    decreases s.len(),
{
    if s.len() == 0 {
        Map::empty()
    } else {
        assoc_map(s.drop_last()).insert(s.last().0, s.last().1)
    }
}

/// The mapping that a list of entries stands for.
pub open spec fn bindings_model(s: Seq<(String, ScopedType)>) -> Map<Seq<char>, Binding> {
    assoc_map(entries_model(s))
}

impl View for TypeLiteral {
    type V = Lit;

    open spec fn view(&self) -> Lit {
        literal_model(*self)
    }
}

impl View for Function {
    type V = FnTy;

    open spec fn view(&self) -> FnTy {
        function_model(*self)
    }
}

impl View for PartialFunction {
    type V = PartialFnTy;

    open spec fn view(&self) -> PartialFnTy {
        partial_model(*self)
    }
}

impl View for Class {
    type V = ClassTy;

    open spec fn view(&self) -> ClassTy {
        class_model(*self)
    }
}

impl View for ScopedType {
    type V = Binding;

    open spec fn view(&self) -> Binding {
        scoped_model(*self)
    }
}

impl View for Type {
    type V = Ty;

    open spec fn view(&self) -> Ty {
        type_model(*self)
    }
}

} // verus!
