use crate::ast::bytes_clone;
use crate::types::base::{
    entries_model, fields_model, functions_model, opt_strings_model, strings_model, types_model,
    Class, Function, PartialFunction, ScopedType, Type, TypeLiteral,
};
use vstd::prelude::*;

verus! {

fn literal_clone(a: &TypeLiteral) -> (r: TypeLiteral)
    ensures
        r@ == a@,
{
    match a {
        TypeLiteral::StringLiteral(x) => TypeLiteral::StringLiteral(x.clone()),
        TypeLiteral::BytesLiteral(x) => TypeLiteral::BytesLiteral(bytes_clone(x)),
        TypeLiteral::IntLiteral(x) => TypeLiteral::IntLiteral(*x),
        TypeLiteral::FloatLiteral(x) => TypeLiteral::FloatLiteral(x.clone()),
        TypeLiteral::BooleanLiteral(x) => TypeLiteral::BooleanLiteral(*x),
        TypeLiteral::NoneLiteral => TypeLiteral::NoneLiteral,
        TypeLiteral::EllipsisLiteral => TypeLiteral::EllipsisLiteral,
    }
}

/// A copy of a list of strings.
pub fn strings_clone(a: &Vec<String>) -> (r: Vec<String>)
    ensures
        strings_model(r@) == strings_model(a@),
{
    let mut out: Vec<String> = Vec::new();
    let mut i: usize = 0;
    while i < a.len()
        invariant
            i <= a.len(),
            out@.len() == i,
            forall|j: int| 0 <= j < i ==> out@[j]@ == a@[j]@,
        decreases a.len() - i,
    {
        out.push(a[i].clone());
        i += 1;
    }
    assert(strings_model(out@) =~= strings_model(a@));
    out
}

fn opt_strings_clone(a: &Option<Vec<String>>) -> (r: Option<Vec<String>>)
    ensures
        opt_strings_model(r) == opt_strings_model(*a),
{
    match a {
        Some(x) => Some(strings_clone(x)),
        None => None,
    }
}

fn type_clone(a: &Type) -> (r: Type)
    ensures
        r@ == a@,
    decreases a,
{
    match a {
        Type::Any => Type::Any,
        Type::Unknown => Type::Unknown,
        Type::Never => Type::Never,
        Type::String => Type::String,
        Type::Int => Type::Int,
        Type::Float => Type::Float,
        Type::Bool => Type::Bool,
        Type::NoneType => Type::NoneType,
        Type::Ellipsis => Type::Ellipsis,
        Type::Tuple(x) => Type::Tuple(types_clone(x)),
        Type::Literal(x) => Type::Literal(literal_clone(x)),
        Type::Function(x) => Type::Function(function_clone(x)),
        Type::PartialFunction(x) => Type::PartialFunction(partial_clone(x)),
        Type::Class(x) => Type::Class(class_clone(x)),
        Type::Union(x) => Type::Union(types_clone(x)),
        Type::Module(n, b) => Type::Module(n.clone(), entries_clone(b)),
    }
}

/// A copy of a list of types.
pub fn types_clone(a: &Vec<Type>) -> (r: Vec<Type>)
    ensures
        types_model(r@) == types_model(a@),
    decreases a,
{
    let mut out: Vec<Type> = Vec::new();
    let mut i: usize = 0;
    while i < a.len()
        invariant
            i <= a.len(),
            out@.len() == i,
            forall|j: int| 0 <= j < i ==> out@[j]@ == a@[j]@,
        decreases a.len() - i,
    {
        out.push(type_clone(&a[i]));
        i += 1;
    }
    assert(types_model(out@) =~= types_model(a@));
    out
}

fn function_clone(a: &Function) -> (r: Function)
    ensures
        r@ == a@,
    decreases a,
{
    Function {
        args: types_clone(&a.args),
        arg_names: strings_clone(&a.arg_names),
        ret: Box::new(type_clone(&a.ret)),
    }
}

fn functions_clone(a: &Vec<Function>) -> (r: Vec<Function>)
    ensures
        functions_model(r@) == functions_model(a@),
    decreases a,
{
    let mut out: Vec<Function> = Vec::new();
    let mut i: usize = 0;
    while i < a.len()
        invariant
            i <= a.len(),
            out@.len() == i,
            forall|j: int| 0 <= j < i ==> out@[j]@ == a@[j]@,
        decreases a.len() - i,
    {
        out.push(function_clone(&a[i]));
        i += 1;
    }
    assert(functions_model(out@) =~= functions_model(a@));
    out
}

fn partial_clone(a: &PartialFunction) -> (r: PartialFunction)
    ensures
        r@ == a@,
    decreases a,
{
    PartialFunction {
        ast: a.ast.clone(),
        args: match &a.args {
            Some(x) => Some(types_clone(x)),
            None => None,
        },
        arg_names: opt_strings_clone(&a.arg_names),
        ret: match &a.ret {
            Some(x) => Some(Box::new(type_clone(x))),
            None => None,
        },
    }
}

fn fields_clone(a: &Vec<(String, Type)>) -> (r: Vec<(String, Type)>)
    ensures
        fields_model(r@) == fields_model(a@),
    decreases a,
{
    let mut out: Vec<(String, Type)> = Vec::new();
    let mut i: usize = 0;
    while i < a.len()
        invariant
            i <= a.len(),
            out@.len() == i,
            forall|j: int| 0 <= j < i ==> fields_model(out@)[j] == fields_model(a@)[j],
        decreases a.len() - i,
    {
        let t = type_clone(&a[i].1);
        out.push((a[i].0.clone(), t));
        i += 1;
    }
    assert(fields_model(out@) =~= fields_model(a@));
    out
}

fn class_clone(a: &Class) -> (r: Class)
    ensures
        r@ == a@,
    decreases a,
{
    Class {
        name: a.name.clone(),
        functions: functions_clone(&a.functions),
        parameters: fields_clone(&a.parameters),
    }
}

fn scoped_clone(a: &ScopedType) -> (r: ScopedType)
    ensures
        r@ == a@,
    decreases a,
{
    ScopedType { typ: type_clone(&a.typ), is_locked: a.is_locked }
}

/// A copy of a list of bindings, entry for entry.
pub fn entries_clone(a: &Vec<(String, ScopedType)>) -> (r: Vec<(String, ScopedType)>)
    ensures
        entries_model(r@) == entries_model(a@),
    decreases a,
{
    let mut out: Vec<(String, ScopedType)> = Vec::new();
    let mut i: usize = 0;
    while i < a.len()
        invariant
            i <= a.len(),
            out@.len() == i,
            forall|j: int| 0 <= j < i ==> entries_model(out@)[j] == entries_model(a@)[j],
        decreases a.len() - i,
    {
        let t = scoped_clone(&a[i].1);
        out.push((a[i].0.clone(), t));
        i += 1;
    }
    assert(entries_model(out@) =~= entries_model(a@));
    out
}

impl Clone for TypeLiteral {
    fn clone(&self) -> (r: Self)
        ensures
            r@ == self@,
    {
        literal_clone(self)
    }
}

impl Clone for Function {
    fn clone(&self) -> (r: Self)
        ensures
            r@ == self@,
    {
        function_clone(self)
    }
}

impl Clone for PartialFunction {
    fn clone(&self) -> (r: Self)
        ensures
            r@ == self@,
    {
        partial_clone(self)
    }
}

impl Clone for Class {
    fn clone(&self) -> (r: Self)
        ensures
            r@ == self@,
    {
        class_clone(self)
    }
}

impl Clone for ScopedType {
    fn clone(&self) -> (r: Self)
        ensures
            r@ == self@,
    {
        scoped_clone(self)
    }
}

impl Clone for Type {
    fn clone(&self) -> (r: Self)
        ensures
            r@ == self@,
    {
        type_clone(self)
    }
}

} // verus!
