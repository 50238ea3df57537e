use crate::ast::{bytes_clone, Expr, ExprModel, Number, NumberModel};
use crate::types::base::{
    fields_model, functions_model, strings_model, types_model, Binding, Class, ClassTy, FnTy,
    Function, Lit, PartialFunction, ScopedType, Ty, Type, TypeLiteral,
};
use vstd::prelude::*;

verus! {

/// The literal value that a literal expression stands for. Expressions of
/// other forms stand for none, nor do numbers without a usable value.
pub open spec fn literal_of(e: ExprModel) -> Option<Lit> {
    match e {
        ExprModel::StringLiteral { value, .. } => Some(Lit::Str(value)),
        ExprModel::BytesLiteral { value, .. } => Some(Lit::Bytes(value)),
        ExprModel::NumberLiteral { value: NumberModel::Int(i), .. } => Some(Lit::Int(i)),
        ExprModel::NumberLiteral { value: NumberModel::Float(s), .. } => Some(Lit::Float(s)),
        ExprModel::BooleanLiteral { value, .. } => Some(Lit::Bool(value)),
        ExprModel::NoneLiteral { .. } => Some(Lit::NoneLit),
        ExprModel::EllipsisLiteral { .. } => Some(Lit::EllipsisLit),
        _ => None,
    }
}

impl TypeLiteral {
    /// The literal value that a literal expression stands for.
    pub fn from_expr(value: &Expr) -> (r: TypeLiteral)
        requires
            literal_of(value@) is Some,
        ensures
            Some(r@) == literal_of(value@),
    {
        match value {
            Expr::StringLiteral { value, .. } => TypeLiteral::StringLiteral(value.clone()),
            Expr::BytesLiteral { value, .. } => TypeLiteral::BytesLiteral(bytes_clone(value)),
            Expr::NumberLiteral { value: Number::Int(i), .. } => TypeLiteral::IntLiteral(*i),
            Expr::NumberLiteral { value: Number::Float(s), .. } => TypeLiteral::FloatLiteral(
                s.clone(),
            ),
            Expr::BooleanLiteral { value, .. } => TypeLiteral::BooleanLiteral(*value),
            Expr::NoneLiteral { .. } => TypeLiteral::NoneLiteral,
            _ => TypeLiteral::EllipsisLiteral,
        }
    }
}

impl Function {
    /// The function type with the given parameters, their names, and the given
    /// result.
    pub fn new(args: Vec<Type>, arg_names: Vec<String>, ret: Type) -> (r: Function)
        ensures
            r@ == (FnTy {
                params: types_model(args@),
                names: strings_model(arg_names@),
                ret: Box::new(ret@),
            }),
    {
        Function { args, arg_names, ret: Box::new(ret) }
    }

    /// The finished signature of a partial function, or the partial function
    /// back where any part of its signature is still missing.
    pub fn try_from(value: PartialFunction) -> (r: Result<Function, PartialFunction>)
        ensures
            match r {
                Ok(f) => {
                    &&& value@.params is Some
                    &&& value@.names is Some
                    &&& value@.ret is Some
                    &&& f@ == (FnTy {
                        params: value@.params->0,
                        names: value@.names->0,
                        ret: value@.ret->0,
                    })
                },
                Err(p) => {
                    &&& value@.params is None || value@.names is None || value@.ret is None
                    &&& p@ == value@
                },
            },
    {
        if value.args.is_some() && value.arg_names.is_some() && value.ret.is_some() {
            let PartialFunction { ast: _, args, arg_names, ret } = value;
            Ok(Function { args: args.unwrap(), arg_names: arg_names.unwrap(), ret: ret.unwrap() })
        } else {
            Err(value)
        }
    }
}

impl Class {
    /// The class of the given name with the given methods and fields.
    pub fn new(name: String, functions: Vec<Function>, parameters: Vec<(String, Type)>) -> (r:
        Class)
        ensures
            r@ == (ClassTy {
                name: name@,
                methods: functions_model(functions@),
                fields: fields_model(parameters@),
            }),
    {
        Class { name, functions, parameters }
    }
}

impl ScopedType {
    /// A binding that a later annotation may still replace.
    pub fn new(typ: Type) -> (r: ScopedType)
        ensures
            r@ == (Binding { typ: typ@, locked: false }),
    {
        ScopedType { typ, is_locked: false }
    }

    /// A binding fixed by an annotation.
    pub fn locked(typ: Type) -> (r: ScopedType)
        ensures
            r@ == (Binding { typ: typ@, locked: true }),
    {
        ScopedType { typ, is_locked: true }
    }
}

impl Default for Type {
    fn default() -> (r: Type)
        ensures
            r@ == Ty::Unknown,
    {
        Type::Unknown
    }
}

} // verus!
