pub mod base;
pub mod clean;
pub mod construct;
pub mod compare;
pub mod copy;
pub mod helpers;
pub mod laws;
pub mod render;

pub use base::{
    Binding, Class, ClassTy, FnTy, Function, Lit, PartialFnTy, PartialFunction, ScopedType, Ty,
    Type, TypeClass, TypeClassProperty, TypeLiteral,
};
pub use helpers::{is_subtype, try_is_subtype, try_union, union};
