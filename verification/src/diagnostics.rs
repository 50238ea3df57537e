pub mod base;
pub mod custom;
pub mod dyn_compare;
pub mod reporter;

pub use base::{DiagModel, Diagnostic, DiagnosticType};
pub use custom::{CantReassignLockedDiag, ExpectedButGotDiag, NotInScopeDiag, RevealTypeDiag};
pub use dyn_compare::{AsDynCompare, DynCompare};
pub use reporter::{Diag, Reporter};
