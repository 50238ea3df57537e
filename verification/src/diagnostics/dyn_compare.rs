use crate::diagnostics::base::{DiagModel, Diagnostic};
use crate::diagnostics::custom::{
    CantReassignLockedDiag, ExpectedButGotDiag, NotInScopeDiag, RevealTypeDiag,
};
use crate::diagnostics::reporter::Diag;
use vstd::prelude::*;

verus! {

/// A finding of some kind, seen as a finding of any kind.
pub trait AsDynCompare {
    /// What the finding says, whatever its kind.
    spec fn as_model(&self) -> DiagModel;

    /// The finding as one of any kind.
    fn as_dyn_compare(&self) -> (r: Diag)
        ensures
            r@ == self.as_model(),
    ;
}

/// A finding of some kind that can be compared with a finding of any kind:
/// the two are equal when they are of the same kind and say the same.
pub trait DynCompare: AsDynCompare {
    fn dyn_eq(&self, other: &Diag) -> (r: bool)
        ensures
            r == (self.as_model() == other@),
    ;
}

impl AsDynCompare for Diagnostic {
    open spec fn as_model(&self) -> DiagModel {
        self@
    }

    fn as_dyn_compare(&self) -> (r: Diag) {
        Diag::Diagnostic(self.clone())
    }
}

impl DynCompare for Diagnostic {
    fn dyn_eq(&self, other: &Diag) -> (r: bool) {
        match other {
            Diag::Diagnostic(o) => *self == *o,
            _ => false,
        }
    }
}

impl AsDynCompare for RevealTypeDiag {
    open spec fn as_model(&self) -> DiagModel {
        self@
    }

    fn as_dyn_compare(&self) -> (r: Diag) {
        Diag::RevealType(self.clone())
    }
}

impl DynCompare for RevealTypeDiag {
    fn dyn_eq(&self, other: &Diag) -> (r: bool) {
        match other {
            Diag::RevealType(o) => *self == *o,
            _ => false,
        }
    }
}

impl AsDynCompare for NotInScopeDiag {
    open spec fn as_model(&self) -> DiagModel {
        self@
    }

    fn as_dyn_compare(&self) -> (r: Diag) {
        Diag::NotInScope(self.clone())
    }
}

impl DynCompare for NotInScopeDiag {
    fn dyn_eq(&self, other: &Diag) -> (r: bool) {
        match other {
            Diag::NotInScope(o) => *self == *o,
            _ => false,
        }
    }
}

impl AsDynCompare for ExpectedButGotDiag {
    open spec fn as_model(&self) -> DiagModel {
        self@
    }

    fn as_dyn_compare(&self) -> (r: Diag) {
        Diag::ExpectedButGot(self.clone())
    }
}

impl DynCompare for ExpectedButGotDiag {
    fn dyn_eq(&self, other: &Diag) -> (r: bool) {
        match other {
            Diag::ExpectedButGot(o) => *self == *o,
            _ => false,
        }
    }
}

impl AsDynCompare for CantReassignLockedDiag {
    open spec fn as_model(&self) -> DiagModel {
        self@
    }

    fn as_dyn_compare(&self) -> (r: Diag) {
        Diag::CantReassignLocked(self.clone())
    }
}

impl DynCompare for CantReassignLockedDiag {
    fn dyn_eq(&self, other: &Diag) -> (r: bool) {
        match other {
            Diag::CantReassignLocked(o) => *self == *o,
            _ => false,
        }
    }
}

impl AsDynCompare for Diag {
    open spec fn as_model(&self) -> DiagModel {
        self@
    }

    fn as_dyn_compare(&self) -> (r: Diag) {
        self.clone()
    }
}

impl DynCompare for Diag {
    fn dyn_eq(&self, other: &Diag) -> (r: bool) {
        *self == *other
    }
}

} // verus!
