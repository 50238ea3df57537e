use crate::diagnostics::base::DiagModel;
use crate::span::TextRange;
use crate::types::base::Type;
use vstd::prelude::*;
use vstd::std_specs::cmp::PartialEqSpecImpl;
use vstd::string::StringExecFns;

verus! {

/// The type of an expression, asked for by `reveal_type`.
#[derive(Debug)]
pub struct RevealTypeDiag {
    pub typ: Type,
    pub range: TextRange,
}

/// A name that no frame in reach binds.
#[derive(Debug)]
pub struct NotInScopeDiag {
    pub name: String,
    pub range: TextRange,
}

/// A value whose type does not fit the type expected of it.
#[derive(Debug)]
pub struct ExpectedButGotDiag {
    pub expected: Type,
    pub got: Type,
    pub range: TextRange,
}

/// An annotation for a name that an earlier annotation has fixed.
#[derive(Debug)]
pub struct CantReassignLockedDiag {
    pub expected: Type,
    pub got: Type,
    pub name: String,
    pub range: TextRange,
}

impl View for RevealTypeDiag {
    type V = DiagModel;

    open spec fn view(&self) -> DiagModel {
        DiagModel::RevealType { typ: self.typ@, range: self.range }
    }
}

impl View for NotInScopeDiag {
    type V = DiagModel;

    open spec fn view(&self) -> DiagModel {
        DiagModel::NotInScope { name: self.name@, range: self.range }
    }
}

impl View for ExpectedButGotDiag {
    type V = DiagModel;

    open spec fn view(&self) -> DiagModel {
        DiagModel::ExpectedButGot { expected: self.expected@, got: self.got@, range: self.range }
    }
}

impl View for CantReassignLockedDiag {
    type V = DiagModel;

    open spec fn view(&self) -> DiagModel {
        DiagModel::CantReassignLocked {
            expected: self.expected@,
            got: self.got@,
            name: self.name@,
            range: self.range,
        }
    }
}

impl RevealTypeDiag {
    /// The finding with what it carries.
    pub fn new(typ: Type, range: TextRange) -> (r: Self)
        ensures
            r@ == (DiagModel::RevealType { typ: typ@, range }),
    {
        RevealTypeDiag { typ, range }
    }

    /// The message shown to the user: `Type is <type>`.
    pub fn message(&self) -> (r: String)
        ensures
            r@ == self@.message(),
    {
        let mut out = String::from_str("Type is ");
        let typ = self.typ.to_string();
        out.append(typ.as_str());
        out
    }

    /// The finding in short: `RevealTypeDiag(<type>, )`.
    pub fn to_string(&self) -> (r: String)
        ensures
            r@ == self@.display(),
    {
        let mut out = String::from_str("RevealTypeDiag(");
        let typ = self.typ.to_string();
        out.append(typ.as_str());
        out.append(", )");
        assert(out@ =~= self@.display());
        out
    }
}

impl NotInScopeDiag {
    /// The finding with what it carries.
    pub fn new(name: String, range: TextRange) -> (r: Self)
        ensures
            r@ == (DiagModel::NotInScope { name: name@, range }),
    {
        NotInScopeDiag { name, range }
    }

    /// The message shown to the user: `Name "<name>" not found in scope.`
    pub fn message(&self) -> (r: String)
        ensures
            r@ == self@.message(),
    {
        let mut out = String::from_str("Name \"");
        out.append(self.name.as_str());
        out.append("\" not found in scope.");
        assert(out@ =~= self@.message());
        out
    }

    /// The finding in short: `NotInScopeDiag(<name>, )`.
    pub fn to_string(&self) -> (r: String)
        ensures
            r@ == self@.display(),
    {
        let mut out = String::from_str("NotInScopeDiag(");
        out.append(self.name.as_str());
        out.append(", )");
        assert(out@ =~= self@.display());
        out
    }
}

impl ExpectedButGotDiag {
    /// The finding with what it carries.
    pub fn new(expected: Type, got: Type, range: TextRange) -> (r: Self)
        ensures
            r@ == (DiagModel::ExpectedButGot { expected: expected@, got: got@, range }),
    {
        ExpectedButGotDiag { expected, got, range }
    }

    /// The message shown to the user: `Expected <type> but found <type>.`
    pub fn message(&self) -> (r: String)
        ensures
            r@ == self@.message(),
    {
        let mut out = String::from_str("Expected ");
        let expected = self.expected.to_string();
        out.append(expected.as_str());
        out.append(" but found ");
        let got = self.got.to_string();
        out.append(got.as_str());
        out.append(".");
        assert(out@ =~= self@.message());
        out
    }

    /// The finding in short: `ExpectedButGotDiag(<expected>, <got>, )`.
    pub fn to_string(&self) -> (r: String)
        ensures
            r@ == self@.display(),
    {
        let mut out = String::from_str("ExpectedButGotDiag(");
        let expected = self.expected.to_string();
        out.append(expected.as_str());
        out.append(", ");
        let got = self.got.to_string();
        out.append(got.as_str());
        out.append(", )");
        assert(out@ =~= self@.display());
        out
    }
}

impl CantReassignLockedDiag {
    /// The finding with what it carries.
    pub fn new(expected: Type, got: Type, name: String, range: TextRange) -> (r: Self)
        ensures
            r@ == (DiagModel::CantReassignLocked {
                expected: expected@,
                got: got@,
                name: name@,
                range,
            }),
    {
        CantReassignLockedDiag { expected, got, name, range }
    }

    /// The message shown to the user: that the name already has the type
    /// `expected` from an annotation and cannot be given the type `got`.
    pub fn message(&self) -> (r: String)
        ensures
            r@ == self@.message(),
    {
        let mut out = String::from_str("\"");
        out.append(self.name.as_str());
        out.append("\" is already defined as ");
        let expected = self.expected.to_string();
        out.append(expected.as_str());
        out.append(", can't redefine as ");
        let got = self.got.to_string();
        out.append(got.as_str());
        out.append(
            " as it was previously defined with a type hint, so it can't be redefined as a different type.",
        );
        assert(out@ =~= self@.message());
        out
    }

    /// The finding in short: `CantReassignLockedDiag(<expected>, <got>, <name>,
    /// )`.
    pub fn to_string(&self) -> (r: String)
        ensures
            r@ == self@.display(),
    {
        let mut out = String::from_str("CantReassignLockedDiag(");
        let expected = self.expected.to_string();
        out.append(expected.as_str());
        out.append(", ");
        let got = self.got.to_string();
        out.append(got.as_str());
        out.append(", ");
        out.append(self.name.as_str());
        out.append(", )");
        assert(out@ =~= self@.display());
        out
    }
}

impl Clone for RevealTypeDiag {
    fn clone(&self) -> (r: Self)
        ensures
            r@ == self@,
    {
        RevealTypeDiag { typ: self.typ.clone(), range: self.range }
    }
}

impl Clone for NotInScopeDiag {
    fn clone(&self) -> (r: Self)
        ensures
            r@ == self@,
    {
        NotInScopeDiag { name: self.name.clone(), range: self.range }
    }
}

impl Clone for ExpectedButGotDiag {
    fn clone(&self) -> (r: Self)
        ensures
            r@ == self@,
    {
        ExpectedButGotDiag {
            expected: self.expected.clone(),
            got: self.got.clone(),
            range: self.range,
        }
    }
}

impl Clone for CantReassignLockedDiag {
    fn clone(&self) -> (r: Self)
        ensures
            r@ == self@,
    {
        CantReassignLockedDiag {
            expected: self.expected.clone(),
            got: self.got.clone(),
            name: self.name.clone(),
            range: self.range,
        }
    }
}

impl PartialEq for RevealTypeDiag {
    fn eq(&self, other: &Self) -> (r: bool) {
        self.typ == other.typ && self.range == other.range
    }
}

impl PartialEqSpecImpl for RevealTypeDiag {
    open spec fn obeys_eq_spec() -> bool {
        true
    }

    open spec fn eq_spec(&self, other: &Self) -> bool {
        self@ == other@
    }
}

impl PartialEq for NotInScopeDiag {
    fn eq(&self, other: &Self) -> (r: bool) {
        self.name == other.name && self.range == other.range
    }
}

impl PartialEqSpecImpl for NotInScopeDiag {
    open spec fn obeys_eq_spec() -> bool {
        true
    }

    open spec fn eq_spec(&self, other: &Self) -> bool {
        self@ == other@
    }
}

impl PartialEq for ExpectedButGotDiag {
    fn eq(&self, other: &Self) -> (r: bool) {
        self.expected == other.expected && self.got == other.got && self.range == other.range
    }
}

impl PartialEqSpecImpl for ExpectedButGotDiag {
    open spec fn obeys_eq_spec() -> bool {
        true
    }

    open spec fn eq_spec(&self, other: &Self) -> bool {
        self@ == other@
    }
}

impl PartialEq for CantReassignLockedDiag {
    fn eq(&self, other: &Self) -> (r: bool) {
        self.expected == other.expected && self.got == other.got && self.name == other.name
            && self.range == other.range
    }
}

impl PartialEqSpecImpl for CantReassignLockedDiag {
    open spec fn obeys_eq_spec() -> bool {
        true
    }

    open spec fn eq_spec(&self, other: &Self) -> bool {
        self@ == other@
    }
}

} // verus!
