use crate::diagnostics::base::{DiagModel, Diagnostic, DiagnosticType};
use crate::diagnostics::custom::{
    CantReassignLockedDiag, ExpectedButGotDiag, NotInScopeDiag, RevealTypeDiag,
};
use crate::span::TextRange;
use vstd::prelude::*;
use vstd::std_specs::cmp::PartialEqSpecImpl;
use vstd::std_specs::convert::FromSpecImpl;

verus! {

/// Any finding that the checker can report.
#[derive(Debug)]
pub enum Diag {
    Diagnostic(Diagnostic),
    RevealType(RevealTypeDiag),
    NotInScope(NotInScopeDiag),
    ExpectedButGot(ExpectedButGotDiag),
    CantReassignLocked(CantReassignLockedDiag),
}

impl View for Diag {
    type V = DiagModel;

    open spec fn view(&self) -> DiagModel {
        match self {
            Diag::Diagnostic(d) => d@,
            Diag::RevealType(d) => d@,
            Diag::NotInScope(d) => d@,
            Diag::ExpectedButGot(d) => d@,
            Diag::CantReassignLocked(d) => d@,
        }
    }
}

impl Diag {
    /// How serious the finding is. Only a revealed type is not an error.
    pub fn kind(&self) -> (r: DiagnosticType)
        ensures
            r == self@.kind(),
    {
        match self {
            Diag::Diagnostic(d) => d.typ,
            Diag::RevealType(_) => DiagnosticType::Info,
            _ => DiagnosticType::Error,
        }
    }

    /// Where in the source the finding points.
    pub fn range(&self) -> (r: TextRange)
        ensures
            r == self@.range(),
    {
        match self {
            Diag::Diagnostic(d) => d.range,
            Diag::RevealType(d) => d.range,
            Diag::NotInScope(d) => d.range,
            Diag::ExpectedButGot(d) => d.range,
            Diag::CantReassignLocked(d) => d.range,
        }
    }

    /// The message shown to the user.
    pub fn message(&self) -> (r: String)
        ensures
            r@ == self@.message(),
    {
        match self {
            Diag::Diagnostic(d) => d.message(),
            Diag::RevealType(d) => d.message(),
            Diag::NotInScope(d) => d.message(),
            Diag::ExpectedButGot(d) => d.message(),
            Diag::CantReassignLocked(d) => d.message(),
        }
    }

    /// The finding in short: its name and, in brackets, what it carries.
    pub fn to_string(&self) -> (r: String)
        ensures
            r@ == self@.display(),
    {
        match self {
            Diag::Diagnostic(d) => d.to_string(),
            Diag::RevealType(d) => d.to_string(),
            Diag::NotInScope(d) => d.to_string(),
            Diag::ExpectedButGot(d) => d.to_string(),
            Diag::CantReassignLocked(d) => d.to_string(),
        }
    }
}

impl Clone for Diag {
    fn clone(&self) -> (r: Self)
        ensures
            r@ == self@,
    {
        match self {
            Diag::Diagnostic(d) => Diag::Diagnostic(d.clone()),
            Diag::RevealType(d) => Diag::RevealType(d.clone()),
            Diag::NotInScope(d) => Diag::NotInScope(d.clone()),
            Diag::ExpectedButGot(d) => Diag::ExpectedButGot(d.clone()),
            Diag::CantReassignLocked(d) => Diag::CantReassignLocked(d.clone()),
        }
    }
}

impl PartialEq for Diag {
    fn eq(&self, other: &Self) -> (r: bool) {
        match (self, other) {
            (Diag::Diagnostic(a), Diag::Diagnostic(b)) => *a == *b,
            (Diag::RevealType(a), Diag::RevealType(b)) => *a == *b,
            (Diag::NotInScope(a), Diag::NotInScope(b)) => *a == *b,
            (Diag::ExpectedButGot(a), Diag::ExpectedButGot(b)) => *a == *b,
            (Diag::CantReassignLocked(a), Diag::CantReassignLocked(b)) => *a == *b,
            _ => false,
        }
    }
}

impl PartialEqSpecImpl for Diag {
    open spec fn obeys_eq_spec() -> bool {
        true
    }

    open spec fn eq_spec(&self, other: &Self) -> bool {
        self@ == other@
    }
}

impl From<Diagnostic> for Diag {
    fn from(value: Diagnostic) -> (r: Diag) {
        Diag::Diagnostic(value)
    }
}

impl FromSpecImpl<Diagnostic> for Diag {
    open spec fn obeys_from_spec() -> bool {
        true
    }

    open spec fn from_spec(value: Diagnostic) -> Diag {
        Diag::Diagnostic(value)
    }
}

impl From<RevealTypeDiag> for Diag {
    fn from(value: RevealTypeDiag) -> (r: Diag) {
        Diag::RevealType(value)
    }
}

impl FromSpecImpl<RevealTypeDiag> for Diag {
    open spec fn obeys_from_spec() -> bool {
        true
    }

    open spec fn from_spec(value: RevealTypeDiag) -> Diag {
        Diag::RevealType(value)
    }
}

impl From<NotInScopeDiag> for Diag {
    fn from(value: NotInScopeDiag) -> (r: Diag) {
        Diag::NotInScope(value)
    }
}

impl FromSpecImpl<NotInScopeDiag> for Diag {
    open spec fn obeys_from_spec() -> bool {
        true
    }

    open spec fn from_spec(value: NotInScopeDiag) -> Diag {
        Diag::NotInScope(value)
    }
}

impl From<ExpectedButGotDiag> for Diag {
    fn from(value: ExpectedButGotDiag) -> (r: Diag) {
        Diag::ExpectedButGot(value)
    }
}

impl FromSpecImpl<ExpectedButGotDiag> for Diag {
    open spec fn obeys_from_spec() -> bool {
        true
    }

    open spec fn from_spec(value: ExpectedButGotDiag) -> Diag {
        Diag::ExpectedButGot(value)
    }
}

impl From<CantReassignLockedDiag> for Diag {
    fn from(value: CantReassignLockedDiag) -> (r: Diag) {
        Diag::CantReassignLocked(value)
    }
}

impl FromSpecImpl<CantReassignLockedDiag> for Diag {
    open spec fn obeys_from_spec() -> bool {
        true
    }

    open spec fn from_spec(value: CantReassignLockedDiag) -> Diag {
        Diag::CantReassignLocked(value)
    }
}

/// The models of a list of findings, in order.
pub open spec fn diags_model(s: Seq<Diag>) -> Seq<DiagModel> {
    Seq::new(s.len(), |i: int| s[i]@)
}

/// The findings of one checking session, in the order in which they were made.
#[derive(Debug)]
pub struct Reporter(pub Vec<Diag>);

impl View for Reporter {
    type V = Seq<DiagModel>;

    open spec fn view(&self) -> Seq<DiagModel> {
        diags_model(self.0@)
    }
}

impl Default for Reporter {
    fn default() -> (r: Reporter)
        ensures
            r@ == Seq::<DiagModel>::empty(),
    {
        let r = Reporter(Vec::new());
        assert(r@ =~= Seq::<DiagModel>::empty());
        r
    }
}

impl Reporter {
    /// Report a remark with the given text.
    pub fn info(&mut self, body: String, range: TextRange)
        ensures
            final(self)@ == old(self)@.push(
                DiagModel::Plain { body: body@, kind: DiagnosticType::Info, range },
            ),
    {
        self.add(Diag::Diagnostic(Diagnostic::new(body, DiagnosticType::Info, range)))
    }

    /// Report a warning with the given text.
    pub fn warning(&mut self, body: String, range: TextRange)
        ensures
            final(self)@ == old(self)@.push(
                DiagModel::Plain { body: body@, kind: DiagnosticType::Warning, range },
            ),
    {
        self.add(Diag::Diagnostic(Diagnostic::new(body, DiagnosticType::Warning, range)))
    }

    /// Report an error with the given text.
    pub fn error(&mut self, body: String, range: TextRange)
        ensures
            final(self)@ == old(self)@.push(DiagModel::error(body@, range)),
    {
        self.add(Diag::Diagnostic(Diagnostic::new(body, DiagnosticType::Error, range)))
    }

    /// Report a finding: it goes behind all that were reported before.
    pub fn add(&mut self, err: Diag)
        ensures
            final(self)@ == old(self)@.push(err@),
    {
        self.0.push(err);
        assert(self@ =~= old(self)@.push(err@));
    }

    /// Report several findings, in their order.
    pub fn extend(&mut self, new_errors: Vec<Diag>)
        ensures
            final(self)@ == old(self)@ + diags_model(new_errors@),
    {
        let ghost added = diags_model(new_errors@);
        let mut new_errors = new_errors;
        self.0.append(&mut new_errors);
        assert(self@ =~= old(self)@ + added);
    }

    /// Number of findings reported so far.
    pub fn len(&self) -> (n: usize)
        ensures
            n == self@.len(),
    {
        self.0.len()
    }

    /// Whether nothing has been reported so far.
    pub fn is_empty(&self) -> (r: bool)
        ensures
            r == (self@.len() == 0),
    {
        self.len() == 0
    }

    /// The findings reported so far, in order.
    pub fn errors(&self) -> (r: &Vec<Diag>)
        ensures
            diags_model(r@) == self@,
    {
        &self.0
    }
}

} // verus!
