use crate::span::TextRange;
use crate::types::base::Ty;
use crate::types::render::render;
use vstd::prelude::*;
use vstd::std_specs::cmp::PartialEqSpecImpl;
use vstd::string::StringExecFns;

verus! {

/// How serious a finding is.
#[derive(Clone, Copy, Debug, PartialEq, Eq, Structural)]
pub enum DiagnosticType {
    Info,
    Warning,
    Error,
}

impl DiagnosticType {
    /// The kind's name as text.
    pub open spec fn text(self) -> Seq<char> {
        match self {
            DiagnosticType::Info => "Info"@,
            DiagnosticType::Warning => "Warning"@,
            DiagnosticType::Error => "Error"@,
        }
    }

    /// The kind's name: `Info`, `Warning` or `Error`.
    pub fn to_string(&self) -> (r: String)
        ensures
            r@ == self.text(),
    {
        match self {
            DiagnosticType::Info => String::from_str("Info"),
            DiagnosticType::Warning => String::from_str("Warning"),
            DiagnosticType::Error => String::from_str("Error"),
        }
    }
}

/// Model of a finding: what was found, and where.
pub enum DiagModel {
    /// A finding that carries its message as text.
    Plain { body: Seq<char>, kind: DiagnosticType, range: TextRange },
    /// The type of an expression, asked for by `reveal_type`.
    RevealType { typ: Ty, range: TextRange },
    /// A name that no frame in reach binds.
    NotInScope { name: Seq<char>, range: TextRange },
    /// A value whose type does not fit the type expected of it.
    ExpectedButGot { expected: Ty, got: Ty, range: TextRange },
    /// An annotation for a name that an earlier annotation has fixed.
    CantReassignLocked { expected: Ty, got: Ty, name: Seq<char>, range: TextRange },
}

impl DiagModel {
    /// A plain finding of kind `Error`.
    pub open spec fn error(body: Seq<char>, range: TextRange) -> DiagModel {
        DiagModel::Plain { body, kind: DiagnosticType::Error, range }
    }

    /// How serious the finding is. Only a revealed type is not an error.
    pub open spec fn kind(self) -> DiagnosticType {
        match self {
            DiagModel::Plain { kind, .. } => kind,
            DiagModel::RevealType { .. } => DiagnosticType::Info,
            _ => DiagnosticType::Error,
        }
    }

    /// Where in the source the finding points.
    pub open spec fn range(self) -> TextRange {
        match self {
            DiagModel::Plain { range, .. } => range,
            DiagModel::RevealType { range, .. } => range,
            DiagModel::NotInScope { range, .. } => range,
            DiagModel::ExpectedButGot { range, .. } => range,
            DiagModel::CantReassignLocked { range, .. } => range,
        }
    }

    /// The message shown to the user.
    pub open spec fn message(self) -> Seq<char> {
        match self {
            DiagModel::Plain { body, .. } => body,
            DiagModel::RevealType { typ, .. } => "Type is "@ + render(typ),
            DiagModel::NotInScope { name, .. } => "Name \""@ + name + "\" not found in scope."@,
            DiagModel::ExpectedButGot { expected, got, .. } => "Expected "@ + render(expected)
                + " but found "@ + render(got) + "."@,
            DiagModel::CantReassignLocked { expected, got, name, .. } => "\""@ + name
                + "\" is already defined as "@ + render(expected) + ", can't redefine as "@
                + render(got)
                + " as it was previously defined with a type hint, so it can't be redefined as a different type."@,
        }
    }

    /// The finding in short: its name and, in brackets, what it carries.
    pub open spec fn display(self) -> Seq<char> {
        match self {
            DiagModel::Plain { kind, .. } => "Diagnostic("@ + kind.text() + ", )"@,
            DiagModel::RevealType { typ, .. } => "RevealTypeDiag("@ + render(typ) + ", )"@,
            DiagModel::NotInScope { name, .. } => "NotInScopeDiag("@ + name + ", )"@,
            DiagModel::ExpectedButGot { expected, got, .. } => "ExpectedButGotDiag("@ + render(
                expected,
            ) + ", "@ + render(got) + ", )"@,
            DiagModel::CantReassignLocked { expected, got, name, .. } => "CantReassignLockedDiag("@
                + render(expected) + ", "@ + render(got) + ", "@ + name + ", )"@,
        }
    }
}

/// A finding that carries its message as text.
#[derive(Debug)]
pub struct Diagnostic {
    pub body: String,
    pub typ: DiagnosticType,
    pub range: TextRange,
}

impl View for Diagnostic {
    type V = DiagModel;

    open spec fn view(&self) -> DiagModel {
        DiagModel::Plain { body: self.body@, kind: self.typ, range: self.range }
    }
}

impl Diagnostic {
    /// A finding of the given kind with the given text.
    pub fn new(body: String, typ: DiagnosticType, range: TextRange) -> (r: Diagnostic)
        ensures
            r@ == (DiagModel::Plain { body: body@, kind: typ, range }),
    {
        Diagnostic { body, typ, range }
    }

    /// An error with the given text.
    pub fn error(body: String, range: TextRange) -> (r: Diagnostic)
        ensures
            r@ == DiagModel::error(body@, range),
    {
        Diagnostic::new(body, DiagnosticType::Error, range)
    }

    /// A warning with the given text.
    pub fn warn(body: String, range: TextRange) -> (r: Diagnostic)
        ensures
            r@ == (DiagModel::Plain { body: body@, kind: DiagnosticType::Warning, range }),
    {
        Diagnostic::new(body, DiagnosticType::Warning, range)
    }

    /// A remark with the given text.
    pub fn info(body: String, range: TextRange) -> (r: Diagnostic)
        ensures
            r@ == (DiagModel::Plain { body: body@, kind: DiagnosticType::Info, range }),
    {
        Diagnostic::new(body, DiagnosticType::Info, range)
    }

    /// The message shown to the user.
    pub fn message(&self) -> (r: String)
        ensures
            r@ == self@.message(),
    {
        self.body.clone()
    }

    /// The finding in short: `Diagnostic(<kind>, )`.
    pub fn to_string(&self) -> (r: String)
        ensures
            r@ == self@.display(),
    {
        let mut out = String::from_str("Diagnostic(");
        let kind = self.typ.to_string();
        out.append(kind.as_str());
        out.append(", )");
        assert(out@ =~= self@.display());
        out
    }
}

impl Clone for Diagnostic {
    fn clone(&self) -> (r: Self)
        ensures
            r@ == self@,
    {
        Diagnostic { body: self.body.clone(), typ: self.typ, range: self.range }
    }
}

impl PartialEq for Diagnostic {
    fn eq(&self, other: &Self) -> (r: bool) {
        self.body == other.body && self.typ == other.typ && self.range == other.range
    }
}

impl PartialEqSpecImpl for Diagnostic {
    open spec fn obeys_eq_spec() -> bool {
        true
    }

    open spec fn eq_spec(&self, other: &Self) -> bool {
        self@ == other@
    }
}

} // verus!
