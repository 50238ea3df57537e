use crate::ast::{exprs_model, opt_expr_ref_model, Expr, ExprModel, Number, NumberModel};
use crate::diagnostics::base::DiagModel;
use crate::diagnostics::custom::NotInScopeDiag;
use crate::diagnostics::reporter::Diag;
use crate::diagnostics::Diagnostic;
use crate::scope::{Scope, ScopeModel};
use crate::span::TextRange;
use crate::state::{lemma_reported_more, lemma_reported_nothing, Info};
use crate::types::base::{types_model, Lit, Ty, Type, TypeLiteral};
use crate::types::helpers::{union, union_defined, union_of};
use crate::types::render::render;
use vstd::pervasive::unreached;
use vstd::prelude::*;
use vstd::string::StringExecFns;

verus! {

/// The constructors that make a type only once they are given arguments.
#[derive(Clone, Copy, Debug, PartialEq, Eq, Hash, Structural)]
pub enum PartialAnnotationType {
    Union,
    Literal,
    Tuple,
}

impl PartialAnnotationType {
    /// The constructor's name as text.
    pub open spec fn text(self) -> Seq<char> {
        match self {
            PartialAnnotationType::Union => "Union"@,
            PartialAnnotationType::Literal => "Literal"@,
            PartialAnnotationType::Tuple => "tuple"@,
        }
    }

    /// The constructor's name: `Union`, `Literal` or `tuple`.
    pub fn to_string(&self) -> (r: String)
        ensures
            r@ == self.text(),
    {
        match self {
            PartialAnnotationType::Union => String::from_str("Union"),
            PartialAnnotationType::Literal => String::from_str("Literal"),
            PartialAnnotationType::Tuple => String::from_str("tuple"),
        }
    }
}

/// A type together with the place in the source where it was written.
#[derive(Debug)]
pub struct RangedType {
    pub range: TextRange,
    pub value: Type,
}

/// A constructor with the arguments it has been given so far.
#[derive(Debug)]
pub struct PartialAnnotation {
    pub range: TextRange,
    pub annotation: PartialAnnotationType,
    pub arguments: Vec<Annotation>,
}

/// What an annotation expression stands for before it is lowered to a type.
#[derive(Debug)]
pub enum Annotation {
    Type(RangedType),
    PartialAnnotation(PartialAnnotation),
}

/// Model of [`Annotation`].
pub enum AnnModel {
    Type { value: Ty, range: TextRange },
    Partial { kind: PartialAnnotationType, arguments: Seq<AnnModel>, range: TextRange },
}

impl AnnModel {
    /// Where the annotation was written.
    pub open spec fn range(self) -> TextRange {
        match self {
            AnnModel::Type { range, .. } => range,
            AnnModel::Partial { range, .. } => range,
        }
    }
}

/// The model of an annotation.
pub open spec fn annotation_model(a: Annotation) -> AnnModel
    decreases a,
{
    match a {
        Annotation::Type(t) => AnnModel::Type { value: t.value@, range: t.range },
        Annotation::PartialAnnotation(p) => AnnModel::Partial {
            kind: p.annotation,
            arguments: annotations_model(p.arguments@),
            range: p.range,
        },
    }
}

/// The models of a list of annotations, in order.
pub open spec fn annotations_model(s: Seq<Annotation>) -> Seq<AnnModel>
    decreases s,
{
    Seq::new(
        s.len(),
        |i: int|
            if 0 <= i < s.len() {
                annotation_model(s[i])
            } else {
                AnnModel::Type { value: Ty::Unknown, range: TextRange { start: 0, end: 0 } }
            },
    )
}

impl View for Annotation {
    type V = AnnModel;

    open spec fn view(&self) -> AnnModel {
        annotation_model(*self)
    }
}

impl Annotation {
    /// Where the annotation was written.
    pub fn range(&self) -> (r: TextRange)
        ensures
            r == self@.range(),
    {
        match self {
            Annotation::Type(a) => a.range,
            Annotation::PartialAnnotation(a) => a.range,
        }
    }
}

// ---------------------------------------------------------------------------
// What an annotation means
// ---------------------------------------------------------------------------

/// The constructor that a name stands for where no frame binds the name.
pub open spec fn constructor_named(id: Seq<char>) -> Option<PartialAnnotationType> {
    if id == "Union"@ {
        Some(PartialAnnotationType::Union)
    } else if id == "Literal"@ {
        Some(PartialAnnotationType::Literal)
    } else if id == "Tuple"@ || id == "tuple"@ {
        Some(PartialAnnotationType::Tuple)
    } else {
        None
    }
}

/// The atom that a name stands for where no frame binds the name and it is
/// no constructor.
pub open spec fn atom_named(id: Seq<char>) -> Option<Ty> {
    if id == "Any"@ {
        Some(Ty::Any)
    } else if id == "Unknown"@ {
        Some(Ty::Unknown)
    } else if id == "str"@ {
        Some(Ty::Str)
    } else if id == "int"@ {
        Some(Ty::Int)
    } else if id == "float"@ {
        Some(Ty::Float)
    } else if id == "bool"@ {
        Some(Ty::Bool)
    } else if id == "None"@ {
        Some(Ty::NoneType)
    } else if id == "..."@ {
        Some(Ty::Ellipsis)
    } else {
        None
    }
}

/// The error for arguments given to what is a type already.
pub open spec fn no_type_arguments(typ: Ty, range: TextRange) -> DiagModel {
    DiagModel::error("Type "@ + render(typ) + " doesn't support type arguments."@, range)
}

/// The error for an argument of `Literal[..]` that is no literal.
pub open spec fn expecting_literal(found: Seq<char>, range: TextRange) -> DiagModel {
    DiagModel::error("Expecting literal, found "@ + found, range)
}

/// What reading one annotation expression gives: the annotation, unless an
/// error stopped the reading; the findings made on the way; and whether
/// every form met on the way was one that has a rule.
pub struct Reading {
    pub ann: Option<AnnModel>,
    pub diags: Seq<DiagModel>,
    pub ok: bool,
}

/// What reading several annotation expressions in a row gives. Reading
/// stops at the first that an error stops.
pub struct Readings {
    pub anns: Option<Seq<AnnModel>>,
    pub diags: Seq<DiagModel>,
    pub ok: bool,
}

impl Reading {
    /// The reading that met a form without a rule.
    pub open spec fn abort() -> Reading {
        Reading { ann: None, diags: Seq::empty(), ok: false }
    }

    /// The reading of a type written at `range`, without findings.
    pub open spec fn of_type(value: Ty, range: TextRange) -> Reading {
        Reading { ann: Some(AnnModel::Type { value, range }), diags: Seq::empty(), ok: true }
    }
}

/// The first stage: an annotation expression read as a type or as a
/// constructor with its arguments.
pub open spec fn annotate(scope: ScopeModel, e: ExprModel) -> Reading
    decreases e, 0nat,
{
    match e {
        ExprModel::Subscript { value, slice, .. } => {
            let base = annotate(scope, *value);
            if !base.ok {
                Reading::abort()
            } else {
                match base.ann {
                    None => base,
                    Some(AnnModel::Type { value: typ, .. }) => Reading {
                        ann: None,
                        diags: base.diags + seq![no_type_arguments(typ, (*value).range())],
                        ok: true,
                    },
                    Some(AnnModel::Partial { kind, arguments, range }) => {
                        let rest = annotate_slice(scope, *slice, arguments);
                        Reading {
                            ann: match rest.anns {
                                Some(all) => Some(
                                    AnnModel::Partial { kind, arguments: all, range },
                                ),
                                None => None,
                            },
                            diags: base.diags + rest.diags,
                            ok: rest.ok,
                        }
                    },
                }
            }
        },
        ExprModel::Name { id, range, .. } => match scope.get(id) {
            Some(binding) => Reading::of_type(binding.typ, range),
            None => match constructor_named(id) {
                Some(kind) => Reading {
                    ann: Some(AnnModel::Partial { kind, arguments: Seq::empty(), range }),
                    diags: Seq::empty(),
                    ok: true,
                },
                None => match atom_named(id) {
                    Some(atom) => Reading::of_type(atom, range),
                    None => Reading {
                        ann: None,
                        diags: seq![DiagModel::NotInScope { name: id, range }],
                        ok: true,
                    },
                },
            },
        },
        ExprModel::StringLiteral { value, range } => Reading::of_type(
            Ty::Literal(Lit::Str(value)),
            range,
        ),
        ExprModel::NumberLiteral { value: NumberModel::Int(i), range } => Reading::of_type(
            Ty::Literal(Lit::Int(i)),
            range,
        ),
        ExprModel::NumberLiteral { value: NumberModel::Float(s), range } => Reading::of_type(
            Ty::Literal(Lit::Float(s)),
            range,
        ),
        ExprModel::BooleanLiteral { value, range } => Reading::of_type(
            Ty::Literal(Lit::Bool(value)),
            range,
        ),
        ExprModel::NoneLiteral { range } => Reading::of_type(Ty::Literal(Lit::NoneLit), range),
        ExprModel::EllipsisLiteral { range } => Reading::of_type(
            Ty::Literal(Lit::EllipsisLit),
            range,
        ),
        _ => Reading::abort(),
    }
}

/// The arguments written between the brackets, read in a row behind the
/// arguments `acc` that the constructor has already: the members of a
/// tuple expression, or the one expression that stands there.
pub open spec fn annotate_slice(
    scope: ScopeModel,
    slice: ExprModel,
    acc: Seq<AnnModel>,
) -> Readings
    decreases slice, 1nat,
{
    match slice {
        ExprModel::Tuple { elts, .. } => annotate_from(scope, elts, 0, acc),
        _ => {
            let one = annotate(scope, slice);
            Readings {
                anns: match one.ann {
                    Some(a) => Some(acc.push(a)),
                    None => None,
                },
                diags: one.diags,
                ok: one.ok,
            }
        },
    }
}

/// The members of `es` from position `i` on read in a row, behind the
/// annotations `acc` that are there already.
pub open spec fn annotate_from(
    scope: ScopeModel,
    es: Seq<ExprModel>,
    i: nat,
    acc: Seq<AnnModel>,
) -> Readings
    decreases es, es.len() - i,
{
    if i >= es.len() {
        Readings { anns: Some(acc), diags: Seq::empty(), ok: true }
    } else {
        let one = annotate(scope, es[i as int]);
        if !one.ok {
            Readings { anns: None, diags: Seq::empty(), ok: false }
        } else {
            match one.ann {
                None => Readings { anns: None, diags: one.diags, ok: true },
                Some(a) => {
                    let rest = annotate_from(scope, es, i + 1, acc.push(a));
                    Readings { anns: rest.anns, diags: one.diags + rest.diags, ok: rest.ok }
                },
            }
        }
    }
}

/// What lowering one annotation gives: the type or the error, and whether
/// the unions on the way could be built.
pub struct Lowering {
    pub result: Result<Ty, DiagModel>,
    pub ok: bool,
}

/// What lowering several annotations in a row gives. Lowering stops at the
/// first error.
pub struct Lowerings {
    pub result: Result<Seq<Ty>, DiagModel>,
    pub ok: bool,
}

/// The arguments of `Literal[..]` from position `i` on as literal types
/// behind `acc`, or the error for the first that is no literal.
pub open spec fn literal_arguments(args: Seq<AnnModel>, i: nat, acc: Seq<Ty>) -> Result<
    Seq<Ty>,
    DiagModel,
>
    decreases args.len() - i,
{
    if i >= args.len() {
        Ok(acc)
    } else {
        match args[i as int] {
            AnnModel::Type { value: Ty::Literal(l), .. } => literal_arguments(
                args,
                i + 1,
                acc.push(Ty::Literal(l)),
            ),
            AnnModel::Type { value, range } => Err(expecting_literal(render(value), range)),
            AnnModel::Partial { kind, range, .. } => Err(expecting_literal(kind.text(), range)),
        }
    }
}

/// The second stage: an annotation lowered to a type.
pub open spec fn lowered(ann: AnnModel) -> Lowering
    decreases ann, 0nat,
{
    match ann {
        AnnModel::Type { value, .. } => Lowering { result: Ok(value), ok: true },
        AnnModel::Partial { kind: PartialAnnotationType::Union, arguments, .. } => {
            let args = lowered_from(arguments, 0, Seq::empty());
            match args.result {
                Err(d) => Lowering { result: Err(d), ok: args.ok },
                Ok(types) => Lowering {
                    result: Ok(union_of(types)),
                    ok: args.ok && union_defined(types),
                },
            }
        },
        AnnModel::Partial { kind: PartialAnnotationType::Literal, arguments, .. } => {
            match literal_arguments(arguments, 0, Seq::empty()) {
                Err(d) => Lowering { result: Err(d), ok: true },
                Ok(types) => Lowering { result: Ok(union_of(types)), ok: union_defined(types) },
            }
        },
        AnnModel::Partial { kind: PartialAnnotationType::Tuple, arguments, .. } => {
            let args = lowered_from(arguments, 0, Seq::empty());
            match args.result {
                Err(d) => Lowering { result: Err(d), ok: args.ok },
                Ok(types) => Lowering { result: Ok(Ty::Tuple(types)), ok: args.ok },
            }
        },
    }
}

/// The members of `anns` from position `i` on lowered in a row, behind the
/// types `acc` that are there already.
pub open spec fn lowered_from(anns: Seq<AnnModel>, i: nat, acc: Seq<Ty>) -> Lowerings
    decreases anns, anns.len() - i,
{
    if i >= anns.len() {
        Lowerings { result: Ok(acc), ok: true }
    } else {
        let one = lowered(anns[i as int]);
        if !one.ok {
            Lowerings { result: Ok(acc), ok: false }
        } else {
            match one.result {
                Err(d) => Lowerings { result: Err(d), ok: true },
                Ok(t) => lowered_from(anns, i + 1, acc.push(t)),
            }
        }
    }
}

/// What working out a type gives: the type, the findings made on the way,
/// and whether every form met on the way was one that has a rule.
pub struct Synth {
    pub typ: Ty,
    pub diags: Seq<DiagModel>,
    pub ok: bool,
}

impl Synth {
    /// The outcome that met a form without a rule.
    pub open spec fn abort() -> Synth {
        Synth { typ: Ty::Unknown, diags: Seq::empty(), ok: false }
    }

    /// The outcome with a type and no findings.
    pub open spec fn done(typ: Ty) -> Synth {
        Synth { typ, diags: Seq::empty(), ok: true }
    }
}

/// The type that an annotation stands for, `Unknown` where there is no
/// annotation or where an error stopped the work, with the findings.
pub open spec fn annotation_type(scope: ScopeModel, maybe: Option<ExprModel>) -> Synth {
    match maybe {
        None => Synth::done(Ty::Unknown),
        Some(e) => {
            let reading = annotate(scope, e);
            if !reading.ok {
                Synth::abort()
            } else {
                match reading.ann {
                    None => Synth { typ: Ty::Unknown, diags: reading.diags, ok: true },
                    Some(ann) => {
                        let lowering = lowered(ann);
                        match lowering.result {
                            Ok(typ) => Synth { typ, diags: reading.diags, ok: lowering.ok },
                            Err(d) => Synth {
                                typ: Ty::Unknown,
                                diags: reading.diags + seq![d],
                                ok: lowering.ok,
                            },
                        }
                    },
                }
            }
        },
    }
}

// ---------------------------------------------------------------------------
// Working it out
// ---------------------------------------------------------------------------

/// The model of an optional annotation.
pub open spec fn opt_annotation_model(o: Option<Annotation>) -> Option<AnnModel> {
    match o {
        Some(a) => Some(a@),
        None => None,
    }
}

/// The model of an optional list of annotations.
pub open spec fn opt_annotations_model(o: Option<Vec<Annotation>>) -> Option<Seq<AnnModel>> {
    match o {
        Some(a) => Some(annotations_model(a@)),
        None => None,
    }
}

/// The model of a type or an error.
pub open spec fn lowering_model(r: Result<Type, Diag>) -> Result<Ty, DiagModel> {
    match r {
        Ok(t) => Ok(t@),
        Err(d) => Err(d@),
    }
}

/// The model of a list of types or an error.
pub open spec fn lowerings_model(r: Result<Vec<Type>, Diag>) -> Result<Seq<Ty>, DiagModel> {
    match r {
        Ok(t) => Ok(types_model(t@)),
        Err(d) => Err(d@),
    }
}

/// Whether `s` holds the text `lit`.
pub fn is_text(s: &String, lit: &str) -> (r: bool)
    ensures
        r == (s@ == lit@),
{
    let t = String::from_str(lit);
    *s == t
}

fn constructor_for(id: &String) -> (r: Option<PartialAnnotationType>)
    ensures
        r == constructor_named(id@),
{
    if is_text(id, "Union") {
        Some(PartialAnnotationType::Union)
    } else if is_text(id, "Literal") {
        Some(PartialAnnotationType::Literal)
    } else if is_text(id, "Tuple") || is_text(id, "tuple") {
        Some(PartialAnnotationType::Tuple)
    } else {
        None
    }
}

fn atom_for(id: &String) -> (r: Option<Type>)
    ensures
        match r {
            Some(t) => atom_named(id@) == Some(t@),
            None => atom_named(id@) is None,
        },
{
    if is_text(id, "Any") {
        Some(Type::Any)
    } else if is_text(id, "Unknown") {
        Some(Type::Unknown)
    } else if is_text(id, "str") {
        Some(Type::String)
    } else if is_text(id, "int") {
        Some(Type::Int)
    } else if is_text(id, "float") {
        Some(Type::Float)
    } else if is_text(id, "bool") {
        Some(Type::Bool)
    } else if is_text(id, "None") {
        Some(Type::NoneType)
    } else if is_text(id, "...") {
        Some(Type::Ellipsis)
    } else {
        None
    }
}

fn expecting_literal_error(found: &String, range: TextRange) -> (r: Diag)
    ensures
        r@ == expecting_literal(found@, range),
{
    let mut body = String::from_str("Expecting literal, found ");
    body.append(found.as_str());
    Diag::Diagnostic(Diagnostic::error(body, range))
}

fn no_type_arguments_error(typ: &Type, range: TextRange) -> (r: Diag)
    ensures
        r@ == no_type_arguments(typ@, range),
{
    let mut body = String::from_str("Type ");
    let text = typ.to_string();
    body.append(text.as_str());
    body.append(" doesn't support type arguments.");
    assert(body@ =~= "Type "@ + render(typ@) + " doesn't support type arguments."@);
    Diag::Diagnostic(Diagnostic::error(body, range))
}

/// The literal type that an argument of `Literal[..]` stands for, or the
/// error where it is no literal.
fn literal_argument(arg: &Annotation) -> (r: Result<Type, Diag>)
    ensures
        match arg@ {
            AnnModel::Type { value: Ty::Literal(l), .. } => lowering_model(r) == Ok::<
                Ty,
                DiagModel,
            >(Ty::Literal(l)),
            AnnModel::Type { value, range } => lowering_model(r) == Err::<Ty, DiagModel>(
                expecting_literal(render(value), range),
            ),
            AnnModel::Partial { kind, range, .. } => lowering_model(r) == Err::<Ty, DiagModel>(
                expecting_literal(kind.text(), range),
            ),
        },
{
    match arg {
        Annotation::Type(t) => match &t.value {
            Type::Literal(l) => Ok(Type::Literal(l.clone())),
            other => {
                let found = other.to_string();
                Err(expecting_literal_error(&found, t.range))
            },
        },
        Annotation::PartialAnnotation(p) => {
            let found = p.annotation.to_string();
            Err(expecting_literal_error(&found, p.range))
        },
    }
}

fn literal_types(args: &Vec<Annotation>) -> (r: Result<Vec<Type>, Diag>)
    ensures
        lowerings_model(r) == literal_arguments(annotations_model(args@), 0, Seq::empty()),
{
    let ghost anns = annotations_model(args@);
    let mut literals: Vec<Type> = Vec::new();
    let mut i: usize = 0;
    assert(types_model(literals@) =~= Seq::empty());
    while i < args.len()
        invariant
            i <= args.len(),
            anns == annotations_model(args@),
            literal_arguments(anns, 0, Seq::empty()) == literal_arguments(
                anns,
                i as nat,
                types_model(literals@),
            ),
        decreases args.len() - i,
    {
        assert(anns[i as int] == args@[i as int]@);
        match literal_argument(&args[i]) {
            Ok(t) => {
                proof {
                    assert(types_model(literals@.push(t)) =~= types_model(literals@).push(t@));
                }
                literals.push(t);
            },
            Err(d) => {
                return Err(d);
            },
        }
        i += 1;
    }
    Ok(literals)
}

fn verify_all(args: &Vec<Annotation>) -> (r: Result<Vec<Type>, Diag>)
    requires
        lowered_from(annotations_model(args@), 0, Seq::empty()).ok,
    ensures
        lowerings_model(r) == lowered_from(annotations_model(args@), 0, Seq::empty()).result,
    decreases args, 0nat,
{
    let ghost anns = annotations_model(args@);
    let mut types: Vec<Type> = Vec::new();
    let mut i: usize = 0;
    assert(types_model(types@) =~= Seq::empty());
    while i < args.len()
        invariant
            i <= args.len(),
            anns == annotations_model(args@),
            lowered_from(anns, 0, Seq::empty()) == lowered_from(
                anns,
                i as nat,
                types_model(types@),
            ),
            lowered_from(anns, 0, Seq::empty()).ok,
        decreases args.len() - i,
    {
        assert(anns[i as int] == args@[i as int]@);
        match verify_annotation(&args[i]) {
            Ok(t) => {
                proof {
                    assert(types_model(types@.push(t)) =~= types_model(types@).push(t@));
                }
                types.push(t);
            },
            Err(d) => {
                return Err(d);
            },
        }
        i += 1;
    }
    Ok(types)
}

/// Lower an annotation to the type it stands for, or say why it stands for
/// none.
pub fn verify_annotation(ann: &Annotation) -> (r: Result<Type, Diag>)
    requires
        lowered(ann@).ok,
    ensures
        lowering_model(r) == lowered(ann@).result,
    decreases ann, 1nat,
{
    match ann {
        Annotation::Type(t) => Ok(t.value.clone()),
        Annotation::PartialAnnotation(t) => match t.annotation {
            PartialAnnotationType::Union => match verify_all(&t.arguments) {
                Ok(types) => Ok(union(types)),
                Err(d) => Err(d),
            },
            PartialAnnotationType::Literal => match literal_types(&t.arguments) {
                Ok(literals) => Ok(union(literals)),
                Err(d) => Err(d),
            },
            PartialAnnotationType::Tuple => match verify_all(&t.arguments) {
                Ok(types) => Ok(Type::Tuple(types)),
                Err(d) => Err(d),
            },
        },
    }
}

fn ranged(value: Type, range: TextRange) -> (r: Option<Annotation>)
    ensures
        opt_annotation_model(r) == Reading::of_type(value@, range).ann,
{
    Some(Annotation::Type(RangedType { range, value }))
}

fn annotate_elements(
    info: &mut Info,
    scope: &Scope,
    elts: &Vec<Expr>,
    given: Vec<Annotation>,
) -> (r: Option<Vec<Annotation>>)
    requires
        annotate_from(scope@, exprs_model(elts@), 0, annotations_model(given@)).ok,
    ensures
        opt_annotations_model(r) == annotate_from(
            scope@,
            exprs_model(elts@),
            0,
            annotations_model(given@),
        ).anns,
        final(info)@ == old(info)@.reported(
            annotate_from(scope@, exprs_model(elts@), 0, annotations_model(given@)).diags,
        ),
    decreases elts, 0nat,
{
    let ghost es = exprs_model(elts@);
    let ghost whole = annotate_from(scope@, es, 0, annotations_model(given@));
    let ghost mut done: Seq<DiagModel> = Seq::empty();
    let mut arguments = given;
    let mut i: usize = 0;
    proof {
        lemma_reported_nothing(info@);
        assert(done + whole.diags =~= whole.diags);
    }
    while i < elts.len()
        invariant
            i <= elts.len(),
            es == exprs_model(elts@),
            info@ == old(info)@.reported(done),
            whole == annotate_from(scope@, es, 0, annotations_model(given@)),
            whole.ok,
            annotate_from(scope@, es, i as nat, annotations_model(arguments@)).ok,
            whole.anns == annotate_from(scope@, es, i as nat, annotations_model(arguments@)).anns,
            whole.diags == done + annotate_from(
                scope@,
                es,
                i as nat,
                annotations_model(arguments@),
            ).diags,
        decreases elts.len() - i,
    {
        let ghost one = annotate(scope@, es[i as int]);
        let ghost before = annotate_from(scope@, es, i as nat, annotations_model(arguments@));
        assert(es[i as int] == elts@[i as int]@);
        let arg = _synth_annotation(info, scope, &elts[i]);
        proof {
            lemma_reported_more(old(info)@, done, one.diags);
        }
        match arg {
            None => {
                assert(whole.diags == done + one.diags);
                return None;
            },
            Some(arg) => {
                proof {
                    assert(annotations_model(arguments@.push(arg)) =~= annotations_model(
                        arguments@,
                    ).push(arg@));
                    let rest = annotate_from(
                        scope@,
                        es,
                        (i + 1) as nat,
                        annotations_model(arguments@).push(arg@),
                    );
                    assert(before.diags == one.diags + rest.diags);
                    assert(done + (one.diags + rest.diags) =~= (done + one.diags) + rest.diags);
                    done = done + one.diags;
                }
                arguments.push(arg);
            },
        }
        i += 1;
    }
    proof {
        assert(done + Seq::<DiagModel>::empty() =~= done);
    }
    Some(arguments)
}

fn annotate_arguments(
    info: &mut Info,
    scope: &Scope,
    slice: &Expr,
    given: Vec<Annotation>,
) -> (r: Option<Vec<Annotation>>)
    requires
        annotate_slice(scope@, slice@, annotations_model(given@)).ok,
    ensures
        opt_annotations_model(r) == annotate_slice(scope@, slice@, annotations_model(given@)).anns,
        final(info)@ == old(info)@.reported(
            annotate_slice(scope@, slice@, annotations_model(given@)).diags,
        ),
    decreases slice, 1nat,
{
    match slice {
        Expr::Tuple { elts, .. } => annotate_elements(info, scope, elts, given),
        other => {
            let mut arguments = given;
            match _synth_annotation(info, scope, other) {
                None => None,
                Some(arg) => {
                    proof {
                        assert(annotations_model(arguments@.push(arg)) =~= annotations_model(
                            arguments@,
                        ).push(arg@));
                    }
                    arguments.push(arg);
                    Some(arguments)
                },
            }
        },
    }
}

fn _synth_annotation(info: &mut Info, scope: &Scope, ast: &Expr) -> (r: Option<Annotation>)
    requires
        annotate(scope@, ast@).ok,
    ensures
        opt_annotation_model(r) == annotate(scope@, ast@).ann,
        final(info)@ == old(info)@.reported(annotate(scope@, ast@).diags),
    decreases ast, 0nat,
{
    proof {
        lemma_reported_nothing(info@);
    }
    match ast {
        Expr::Subscript { value, slice, .. } => {
            let value_range = value.range();
            let ghost base = annotate(scope@, value@);
            let partial = match _synth_annotation(info, scope, value) {
                None => {
                    return None;
                },
                Some(Annotation::PartialAnnotation(p)) => p,
                Some(Annotation::Type(typ)) => {
                    info.report(no_type_arguments_error(&typ.value, value_range));
                    proof {
                        lemma_reported_more(
                            old(info)@,
                            base.diags,
                            seq![no_type_arguments(typ.value@, value_range)],
                        );
                    }
                    return None;
                },
            };
            let PartialAnnotation { range, annotation, arguments } = partial;
            let ghost rest = annotate_slice(scope@, slice@, annotations_model(arguments@));
            let all = annotate_arguments(info, scope, slice, arguments);
            proof {
                lemma_reported_more(old(info)@, base.diags, rest.diags);
            }
            match all {
                Some(arguments) => Some(
                    Annotation::PartialAnnotation(
                        PartialAnnotation { range, annotation, arguments },
                    ),
                ),
                None => None,
            }
        },
        Expr::Name { id, range, .. } => {
            let typ = match scope.get(id) {
                Some(t) => t.typ,
                None => {
                    // The constructors come first, then the atoms.
                    match constructor_for(id) {
                        Some(kind) => {
                            let partial = PartialAnnotation {
                                annotation: kind,
                                arguments: Vec::new(),
                                range: *range,
                            };
                            assert(annotations_model(partial.arguments@) =~= Seq::empty());
                            return Some(Annotation::PartialAnnotation(partial));
                        },
                        None => {},
                    }
                    match atom_for(id) {
                        Some(atom) => atom,
                        None => {
                            info.report(Diag::NotInScope(NotInScopeDiag::new(id.clone(), *range)));
                            return None;
                        },
                    }
                },
            };
            ranged(typ, *range)
        },
        Expr::StringLiteral { value, range } => ranged(
            Type::Literal(TypeLiteral::StringLiteral(value.clone())),
            *range,
        ),
        Expr::NumberLiteral { value, range } => {
            let literal = match value {
                Number::Int(i) => TypeLiteral::IntLiteral(*i),
                Number::Float(s) => TypeLiteral::FloatLiteral(s.clone()),
                _ => unreached(),
            };
            ranged(Type::Literal(literal), *range)
        },
        Expr::BooleanLiteral { value, range } => ranged(
            Type::Literal(TypeLiteral::BooleanLiteral(*value)),
            *range,
        ),
        Expr::NoneLiteral { range } => ranged(Type::Literal(TypeLiteral::NoneLiteral), *range),
        Expr::EllipsisLiteral { range } => ranged(
            Type::Literal(TypeLiteral::EllipsisLiteral),
            *range,
        ),
        _ => unreached(),
    }
}

/// The type that an annotation stands for. Where there is no annotation, or
/// where the annotation is in error, the type is `Unknown`; the error is
/// reported.
pub fn synth_annotation(info: &mut Info, scope: &Scope, maybe_ast: Option<&Expr>) -> (r: Type)
    requires
        annotation_type(scope@, opt_expr_ref_model(maybe_ast)).ok,
    ensures
        r@ == annotation_type(scope@, opt_expr_ref_model(maybe_ast)).typ,
        final(info)@ == old(info)@.reported(
            annotation_type(scope@, opt_expr_ref_model(maybe_ast)).diags,
        ),
{
    proof {
        lemma_reported_nothing(info@);
    }
    let ast = match maybe_ast {
        Some(ast) => ast,
        None => {
            return Type::Unknown;
        },
    };
    let ann = match _synth_annotation(info, scope, ast) {
        Some(ann) => ann,
        None => {
            return Type::Unknown;
        },
    };
    match verify_annotation(&ann) {
        Ok(typ) => typ,
        Err(err) => {
            proof {
                lemma_reported_more(old(info)@, annotate(scope@, ast@).diags, seq![err@]);
            }
            info.report(err);
            Type::Unknown
        },
    }
}

} // verus!
