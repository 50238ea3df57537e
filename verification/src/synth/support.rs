use crate::ast::{
    exprs_model, opt_expr_model, opt_expr_ref_model, params_model, stmts_model, AliasModel, Expr,
    ExprContext, ExprModel, FunctionDefModel, Number, NumberModel, Parameter, ParameterModel, Stmt,
    StmtFunctionDef, StmtModel,
};
use crate::scope::{lemma_clean_get, lemma_clean_kept, Scope, ScopeModel};
use crate::state::{DataModel, Info, ReturnsModel, StatementSynthData};
use crate::synth::annotation::{
    annotate, annotate_from, annotate_slice, annotation_type, literal_arguments, lowered,
    lowered_from, synth_annotation, AnnModel,
};
use crate::synth::expression::{
    check, check_arguments_from, check_type, is_reveal_type, lambda_parameter,
    lambda_parameters_from, names_reveal_type, opt_type_model, synth, synth_from, synth_type,
};
use crate::synth::laws::{lemma_parameters_keep_frames, lemma_statements_keep_shape};
use crate::synth::statement::{
    assign_from, check_statement, function_parameter, function_parameters_from, function_signature,
    import_from, import_names_from, local_name, module_bindings, statement_step, statements_from,
    unlocked,
};
use crate::types::base::{Binding, ClassTy, Lit, Ty, Type};
use crate::types::clean::all_are_clean;
use crate::types::laws::{all_clean, clean, lemma_clean_defined, lemma_clean_union};
use vstd::prelude::*;

verus! {

/// Whether every form in an annotation expression is one that has a rule.
pub open spec fn annotation_supported(e: ExprModel) -> bool
    decreases e,
{
    match e {
        ExprModel::Subscript { value, slice, .. } => {
            &&& annotation_supported(*value)
            &&& match *slice {
                ExprModel::Tuple { elts, .. } => forall|i: int|
                    0 <= i < elts.len() ==> annotation_supported(#[trigger] elts[i]),
                _ => annotation_supported(*slice),
            }
        },
        ExprModel::Name { .. } => true,
        ExprModel::StringLiteral { .. } => true,
        ExprModel::NumberLiteral { value: NumberModel::Int(_), .. } => true,
        ExprModel::NumberLiteral { value: NumberModel::Float(_), .. } => true,
        ExprModel::BooleanLiteral { .. } => true,
        ExprModel::NoneLiteral { .. } => true,
        ExprModel::EllipsisLiteral { .. } => true,
        _ => false,
    }
}

/// Whether every form in an expression is one that has a rule. Of the
/// arguments of `reveal_type` only the first counts.
pub open spec fn expr_supported(e: ExprModel) -> bool
    decreases e,
{
    match e {
        ExprModel::NoneLiteral { .. } => true,
        ExprModel::BooleanLiteral { .. } => true,
        ExprModel::NumberLiteral { value: NumberModel::Int(_), .. } => true,
        ExprModel::NumberLiteral { value: NumberModel::Float(_), .. } => true,
        ExprModel::StringLiteral { .. } => true,
        ExprModel::Name { ctx: ExprContext::Load, .. } => true,
        ExprModel::Lambda { parameters, body, .. } => {
            &&& forall|i: int|
                0 <= i < parameters.len() ==> lambda_parameter_supported(#[trigger] parameters[i])
            &&& expr_supported(*body)
        },
        ExprModel::Call { func, args, .. } => if names_reveal_type(*func) {
            args.len() > 0 && expr_supported(args[0])
        } else {
            &&& expr_supported(*func)
            &&& forall|i: int| 0 <= i < args.len() ==> expr_supported(#[trigger] args[i])
        },
        ExprModel::Attribute { value, .. } => expr_supported(*value),
        ExprModel::Tuple { elts, .. } => forall|i: int|
            0 <= i < elts.len() ==> expr_supported(#[trigger] elts[i]),
        _ => false,
    }
}

/// Whether the annotation of a `lambda` parameter, read as an expression,
/// holds only forms that have a rule.
pub open spec fn lambda_parameter_supported(p: ParameterModel) -> bool
    decreases p,
{
    match p.annotation {
        Some(a) => expr_supported(a),
        None => true,
    }
}

/// Whether the annotation and the default of a `def` parameter hold only
/// forms that have a rule.
pub open spec fn parameter_supported(p: ParameterModel) -> bool {
    &&& p.annotation matches Some(a) ==> annotation_supported(a)
    &&& p.default matches Some(d) ==> expr_supported(d)
}

/// Whether an expression is a name that is being assigned to.
pub open spec fn is_target(e: ExprModel) -> bool {
    e matches ExprModel::Name { ctx: ExprContext::Store, .. }
}

/// Whether every form in a statement is one that has a rule.
pub open spec fn stmt_supported(s: StmtModel) -> bool
    decreases s,
{
    match s {
        StmtModel::AnnAssign { target, annotation, value, .. } => {
            &&& is_target(target)
            &&& annotation_supported(annotation)
            &&& value matches Some(v) ==> expr_supported(v)
        },
        StmtModel::Assign { targets, value, .. } => {
            &&& forall|i: int| 0 <= i < targets.len() ==> is_target(#[trigger] targets[i])
            &&& expr_supported(value)
        },
        StmtModel::Expr { value, .. } => expr_supported(value),
        StmtModel::Return { value, .. } => value matches Some(v) ==> expr_supported(v),
        StmtModel::FunctionDef(def) => {
            &&& def.returns matches Some(r) ==> annotation_supported(r)
            &&& forall|i: int|
                0 <= i < def.parameters.len() ==> parameter_supported(#[trigger] def.parameters[i])
            &&& forall|i: int| 0 <= i < def.body.len() ==> stmt_supported(#[trigger] def.body[i])
        },
        StmtModel::ClassDef { .. } => true,
        StmtModel::Pass { .. } => true,
        StmtModel::Import { .. } => true,
        StmtModel::ImportFrom { module, .. } => module is Some,
        StmtModel::Other { .. } => false,
    }
}

/// Every one of the expressions is supported as an annotation.
pub open spec fn all_annotations_supported(es: Seq<ExprModel>) -> bool {
    forall|i: int| 0 <= i < es.len() ==> annotation_supported(#[trigger] es[i])
}

/// Every one of the expressions is supported.
pub open spec fn all_exprs_supported(es: Seq<ExprModel>) -> bool {
    forall|i: int| 0 <= i < es.len() ==> expr_supported(#[trigger] es[i])
}

/// Every one of the expressions is a name that is being assigned to.
pub open spec fn all_targets(es: Seq<ExprModel>) -> bool {
    forall|i: int| 0 <= i < es.len() ==> is_target(#[trigger] es[i])
}

/// The annotation of every one of the `lambda` parameters is supported.
pub open spec fn all_lambda_parameters_supported(ps: Seq<ParameterModel>) -> bool {
    forall|i: int| 0 <= i < ps.len() ==> lambda_parameter_supported(#[trigger] ps[i])
}

/// Every one of the `def` parameters is supported.
pub open spec fn all_parameters_supported(ps: Seq<ParameterModel>) -> bool {
    forall|i: int| 0 <= i < ps.len() ==> parameter_supported(#[trigger] ps[i])
}

/// Every one of the statements is supported.
pub open spec fn all_supported(body: Seq<StmtModel>) -> bool {
    forall|i: int| 0 <= i < body.len() ==> stmt_supported(#[trigger] body[i])
}

/// Every type in an annotation is clean.
pub open spec fn annotation_clean(a: AnnModel) -> bool
    decreases a,
{
    match a {
        AnnModel::Type { value, .. } => clean(value),
        AnnModel::Partial { arguments, .. } => forall|i: int|
            0 <= i < arguments.len() ==> annotation_clean(#[trigger] arguments[i]),
    }
}

/// Every one of the annotations is clean.
pub open spec fn annotations_clean(anns: Seq<AnnModel>) -> bool {
    forall|i: int| 0 <= i < anns.len() ==> annotation_clean(#[trigger] anns[i])
}

/// The types of the return context, if there is one, are clean.
pub open spec fn data_clean(data: DataModel) -> bool {
    data.return_context matches Some(context) ==> clean(context.annotation) && all_clean(
        context.found_types,
    )
}

// ---------------------------------------------------------------------------
// Annotations
// ---------------------------------------------------------------------------

/// A supported annotation expression can be read in a clean scope, and what
/// is read is clean.
pub proof fn lemma_annotate_ok(scope: ScopeModel, e: ExprModel)
    requires
        scope.clean(),
        annotation_supported(e),
    ensures
        annotate(scope, e).ok,
        annotate(scope, e).ann matches Some(a) ==> annotation_clean(a),
    decreases e, 0nat,
{
    match e {
        ExprModel::Subscript { value, slice, .. } => {
            lemma_annotate_ok(scope, *value);
            let base = annotate(scope, *value);
            match base.ann {
                Some(AnnModel::Partial { kind, arguments, range }) => {
                    lemma_annotate_slice_ok(scope, *slice, arguments);
                },
                _ => {},
            }
        },
        ExprModel::Name { id, .. } => {
            lemma_clean_get(scope, id);
        },
        _ => {},
    }
}

/// Supported arguments between the brackets can be read in a clean scope, and
/// what is read is clean.
pub proof fn lemma_annotate_slice_ok(scope: ScopeModel, slice: ExprModel, acc: Seq<AnnModel>)
    requires
        scope.clean(),
        annotations_clean(acc),
        match slice {
            ExprModel::Tuple { elts, .. } => forall|i: int|
                0 <= i < elts.len() ==> annotation_supported(#[trigger] elts[i]),
            _ => annotation_supported(slice),
        },
    ensures
        annotate_slice(scope, slice, acc).ok,
        annotate_slice(scope, slice, acc).anns matches Some(all) ==> annotations_clean(all),
    decreases slice, 1nat,
{
    match slice {
        ExprModel::Tuple { elts, .. } => {
            lemma_annotate_from_ok(scope, elts, 0, acc);
        },
        _ => {
            lemma_annotate_ok(scope, slice);
            let one = annotate(scope, slice);
            match one.ann {
                Some(a) => {
                    lemma_push_annotation_clean(acc, a);
                },
                None => {},
            }
        },
    }
}

/// A clean annotation behind clean annotations leaves them clean.
pub proof fn lemma_push_annotation_clean(acc: Seq<AnnModel>, a: AnnModel)
    requires
        annotations_clean(acc),
        annotation_clean(a),
    ensures
        annotations_clean(acc.push(a)),
{
    assert forall|i: int| 0 <= i < acc.push(a).len() implies annotation_clean(
        #[trigger] acc.push(a)[i],
    ) by {
        if i < acc.len() {
            assert(acc.push(a)[i] == acc[i]);
        }
    }
}

/// A clean type behind clean types leaves them clean.
pub proof fn lemma_push_clean(acc: Seq<Ty>, t: Ty)
    requires
        all_clean(acc),
        clean(t),
    ensures
        all_clean(acc.push(t)),
{
    assert forall|i: int| 0 <= i < acc.push(t).len() implies clean(#[trigger] acc.push(t)[i]) by {
        if i < acc.len() {
            assert(acc.push(t)[i] == acc[i]);
        }
    }
}

/// Supported annotation expressions can be read in a row in a clean scope, and
/// what is read is clean.
pub proof fn lemma_annotate_from_ok(
    scope: ScopeModel,
    es: Seq<ExprModel>,
    i: nat,
    acc: Seq<AnnModel>,
)
    requires
        scope.clean(),
        annotations_clean(acc),
        forall|j: int| 0 <= j < es.len() ==> annotation_supported(#[trigger] es[j]),
    ensures
        annotate_from(scope, es, i, acc).ok,
        annotate_from(scope, es, i, acc).anns matches Some(all) ==> annotations_clean(all),
    decreases es, es.len() - i,
{
    if i < es.len() {
        lemma_annotate_ok(scope, es[i as int]);
        let one = annotate(scope, es[i as int]);
        match one.ann {
            Some(a) => {
                lemma_push_annotation_clean(acc, a);
                lemma_annotate_from_ok(scope, es, i + 1, acc.push(a));
            },
            None => {},
        }
    }
}

/// The literal types that clean arguments of `Literal[..]` give are clean.
pub proof fn lemma_literal_arguments_clean(args: Seq<AnnModel>, i: nat, acc: Seq<Ty>)
    requires
        annotations_clean(args),
        all_clean(acc),
    ensures
        literal_arguments(args, i, acc) matches Ok(types) ==> all_clean(types),
    decreases args.len() - i,
{
    if i < args.len() {
        assert(annotation_clean(args[i as int]));
        match args[i as int] {
            AnnModel::Type { value: Ty::Literal(l), .. } => {
                lemma_push_clean(acc, Ty::Literal(l));
                lemma_literal_arguments_clean(args, i + 1, acc.push(Ty::Literal(l)));
            },
            _ => {},
        }
    }
}

/// A clean annotation can be lowered, and the type it gives is clean.
pub proof fn lemma_lowered_ok(a: AnnModel)
    requires
        annotation_clean(a),
    ensures
        lowered(a).ok,
        lowered(a).result matches Ok(t) ==> clean(t),
    decreases a, 0nat,
{
    match a {
        AnnModel::Type { .. } => {},
        AnnModel::Partial { kind, arguments, .. } => {
            lemma_lowered_from_ok(arguments, 0, Seq::empty());
            lemma_literal_arguments_clean(arguments, 0, Seq::empty());
            match lowered_from(arguments, 0, Seq::empty()).result {
                Ok(types) => {
                    lemma_clean_union(types);
                },
                Err(_) => {},
            }
            match literal_arguments(arguments, 0, Seq::empty()) {
                Ok(types) => {
                    lemma_clean_union(types);
                },
                Err(_) => {},
            }
        },
    }
}

/// Clean annotations can be lowered in a row, and the types they give are
/// clean.
pub proof fn lemma_lowered_from_ok(anns: Seq<AnnModel>, i: nat, acc: Seq<Ty>)
    requires
        annotations_clean(anns),
        all_clean(acc),
    ensures
        lowered_from(anns, i, acc).ok,
        lowered_from(anns, i, acc).result matches Ok(types) ==> all_clean(types),
    decreases anns, anns.len() - i,
{
    if i < anns.len() {
        assert(annotation_clean(anns[i as int]));
        lemma_lowered_ok(anns[i as int]);
        match lowered(anns[i as int]).result {
            Ok(t) => {
                lemma_push_clean(acc, t);
                lemma_lowered_from_ok(anns, i + 1, acc.push(t));
            },
            Err(_) => {},
        }
    }
}

/// The type of a supported annotation can be worked out in a clean scope,
/// and is clean.
pub proof fn lemma_annotation_type_ok(scope: ScopeModel, maybe: Option<ExprModel>)
    requires
        scope.clean(),
        maybe matches Some(e) ==> annotation_supported(e),
    ensures
        annotation_type(scope, maybe).ok,
        clean(annotation_type(scope, maybe).typ),
{
    match maybe {
        Some(e) => {
            lemma_annotate_ok(scope, e);
            match annotate(scope, e).ann {
                Some(a) => {
                    lemma_lowered_ok(a);
                },
                None => {},
            }
        },
        None => {},
    }
}

// ---------------------------------------------------------------------------
// Expressions
// ---------------------------------------------------------------------------

/// The type of a supported expression can be worked out in a clean scope,
/// and is clean.
pub proof fn lemma_synth_ok(scope: ScopeModel, e: ExprModel)
    requires
        scope.clean(),
        expr_supported(e),
    ensures
        synth_type(scope, e).ok,
        clean(synth_type(scope, e).typ),
    decreases e, 0nat,
{
    match e {
        ExprModel::Name { id, .. } => {
            lemma_clean_get(scope, id);
        },
        ExprModel::Lambda { parameters, body, .. } => {
            lemma_lambda_parameters_ok(scope, parameters, 0, Seq::empty());
            lemma_synth_ok(scope, *body);
        },
        ExprModel::Call { func, args, keywords, range } => {
            if names_reveal_type(*func) {
                lemma_synth_ok(scope, args[0]);
            } else {
                lemma_synth_ok(scope, *func);
                match synth_type(scope, *func).typ {
                    Ty::Function(f) => {
                        if f.params.len() == args.len() + keywords {
                            lemma_check_arguments_ok(scope, args, f.params, 0);
                        }
                    },
                    _ => {},
                }
            }
        },
        ExprModel::Attribute { value, attr, .. } => {
            lemma_synth_ok(scope, *value);
        },
        ExprModel::Tuple { elts, .. } => {
            lemma_synth_from_ok(scope, elts, 0, Seq::empty());
        },
        _ => {},
    }
}

/// A supported expression can be checked in a clean scope against a clean
/// type, and the type found for it is clean.
pub proof fn lemma_check_ok(scope: ScopeModel, e: ExprModel, typ: Ty)
    requires
        scope.clean(),
        expr_supported(e),
        clean(typ),
    ensures
        check_type(scope, e, typ).ok,
        check_type(scope, e, typ).result matches Some(t) ==> clean(t),
    decreases e, 1nat,
{
    lemma_synth_ok(scope, e);
    lemma_clean_defined(synth_type(scope, e).typ, typ);
}

/// The types of supported expressions can be worked out in a row in a clean
/// scope, and are clean.
pub proof fn lemma_synth_from_ok(scope: ScopeModel, es: Seq<ExprModel>, i: nat, acc: Seq<Ty>)
    requires
        scope.clean(),
        all_clean(acc),
        forall|j: int| 0 <= j < es.len() ==> expr_supported(#[trigger] es[j]),
    ensures
        synth_from(scope, es, i, acc).ok,
        all_clean(synth_from(scope, es, i, acc).types),
    decreases es, es.len() - i,
{
    if i < es.len() {
        lemma_synth_ok(scope, es[i as int]);
        let one = synth_type(scope, es[i as int]);
        lemma_push_clean(acc, one.typ);
        lemma_synth_from_ok(scope, es, i + 1, acc.push(one.typ));
    }
}

/// The types of supported `lambda` parameters can be worked out in a clean
/// scope, and are clean.
pub proof fn lemma_lambda_parameters_ok(
    scope: ScopeModel,
    params: Seq<ParameterModel>,
    i: nat,
    acc: Seq<Ty>,
)
    requires
        scope.clean(),
        all_clean(acc),
        forall|j: int| 0 <= j < params.len() ==> lambda_parameter_supported(#[trigger] params[j]),
    ensures
        lambda_parameters_from(scope, params, i, acc).ok,
        all_clean(lambda_parameters_from(scope, params, i, acc).types),
    decreases params, params.len() - i,
{
    if i < params.len() {
        assert(lambda_parameter_supported(params[i as int]));
        match params[i as int].annotation {
            Some(a) => {
                lemma_synth_ok(scope, a);
            },
            None => {},
        }
        let one = lambda_parameter(scope, params[i as int]);
        lemma_push_clean(acc, one.typ);
        lemma_lambda_parameters_ok(scope, params, i + 1, acc.push(one.typ));
    }
}

/// Supported arguments can be checked in a clean scope against clean parameter
/// types.
pub proof fn lemma_check_arguments_ok(
    scope: ScopeModel,
    args: Seq<ExprModel>,
    params: Seq<Ty>,
    i: nat,
)
    requires
        scope.clean(),
        all_clean(params),
        forall|j: int| 0 <= j < args.len() ==> expr_supported(#[trigger] args[j]),
    ensures
        check_arguments_from(scope, args, params, i).ok,
    decreases args, args.len() - i,
{
    if i < args.len() && i < params.len() {
        lemma_check_ok(scope, args[i as int], params[i as int]);
        lemma_check_arguments_ok(scope, args, params, i + 1);
    }
}

// ---------------------------------------------------------------------------
// Statements
// ---------------------------------------------------------------------------

/// A plain assignment of a supported value to names can be checked in a clean
/// scope, and leaves it clean.
pub proof fn lemma_assign_ok(scope: ScopeModel, targets: Seq<ExprModel>, value: ExprModel, i: nat)
    requires
        scope.clean(),
        expr_supported(value),
        forall|j: int| 0 <= j < targets.len() ==> is_target(#[trigger] targets[j]),
    ensures
        assign_from(scope, targets, value, i).ok,
        assign_from(scope, targets, value, i).scope.clean(),
    decreases targets.len() - i,
{
    if i < targets.len() {
        assert(is_target(targets[i as int]));
        match targets[i as int] {
            ExprModel::Name { id, ctx: ExprContext::Store, .. } => {
                lemma_clean_get(scope, id);
                match scope.get_top(id) {
                    Some(Binding { typ, locked: true }) => {
                        lemma_check_ok(scope, value, typ);
                        match check_type(scope, value, typ).result {
                            Some(found) => {
                                lemma_clean_kept(scope, id, unlocked(found));
                                lemma_assign_ok(
                                    scope.set(id, unlocked(found)),
                                    targets,
                                    value,
                                    i + 1,
                                );
                            },
                            None => {},
                        }
                    },
                    _ => {
                        lemma_synth_ok(scope, value);
                        let found = synth_type(scope, value).typ;
                        lemma_clean_kept(scope, id, unlocked(found));
                        lemma_assign_ok(scope.set(id, unlocked(found)), targets, value, i + 1);
                    },
                }
            },
            _ => {},
        }
    }
}

/// What the known modules bind is clean.
pub proof fn lemma_module_bindings_clean(path: Seq<char>)
    ensures
        forall|k: Seq<char>|
            module_bindings(path).contains_key(k) ==> clean(
                #[trigger] module_bindings(path)[k].typ,
            ),
{
    reveal_with_fuel(clean, 3);
    let version = seq![Ty::Literal(Lit::Int(3)), Ty::Literal(Lit::Int(13))];
    assert forall|i: int| 0 <= i < version.len() implies clean(#[trigger] version[i]) by {}
    let params = seq![Ty::Any];
    assert forall|i: int| 0 <= i < params.len() implies clean(#[trigger] params[i]) by {}
}

/// An `import` leaves a clean scope clean.
pub proof fn lemma_import_clean(scope: ScopeModel, names: Seq<AliasModel>, i: nat)
    requires
        scope.clean(),
    ensures
        import_from(scope, names, i).clean(),
    decreases names.len() - i,
{
    if i < names.len() {
        let alias = names[i as int];
        lemma_module_bindings_clean(alias.name);
        let binding = unlocked(Ty::Module(local_name(alias), module_bindings(alias.name)));
        lemma_clean_kept(scope, local_name(alias), binding);
        lemma_import_clean(scope.set(local_name(alias), binding), names, i + 1);
    }
}

/// A `from .. import` out of clean bindings leaves a clean scope clean.
pub proof fn lemma_import_names_clean(
    scope: ScopeModel,
    bindings: Map<Seq<char>, Binding>,
    names: Seq<AliasModel>,
    i: nat,
)
    requires
        scope.clean(),
        forall|k: Seq<char>| bindings.contains_key(k) ==> clean(#[trigger] bindings[k].typ),
    ensures
        import_names_from(scope, bindings, names, i).ok,
        import_names_from(scope, bindings, names, i).scope.clean(),
    decreases names.len() - i,
{
    if i < names.len() {
        let alias = names[i as int];
        if bindings.contains_key(alias.name) {
            lemma_clean_kept(scope, alias.name, bindings[alias.name]);
            lemma_import_names_clean(
                scope.set(alias.name, bindings[alias.name]),
                bindings,
                names,
                i + 1,
            );
        } else {
            lemma_import_names_clean(scope, bindings, names, i + 1);
        }
    }
}

/// Supported `def` parameters can be worked out in a clean scope; they leave it
/// clean, and their types are clean.
pub proof fn lemma_parameters_ok(scope: ScopeModel, params: Seq<ParameterModel>, i: nat)
    requires
        scope.clean(),
        forall|j: int| 0 <= j < params.len() ==> parameter_supported(#[trigger] params[j]),
    ensures
        function_parameters_from(scope, params, i).ok,
        function_parameters_from(scope, params, i).scope.clean(),
        all_clean(function_parameters_from(scope, params, i).types),
    decreases params.len() - i,
{
    if i < params.len() {
        let p = params[i as int];
        assert(parameter_supported(p));
        lemma_annotation_type_ok(scope, p.annotation);
        let declared = annotation_type(scope, p.annotation);
        match p.default {
            Some(d) => {
                lemma_check_ok(scope, d, declared.typ);
            },
            None => {},
        }
        lemma_clean_kept(scope, p.name, unlocked(declared.typ));
        let one = function_parameter(scope, p);
        lemma_parameters_ok(one.scope, params, i + 1);
        let rest = function_parameters_from(one.scope, params, i + 1);
        assert forall|j: int| 0 <= j < (one.types + rest.types).len() implies clean(
            #[trigger] (one.types + rest.types)[j],
        ) by {
            if j >= one.types.len() {
                assert((one.types + rest.types)[j] == rest.types[j - one.types.len()]);
            }
        }
    }
}

/// A supported statement can be checked where every type in reach is clean,
/// and leaves every type in reach clean.
pub proof fn lemma_statement_ok(scope: ScopeModel, data: DataModel, s: StmtModel)
    requires
        scope.clean(),
        data_clean(data),
        stmt_supported(s),
    ensures
        statement_step(scope, data, s).ok,
        statement_step(scope, data, s).scope.clean(),
        data_clean(statement_step(scope, data, s).data),
    decreases s, 0nat,
{
    match s {
        StmtModel::AnnAssign { target, annotation, value, range } => {
            lemma_annotation_type_ok(scope, Some(annotation));
            let declared = annotation_type(scope, Some(annotation));
            match value {
                Some(v) => {
                    lemma_check_ok(scope, v, declared.typ);
                },
                None => {},
            }
            match target {
                ExprModel::Name { id, .. } => {
                    lemma_clean_kept(scope, id, Binding { typ: declared.typ, locked: true });
                },
                _ => {},
            }
        },
        StmtModel::Assign { targets, value, .. } => {
            lemma_assign_ok(scope, targets, value, 0);
        },
        StmtModel::Expr { value, .. } => {
            lemma_synth_ok(scope, value);
        },
        StmtModel::Return { value, range } => {
            match data.return_context {
                Some(context) => match value {
                    Some(v) => {
                        lemma_check_ok(scope, v, context.annotation);
                        let found = match check_type(scope, v, context.annotation).result {
                            Some(t) => t,
                            None => Ty::Unknown,
                        };
                        lemma_push_clean(context.found_types, found);
                    },
                    None => {
                        lemma_push_clean(context.found_types, Ty::NoneType);
                    },
                },
                None => {},
            }
        },
        StmtModel::FunctionDef(def) => {
            lemma_function_signature_ok(scope, data, def);
            let (step, signature) = function_signature(scope, data, def);
            lemma_clean_kept(step.scope, def.name, unlocked(Ty::Function(signature)));
        },
        StmtModel::ClassDef { name, .. } => {
            lemma_clean_kept(
                scope,
                name,
                unlocked(
                    Ty::Class(ClassTy { name, methods: Seq::empty(), fields: Seq::empty() }),
                ),
            );
        },
        StmtModel::Import { names, .. } => {
            lemma_import_clean(scope, names, 0);
        },
        StmtModel::ImportFrom { module: Some(m), names, .. } => {
            lemma_module_bindings_clean(m);
            lemma_import_names_clean(scope, module_bindings(m), names, 0);
        },
        _ => {},
    }
}

/// A supported function definition can be walked where every type in reach is
/// clean; it leaves every type in reach clean, and the signature it gives is
/// clean.
pub proof fn lemma_function_signature_ok(scope: ScopeModel, data: DataModel, def: FunctionDefModel)
    requires
        scope.clean(),
        data_clean(data),
        stmt_supported(StmtModel::FunctionDef(def)),
    ensures
        function_signature(scope, data, def).0.ok,
        function_signature(scope, data, def).0.scope.clean(),
        data_clean(function_signature(scope, data, def).0.data),
        clean(Ty::Function(function_signature(scope, data, def).1)),
    decreases def, 1nat,
{
    lemma_annotation_type_ok(scope, def.returns);
    let expected = annotation_type(scope, def.returns);
    lemma_clean_kept(scope, def.name, unlocked(Ty::Unknown));
    lemma_parameters_ok(scope.pushed(), def.parameters, 0);
    lemma_parameters_keep_frames(scope.pushed(), def.parameters, 0);
    let params = function_parameters_from(scope.pushed(), def.parameters, 0);
    let inside = DataModel {
        return_context: Some(ReturnsModel { annotation: expected.typ, found_types: Seq::empty() }),
        partial_list: data.partial_list,
    };
    lemma_statements_ok(params.scope, inside, def.body, 0);
    lemma_statements_keep_shape(params.scope, inside, def.body, 0);
    let body = statements_from(params.scope, inside, def.body, 0);
    let found = body.data.return_context->0.found_types;
    lemma_clean_union(found);
    lemma_clean_kept(body.scope, def.name, unlocked(Ty::Unknown));
}

/// A run of supported statements can be checked where every type in reach
/// is clean, and leaves every type in reach clean.
pub proof fn lemma_statements_ok(scope: ScopeModel, data: DataModel, body: Seq<StmtModel>, i: nat)
    requires
        scope.clean(),
        data_clean(data),
        all_supported(body),
    ensures
        statements_from(scope, data, body, i).ok,
        statements_from(scope, data, body, i).scope.clean(),
        data_clean(statements_from(scope, data, body, i).data),
    decreases body, body.len() - i,
{
    if i < body.len() {
        assert(stmt_supported(body[i as int]));
        lemma_statement_ok(scope, data, body[i as int]);
        let one = statement_step(scope, data, body[i as int]);
        lemma_statements_ok(one.scope, one.data, body, i + 1);
    }
}

// ---------------------------------------------------------------------------
// Telling whether a program is supported
// ---------------------------------------------------------------------------

fn annotations_ok(es: &Vec<Expr>) -> (r: bool)
    ensures
        r == all_annotations_supported(exprs_model(es@)),
    decreases es,
{
    let mut i: usize = 0;
    while i < es.len()
        invariant
            i <= es.len(),
            forall|j: int| 0 <= j < i ==> annotation_supported(#[trigger] exprs_model(es@)[j]),
        decreases es.len() - i,
    {
        assert(exprs_model(es@)[i as int] == es@[i as int]@);
        if !annotation_ok(&es[i]) {
            return false;
        }
        i += 1;
    }
    true
}

fn slice_ok(slice: &Expr) -> (r: bool)
    ensures
        r == match slice@ {
            ExprModel::Tuple { elts, .. } => forall|i: int|
                0 <= i < elts.len() ==> annotation_supported(#[trigger] elts[i]),
            _ => annotation_supported(slice@),
        },
    decreases slice, 1nat,
{
    match slice {
        Expr::Tuple { elts, .. } => {
            let r = annotations_ok(elts);
            assert(slice@ is Tuple);
            assert(slice@->Tuple_elts == exprs_model(elts@));
            assert(r == all_annotations_supported(slice@->Tuple_elts));
            r
        },
        _ => {
            let r = annotation_ok(slice);
            assert(!(slice@ is Tuple));
            r
        },
    }
}

fn annotation_ok(e: &Expr) -> (r: bool)
    ensures
        r == annotation_supported(e@),
    decreases e, 0nat,
{
    match e {
        Expr::Subscript { value, slice, .. } => annotation_ok(value) && slice_ok(slice),
        Expr::Name { .. } => true,
        Expr::StringLiteral { .. } => true,
        Expr::NumberLiteral { value, .. } => match value {
            Number::Int(_) => true,
            Number::Float(_) => true,
            _ => false,
        },
        Expr::BooleanLiteral { .. } => true,
        Expr::NoneLiteral { .. } => true,
        Expr::EllipsisLiteral { .. } => true,
        _ => false,
    }
}

fn exprs_ok(es: &Vec<Expr>) -> (r: bool)
    ensures
        r == all_exprs_supported(exprs_model(es@)),
    decreases es,
{
    let mut i: usize = 0;
    while i < es.len()
        invariant
            i <= es.len(),
            forall|j: int| 0 <= j < i ==> expr_supported(#[trigger] exprs_model(es@)[j]),
        decreases es.len() - i,
    {
        assert(exprs_model(es@)[i as int] == es@[i as int]@);
        if !expr_ok(&es[i]) {
            return false;
        }
        i += 1;
    }
    true
}

fn first_ok(es: &Vec<Expr>) -> (r: bool)
    ensures
        r == (es.len() > 0 && expr_supported(exprs_model(es@)[0])),
    decreases es,
{
    if es.len() > 0 {
        assert(exprs_model(es@)[0] == es@[0]@);
        expr_ok(&es[0])
    } else {
        false
    }
}

fn lambda_parameter_ok(p: &Parameter) -> (r: bool)
    ensures
        r == lambda_parameter_supported(p@),
    decreases p,
{
    match &p.annotation {
        Some(a) => expr_ok(a),
        None => true,
    }
}

fn lambda_parameters_ok(ps: &Vec<Parameter>) -> (r: bool)
    ensures
        r == all_lambda_parameters_supported(params_model(ps@)),
    decreases ps,
{
    let mut i: usize = 0;
    while i < ps.len()
        invariant
            i <= ps.len(),
            forall|j: int| 0 <= j < i ==> lambda_parameter_supported(
                #[trigger] params_model(ps@)[j],
            ),
        decreases ps.len() - i,
    {
        assert(params_model(ps@)[i as int] == ps@[i as int]@);
        if !lambda_parameter_ok(&ps[i]) {
            return false;
        }
        i += 1;
    }
    true
}

fn expr_ok(e: &Expr) -> (r: bool)
    ensures
        r == expr_supported(e@),
    decreases e,
{
    match e {
        Expr::NoneLiteral { .. } => true,
        Expr::BooleanLiteral { .. } => true,
        Expr::NumberLiteral { value, .. } => match value {
            Number::Int(_) => true,
            Number::Float(_) => true,
            _ => false,
        },
        Expr::StringLiteral { .. } => true,
        Expr::Name { ctx, .. } => *ctx == ExprContext::Load,
        Expr::Lambda { parameters, body, .. } => {
            let params = lambda_parameters_ok(parameters);
            let result = expr_ok(body);
            assert(e@->Lambda_parameters == params_model(parameters@));
            assert(params == all_lambda_parameters_supported(e@->Lambda_parameters));
            params && result
        },
        Expr::Call { func, args, .. } => {
            assert(e@->Call_args == exprs_model(args@));
            if is_reveal_type(func) {
                first_ok(args)
            } else {
                let callee = expr_ok(func);
                let rest = exprs_ok(args);
                assert(rest == all_exprs_supported(e@->Call_args));
                callee && rest
            }
        },
        Expr::Attribute { value, .. } => expr_ok(value),
        Expr::Tuple { elts, .. } => {
            let r = exprs_ok(elts);
            assert(e@->Tuple_elts == exprs_model(elts@));
            assert(r == all_exprs_supported(e@->Tuple_elts));
            r
        },
        _ => false,
    }
}

fn opt_expr_ok(e: &Option<Expr>) -> (r: bool)
    ensures
        r == (opt_expr_model(*e) matches Some(v) ==> expr_supported(v)),
{
    match e {
        Some(v) => expr_ok(v),
        None => true,
    }
}

fn opt_annotation_ok(e: &Option<Expr>) -> (r: bool)
    ensures
        r == (opt_expr_model(*e) matches Some(v) ==> annotation_supported(v)),
{
    match e {
        Some(v) => annotation_ok(v),
        None => true,
    }
}

fn target_ok(e: &Expr) -> (r: bool)
    ensures
        r == is_target(e@),
{
    match e {
        Expr::Name { ctx, .. } => *ctx == ExprContext::Store,
        _ => false,
    }
}

fn targets_ok(es: &Vec<Expr>) -> (r: bool)
    ensures
        r == all_targets(exprs_model(es@)),
{
    let mut i: usize = 0;
    while i < es.len()
        invariant
            i <= es.len(),
            forall|j: int| 0 <= j < i ==> is_target(#[trigger] exprs_model(es@)[j]),
        decreases es.len() - i,
    {
        assert(exprs_model(es@)[i as int] == es@[i as int]@);
        if !target_ok(&es[i]) {
            return false;
        }
        i += 1;
    }
    true
}

fn parameters_ok(ps: &Vec<Parameter>) -> (r: bool)
    ensures
        r == all_parameters_supported(params_model(ps@)),
{
    let mut i: usize = 0;
    while i < ps.len()
        invariant
            i <= ps.len(),
            forall|j: int| 0 <= j < i ==> parameter_supported(#[trigger] params_model(ps@)[j]),
        decreases ps.len() - i,
    {
        assert(params_model(ps@)[i as int] == ps@[i as int]@);
        if !(opt_annotation_ok(&ps[i].annotation) && opt_expr_ok(&ps[i].default)) {
            return false;
        }
        i += 1;
    }
    true
}

fn stmts_ok(body: &Vec<Stmt>) -> (r: bool)
    ensures
        r == all_supported(stmts_model(body@)),
    decreases body,
{
    let mut i: usize = 0;
    while i < body.len()
        invariant
            i <= body.len(),
            forall|j: int| 0 <= j < i ==> stmt_supported(#[trigger] stmts_model(body@)[j]),
        decreases body.len() - i,
    {
        assert(stmts_model(body@)[i as int] == body@[i as int]@);
        if !stmt_ok(&body[i]) {
            return false;
        }
        i += 1;
    }
    true
}

fn function_def_ok(def: &StmtFunctionDef) -> (r: bool)
    ensures
        r == stmt_supported(StmtModel::FunctionDef(def@)),
    decreases def,
{
    let result = opt_annotation_ok(&def.returns);
    let params = parameters_ok(&def.parameters);
    let body = stmts_ok(&def.body);
    assert(def@.parameters == params_model(def.parameters@));
    assert(def@.body == stmts_model(def.body@));
    assert(params == all_parameters_supported(def@.parameters));
    assert(body == all_supported(def@.body));
    result && params && body
}

fn stmt_ok(s: &Stmt) -> (r: bool)
    ensures
        r == stmt_supported(s@),
    decreases s,
{
    match s {
        Stmt::AnnAssign { target, annotation, value, .. } => target_ok(target) && annotation_ok(
            annotation,
        ) && opt_expr_ok(value),
        Stmt::Assign { targets, value, .. } => {
            let names = targets_ok(targets);
            let assigned = expr_ok(value);
            assert(s@->Assign_targets == exprs_model(targets@));
            assert(names == all_targets(s@->Assign_targets));
            names && assigned
        },
        Stmt::Expr { value, .. } => expr_ok(value),
        Stmt::Return { value, .. } => opt_expr_ok(value),
        Stmt::FunctionDef(def) => function_def_ok(def),
        Stmt::ClassDef { .. } => true,
        Stmt::Pass { .. } => true,
        Stmt::Import { .. } => true,
        Stmt::ImportFrom { module, .. } => module.is_some(),
        Stmt::Other { .. } => false,
    }
}

impl Expr {
    /// Whether every form in this expression is one that the expression
    /// rules cover.
    pub fn is_supported(&self) -> (r: bool)
        ensures
            r == expr_supported(self@),
    {
        expr_ok(self)
    }

    /// Whether every form in this expression is one that the annotation
    /// rules cover.
    pub fn is_supported_annotation(&self) -> (r: bool)
        ensures
            r == annotation_supported(self@),
    {
        annotation_ok(self)
    }
}

impl Stmt {
    /// Whether every form in this statement is one that the rules cover.
    pub fn is_supported(&self) -> (r: bool)
        ensures
            r == stmt_supported(self@),
    {
        stmt_ok(self)
    }
}

/// Whether every form in a program is one that the rules cover. Where that
/// is so, the program can be checked from a fresh start.
pub fn is_supported_module(body: &Vec<Stmt>) -> (r: bool)
    ensures
        r == all_supported(stmts_model(body@)),
        r ==> statements_from(
            ScopeModel::empty(),
            DataModel { return_context: None, partial_list: Seq::empty() },
            stmts_model(body@),
            0,
        ).ok,
{
    let r = stmts_ok(body);
    proof {
        if r {
            lemma_clean_kept(
                ScopeModel::empty(),
                Seq::empty(),
                unlocked(Ty::Unknown),
            );
            lemma_statements_ok(
                ScopeModel::empty(),
                DataModel { return_context: None, partial_list: Seq::empty() },
                stmts_model(body@),
                0,
            );
        }
    }
    r
}

/// Whether the types of the return context, if there is one, are clean.
pub fn is_clean_data(data: &StatementSynthData) -> (r: bool)
    ensures
        r == data_clean(data@),
{
    match &data.returns {
        Some(context) => context.annotation.is_clean() && all_are_clean(&context.found_types),
        None => true,
    }
}

/// Work out the type of an expression as [`synth`] does, wherever every
/// form in it is one that the rules cover and every type in reach is
/// clean; else nothing is done and nothing comes back.
pub fn try_synth(info: &mut Info, scope: &Scope, ast: &Expr) -> (r: Option<Type>)
    ensures
        r is Some == (expr_supported(ast@) && scope@.clean()),
        match r {
            Some(t) => {
                &&& t@ == synth_type(scope@, ast@).typ
                &&& final(info)@ == old(info)@.reported(synth_type(scope@, ast@).diags)
                &&& clean(t@)
            },
            None => final(info)@ == old(info)@,
        },
{
    if ast.is_supported() && scope.is_clean() {
        proof {
            lemma_synth_ok(scope@, ast@);
        }
        Some(synth(info, scope, ast))
    } else {
        None
    }
}

/// Check an expression against a type as [`check`] does, wherever every
/// form in it is one that the rules cover and the type and every type in
/// reach are clean; else nothing is done. Says whether the check was made,
/// and what came of it.
pub fn try_check(info: &mut Info, scope: &Scope, ast: &Expr, typ: Type) -> (r: Option<
    Option<Type>,
>)
    ensures
        r is Some == (expr_supported(ast@) && scope@.clean() && clean(typ@)),
        match r {
            Some(found) => {
                &&& opt_type_model(found) == check_type(scope@, ast@, typ@).result
                &&& final(info)@ == old(info)@.reported(check_type(scope@, ast@, typ@).diags)
            },
            None => final(info)@ == old(info)@,
        },
{
    if ast.is_supported() && scope.is_clean() && typ.is_clean() {
        proof {
            lemma_check_ok(scope@, ast@, typ@);
        }
        Some(check(info, scope, ast, typ))
    } else {
        None
    }
}

/// Work out the type that an annotation stands for as [`synth_annotation`]
/// does, wherever every form in it is one that the rules cover and every
/// type in reach is clean; else nothing is done and nothing comes back.
pub fn try_synth_annotation(info: &mut Info, scope: &Scope, maybe_ast: Option<&Expr>) -> (r:
    Option<Type>)
    ensures
        r is Some == ((opt_expr_ref_model(maybe_ast) matches Some(e) ==> annotation_supported(e))
            && scope@.clean()),
        match r {
            Some(t) => {
                &&& t@ == annotation_type(scope@, opt_expr_ref_model(maybe_ast)).typ
                &&& final(info)@ == old(info)@.reported(
                    annotation_type(scope@, opt_expr_ref_model(maybe_ast)).diags,
                )
                &&& clean(t@)
            },
            None => final(info)@ == old(info)@,
        },
{
    let supported = match maybe_ast {
        Some(ast) => ast.is_supported_annotation(),
        None => true,
    };
    if supported && scope.is_clean() {
        proof {
            lemma_annotation_type_ok(scope@, opt_expr_ref_model(maybe_ast));
        }
        Some(synth_annotation(info, scope, maybe_ast))
    } else {
        None
    }
}

/// Check one statement as [`check_statement`] does, wherever every form in
/// it is one that the rules cover and every type in reach is clean; else
/// nothing is done. Says whether the statement was checked.
pub fn try_check_statement(
    info: &mut Info,
    data: &mut StatementSynthData,
    scope: &mut Scope,
    stmt: &Stmt,
) -> (r: bool)
    ensures
        r == (stmt_supported(stmt@) && old(scope)@.clean() && data_clean(old(data)@)),
        r ==> {
            &&& final(scope)@ == statement_step(old(scope)@, old(data)@, stmt@).scope
            &&& final(data)@ == statement_step(old(scope)@, old(data)@, stmt@).data
            &&& final(info)@ == old(info)@.reported(
                statement_step(old(scope)@, old(data)@, stmt@).diags,
            )
            &&& final(scope)@.clean()
            &&& data_clean(final(data)@)
        },
        !r ==> {
            &&& final(scope)@ == old(scope)@
            &&& final(data)@ == old(data)@
            &&& final(info)@ == old(info)@
        },
{
    if stmt.is_supported() && scope.is_clean() && is_clean_data(data) {
        proof {
            lemma_statement_ok(scope@, data@, stmt@);
        }
        check_statement(info, data, scope, stmt);
        true
    } else {
        false
    }
}

} // verus!
