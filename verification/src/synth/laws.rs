use crate::ast::{AliasModel, ExprContext, ExprModel, ParameterModel, StmtModel};
use crate::diagnostics::base::DiagModel;
use crate::scope::ScopeModel;
use crate::state::{DataModel, ReturnsModel};
use crate::synth::annotation::annotation_type;
use crate::synth::expression::{check_type, synth_type};
use crate::synth::statement::{
    assign_from, function_parameter, function_parameters_from, import_from, import_names_from,
    local_name, module_bindings, statement_step, statements_from, unlocked,
};
use crate::types::base::{Binding, Ty};
use crate::types::helpers::subtype;
use vstd::prelude::*;

verus! {

/// An annotated assignment to a name that an earlier annotation has fixed
/// changes nothing in reach, whatever the new annotation says, and the
/// last thing it reports is that the name cannot be given another type.
pub proof fn lemma_annotation_keeps_lock(scope: ScopeModel, data: DataModel, stmt: StmtModel)
    requires
        stmt matches StmtModel::AnnAssign {
            target: ExprModel::Name { id, ctx: ExprContext::Store, .. },
            ..
        } && scope.get_top(id) is Some && scope.get_top(id)->0.locked,
        statement_step(scope, data, stmt).ok,
    ensures
        statement_step(scope, data, stmt).scope == scope,
        statement_step(scope, data, stmt).data == data,
        stmt matches StmtModel::AnnAssign {
            target: ExprModel::Name { id, .. },
            annotation,
            range,
            ..
        } && statement_step(scope, data, stmt).diags.last() == (DiagModel::CantReassignLocked {
            expected: scope.get_top(id)->0.typ,
            got: annotation_type(scope, Some(annotation)).typ,
            name: id,
            range,
        }),
{
}

/// A plain assignment to a name that an annotation has fixed, of a value
/// whose type does not fit the annotation, changes nothing in reach, and
/// the last thing it reports is the mismatch.
pub proof fn lemma_assignment_keeps_lock(
    scope: ScopeModel,
    data: DataModel,
    stmt: StmtModel,
)
    requires
        stmt matches StmtModel::Assign { targets, value, .. } && targets.len() > 0 && (
        targets[0] matches ExprModel::Name { id, ctx: ExprContext::Store, .. } && scope.get_top(id)
            is Some && scope.get_top(id)->0.locked && !subtype(
            synth_type(scope, value).typ,
            scope.get_top(id)->0.typ,
        )),
        statement_step(scope, data, stmt).ok,
    ensures
        statement_step(scope, data, stmt).scope == scope,
        statement_step(scope, data, stmt).data == data,
        stmt matches StmtModel::Assign { targets, value, .. } && (
        targets[0] matches ExprModel::Name { id, .. } && statement_step(
            scope,
            data,
            stmt,
        ).diags.last() == (DiagModel::ExpectedButGot {
            expected: scope.get_top(id)->0.typ,
            got: synth_type(scope, value).typ,
            range: value.range(),
        })),
{
}

/// No statement enters or leaves a frame for good, none makes or drops the
/// return context, and none queues a name: a function body is walked in a
/// frame and a context of its own, both are gone when the definition is
/// done, and the signature that comes of it is complete.
pub proof fn lemma_statement_keeps_shape(scope: ScopeModel, data: DataModel, stmt: StmtModel)
    requires
        statement_step(scope, data, stmt).ok,
    ensures
        statement_step(scope, data, stmt).scope.frames.len() == scope.frames.len(),
        (statement_step(scope, data, stmt).data.return_context is Some) == (data.return_context
            is Some),
        statement_step(scope, data, stmt).data.partial_list == data.partial_list,
    decreases stmt, 0nat,
{
    match stmt {
        StmtModel::Assign { targets, value, .. } => {
            lemma_assign_keeps_frames(scope, targets, value, 0);
        },
        StmtModel::FunctionDef(def) => {
            let expected = annotation_type(scope, def.returns);
            let params = function_parameters_from(scope.pushed(), def.parameters, 0);
            lemma_parameters_keep_frames(scope.pushed(), def.parameters, 0);
            let inside = DataModel {
                return_context: Some(
                    ReturnsModel {
                        annotation: expected.typ,
                        found_types: Seq::empty(),
                    },
                ),
                partial_list: data.partial_list,
            };
            lemma_statements_keep_shape(params.scope, inside, def.body, 0);
        },
        StmtModel::Import { names, .. } => {
            lemma_import_keeps_frames(scope, names, 0);
        },
        StmtModel::ImportFrom { module: Some(m), names, .. } => {
            lemma_import_names_keep_frames(
                scope,
                module_bindings(m),
                names,
                0,
            );
        },
        _ => {},
    }
}

/// A run of statements leaves the number of frames and the presence of a
/// return context as they are.
pub proof fn lemma_statements_keep_shape(
    scope: ScopeModel,
    data: DataModel,
    body: Seq<StmtModel>,
    i: nat,
)
    requires
        statements_from(scope, data, body, i).ok,
    ensures
        statements_from(scope, data, body, i).scope.frames.len() == scope.frames.len(),
        (statements_from(scope, data, body, i).data.return_context is Some) == (
        data.return_context is Some),
        statements_from(scope, data, body, i).data.partial_list == data.partial_list,
    decreases body, body.len() - i,
{
    if i < body.len() {
        let one = statement_step(scope, data, body[i as int]);
        lemma_statement_keeps_shape(scope, data, body[i as int]);
        lemma_statements_keep_shape(one.scope, one.data, body, i + 1);
    }
}

/// A plain assignment leaves the number of frames as it is.
pub proof fn lemma_assign_keeps_frames(
    scope: ScopeModel,
    targets: Seq<ExprModel>,
    value: ExprModel,
    i: nat,
)
    requires
        assign_from(scope, targets, value, i).ok,
    ensures
        assign_from(scope, targets, value, i).scope.frames.len() == scope.frames.len(),
    decreases targets.len() - i,
{
    if i < targets.len() {
        match targets[i as int] {
            ExprModel::Name { id, ctx: ExprContext::Store, .. } => match scope.get_top(id) {
                Some(Binding { typ, locked: true }) => {
                    let checked = check_type(scope, value, typ);
                    match checked.result {
                        None => {},
                        Some(found) => {
                            lemma_assign_keeps_frames(
                                scope.set(id, unlocked(found)),
                                targets,
                                value,
                                i + 1,
                            );
                        },
                    }
                },
                _ => {
                    let found = synth_type(scope, value);
                    lemma_assign_keeps_frames(
                        scope.set(id, unlocked(found.typ)),
                        targets,
                        value,
                        i + 1,
                    );
                },
            },
            _ => {},
        }
    }
}

/// Binding the parameters of a function leaves the number of frames as it is.
pub proof fn lemma_parameters_keep_frames(
    scope: ScopeModel,
    params: Seq<ParameterModel>,
    i: nat,
)
    requires
        function_parameters_from(scope, params, i).ok,
    ensures
        function_parameters_from(scope, params, i).scope.frames.len() == scope.frames.len(),
    decreases params.len() - i,
{
    if i < params.len() {
        let one = function_parameter(scope, params[i as int]);
        lemma_parameters_keep_frames(one.scope, params, i + 1);
    }
}

/// An `import` leaves the number of frames as it is.
pub proof fn lemma_import_keeps_frames(
    scope: ScopeModel,
    names: Seq<AliasModel>,
    i: nat,
)
    ensures
        import_from(scope, names, i).frames.len() == scope.frames.len(),
    decreases names.len() - i,
{
    if i < names.len() {
        lemma_import_keeps_frames(
            scope.set(
                local_name(names[i as int]),
                unlocked(
                    Ty::Module(
                        local_name(names[i as int]),
                        module_bindings(names[i as int].name),
                    ),
                ),
            ),
            names,
            i + 1,
        );
    }
}

/// A `from .. import` leaves the number of frames as it is.
pub proof fn lemma_import_names_keep_frames(
    scope: ScopeModel,
    bindings: Map<Seq<char>, Binding>,
    names: Seq<AliasModel>,
    i: nat,
)
    ensures
        import_names_from(scope, bindings, names, i).scope.frames.len() == scope.frames.len(),
    decreases names.len() - i,
{
    if i < names.len() {
        let alias = names[i as int];
        if bindings.contains_key(alias.name) {
            lemma_import_names_keep_frames(
                scope.set(alias.name, bindings[alias.name]),
                bindings,
                names,
                i + 1,
            );
        } else {
            lemma_import_names_keep_frames(scope, bindings, names, i + 1);
        }
    }
}

} // verus!
