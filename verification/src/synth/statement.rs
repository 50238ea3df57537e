use crate::ast::{
    aliases_model, exprs_model, opt_expr_model, params_model, stmts_model, Alias, AliasModel, Expr,
    ExprContext, ExprModel, FunctionDefModel, Parameter, ParameterModel, Stmt, StmtFunctionDef,
    StmtModel,
};
use crate::diagnostics::base::DiagModel;
use crate::diagnostics::custom::{CantReassignLockedDiag, NotInScopeDiag};
use crate::diagnostics::reporter::Diag;
use crate::diagnostics::Diagnostic;
use crate::scope::{Scope, ScopeModel};
use crate::span::TextRange;
use crate::state::{
    lemma_reported_more, lemma_reported_nothing, DataModel, Info, PartialItem, ReturnsModel,
    StatementSynthData, StatementSynthDataReturn,
};
use crate::synth::annotation::{annotation_type, is_text, synth_annotation};
use crate::synth::expression::{check, check_type, parameter_names, synth, synth_type, Check};
use crate::types::base::{
    assoc_map, bindings_model, entries_model, strings_model, type_model, types_model, Binding,
    Class, ClassTy, FnTy, Function, Lit, PartialFunction, ScopedType, Ty, Type, TypeLiteral,
};
use crate::types::compare::bindings_find;
use crate::types::helpers::{union, union_defined, union_of};
use vstd::pervasive::unreached;
use vstd::prelude::*;
use vstd::string::StringExecFns;

verus! {

/// What a statement does to the names in reach: the names afterwards, the
/// findings made on the way, and whether every form met on the way was one
/// that has a rule.
pub struct ScopeStep {
    pub scope: ScopeModel,
    pub diags: Seq<DiagModel>,
    pub ok: bool,
}

/// What a statement does: to the names in reach and to what the checker
/// carries along, with the findings made on the way.
pub struct Step {
    pub scope: ScopeModel,
    pub data: DataModel,
    pub diags: Seq<DiagModel>,
    pub ok: bool,
}

/// What working out a function's parameters gives: the names in reach with
/// the parameters bound, and the parameters' types.
pub struct ParametersStep {
    pub scope: ScopeModel,
    pub types: Seq<Ty>,
    pub diags: Seq<DiagModel>,
    pub ok: bool,
}

impl ScopeStep {
    /// The step that met a form without a rule.
    pub open spec fn abort(scope: ScopeModel) -> ScopeStep {
        ScopeStep { scope, diags: Seq::empty(), ok: false }
    }
}

impl Step {
    /// The step that met a form without a rule.
    pub open spec fn abort(scope: ScopeModel, data: DataModel) -> Step {
        Step { scope, data, diags: Seq::empty(), ok: false }
    }

    /// A step that leaves alone what the checker carries along.
    pub open spec fn of_scope(step: ScopeStep, data: DataModel) -> Step {
        Step { scope: step.scope, data, diags: step.diags, ok: step.ok }
    }
}

/// A binding that a later annotation may still replace.
pub open spec fn unlocked(typ: Ty) -> Binding {
    Binding { typ, locked: false }
}

/// The error for a `return` that stands in no function.
pub open spec fn return_outside_function(range: TextRange) -> DiagModel {
    DiagModel::error("Can't return outside of function."@, range)
}

/// What the module of the given name binds. Only `sys` and `typing` bind
/// anything.
pub open spec fn module_bindings(path: Seq<char>) -> Map<Seq<char>, Binding> {
    if path == "sys"@ {
        Map::empty().insert(
            "version_info"@,
            unlocked(Ty::Tuple(seq![Ty::Literal(Lit::Int(3)), Ty::Literal(Lit::Int(13))])),
        )
    } else if path == "typing"@ {
        Map::empty().insert(
            "reveal_type"@,
            unlocked(
                Ty::Function(
                    FnTy { params: seq![Ty::Any], names: seq!["obj"@], ret: Box::new(Ty::Any) },
                ),
            ),
        )
    } else {
        Map::empty()
    }
}

/// An annotated assignment: the annotation gives the type, the value is
/// checked against it, and the name is bound to that type for good, unless
/// an earlier annotation has done so already.
pub open spec fn ann_assign_step(
    scope: ScopeModel,
    target: ExprModel,
    annotation: ExprModel,
    value: Option<ExprModel>,
    range: TextRange,
) -> ScopeStep {
    let declared = annotation_type(scope, Some(annotation));
    if !declared.ok {
        ScopeStep::abort(scope)
    } else {
        let checked = match value {
            Some(v) => check_type(scope, v, declared.typ),
            None => Check { result: None, diags: Seq::empty(), ok: true },
        };
        if !checked.ok {
            ScopeStep::abort(scope)
        } else {
            match target {
                ExprModel::Name { id, ctx: ExprContext::Store, .. } => match scope.get_top(id) {
                    Some(Binding { typ, locked: true }) => ScopeStep {
                        scope,
                        diags: declared.diags + checked.diags + seq![
                            DiagModel::CantReassignLocked {
                                expected: typ,
                                got: declared.typ,
                                name: id,
                                range,
                            },
                        ],
                        ok: true,
                    },
                    _ => ScopeStep {
                        scope: scope.set(id, Binding { typ: declared.typ, locked: true }),
                        diags: declared.diags + checked.diags,
                        ok: true,
                    },
                },
                _ => ScopeStep::abort(scope),
            }
        }
    }
}

/// A plain assignment to the targets from position `i` on. A target whose
/// name an annotation has fixed takes the value only if its type fits, and
/// the statement ends where it does not; any other target takes the value
/// with the type worked out for it.
pub open spec fn assign_from(
    scope: ScopeModel,
    targets: Seq<ExprModel>,
    value: ExprModel,
    i: nat,
) -> ScopeStep
    decreases targets.len() - i,
{
    if i >= targets.len() {
        ScopeStep { scope, diags: Seq::empty(), ok: true }
    } else {
        match targets[i as int] {
            ExprModel::Name { id, ctx: ExprContext::Store, .. } => match scope.get_top(id) {
                Some(Binding { typ, locked: true }) => {
                    let checked = check_type(scope, value, typ);
                    if !checked.ok {
                        ScopeStep::abort(scope)
                    } else {
                        match checked.result {
                            None => ScopeStep { scope, diags: checked.diags, ok: true },
                            Some(found) => {
                                let rest = assign_from(
                                    scope.set(id, unlocked(found)),
                                    targets,
                                    value,
                                    i + 1,
                                );
                                ScopeStep {
                                    scope: rest.scope,
                                    diags: checked.diags + rest.diags,
                                    ok: rest.ok,
                                }
                            },
                        }
                    }
                },
                _ => {
                    let found = synth_type(scope, value);
                    if !found.ok {
                        ScopeStep::abort(scope)
                    } else {
                        let rest = assign_from(
                            scope.set(id, unlocked(found.typ)),
                            targets,
                            value,
                            i + 1,
                        );
                        ScopeStep {
                            scope: rest.scope,
                            diags: found.diags + rest.diags,
                            ok: rest.ok,
                        }
                    }
                },
            },
            _ => ScopeStep::abort(scope),
        }
    }
}

/// A `return`: outside a function an error; inside, the value is checked
/// against the declared type, and its type (`Unknown` where it does not
/// fit, `None` where there is no value) joins the types found so far.
pub open spec fn return_step(
    scope: ScopeModel,
    data: DataModel,
    value: Option<ExprModel>,
    range: TextRange,
) -> Step {
    match data.return_context {
        None => Step { scope, data, diags: seq![return_outside_function(range)], ok: true },
        Some(context) => match value {
            None => Step {
                scope,
                data: DataModel {
                    return_context: Some(
                        ReturnsModel {
                            annotation: context.annotation,
                            found_types: context.found_types.push(Ty::NoneType),
                        },
                    ),
                    partial_list: data.partial_list,
                },
                diags: Seq::empty(),
                ok: true,
            },
            Some(v) => {
                let checked = check_type(scope, v, context.annotation);
                Step {
                    scope,
                    data: DataModel {
                        return_context: Some(
                            ReturnsModel {
                                annotation: context.annotation,
                                found_types: context.found_types.push(
                                    match checked.result {
                                        Some(found) => found,
                                        None => Ty::Unknown,
                                    },
                                ),
                            },
                        ),
                        partial_list: data.partial_list,
                    },
                    diags: checked.diags,
                    ok: checked.ok,
                }
            },
        },
    }
}

/// The name under which an imported module is bound, which is also the name
/// the module type carries: the alias, or the module's own name without one.
pub open spec fn local_name(alias: AliasModel) -> Seq<char> {
    match alias.asname {
        Some(n) => n,
        None => alias.name,
    }
}

/// An `import` of the modules from position `i` on: each is bound as a
/// module type with the bindings of the module it names.
pub open spec fn import_from(scope: ScopeModel, names: Seq<AliasModel>, i: nat) -> ScopeModel
    decreases names.len() - i,
{
    if i >= names.len() {
        scope
    } else {
        import_from(
            scope.set(
                local_name(names[i as int]),
                unlocked(
                    Ty::Module(local_name(names[i as int]), module_bindings(names[i as int].name)),
                ),
            ),
            names,
            i + 1,
        )
    }
}

/// A `from .. import` of the names from position `i` on: each name that the
/// module binds is bound to the same here; each other is an error.
pub open spec fn import_names_from(
    scope: ScopeModel,
    bindings: Map<Seq<char>, Binding>,
    names: Seq<AliasModel>,
    i: nat,
) -> ScopeStep
    decreases names.len() - i,
{
    if i >= names.len() {
        ScopeStep { scope, diags: Seq::empty(), ok: true }
    } else {
        let alias = names[i as int];
        if bindings.contains_key(alias.name) {
            import_names_from(scope.set(alias.name, bindings[alias.name]), bindings, names, i + 1)
        } else {
            let rest = import_names_from(scope, bindings, names, i + 1);
            ScopeStep {
                scope: rest.scope,
                diags: seq![DiagModel::NotInScope { name: alias.name, range: alias.range }]
                    + rest.diags,
                ok: true,
            }
        }
    }
}

/// One parameter of a `def`: its annotation gives the type under which the
/// name is bound in the body; its default, where it has one, is checked
/// against that type and gives the parameter's type in the signature.
pub open spec fn function_parameter(scope: ScopeModel, p: ParameterModel) -> ParametersStep {
    let declared = annotation_type(scope, p.annotation);
    if !declared.ok {
        ParametersStep { scope, types: Seq::empty(), diags: Seq::empty(), ok: false }
    } else {
        let bound = scope.set(p.name, unlocked(declared.typ));
        match p.default {
            None => ParametersStep {
                scope: bound,
                types: seq![declared.typ],
                diags: declared.diags,
                ok: true,
            },
            Some(d) => {
                let checked = check_type(scope, d, declared.typ);
                ParametersStep {
                    scope: bound,
                    types: seq![
                        match checked.result {
                            Some(found) => found,
                            None => Ty::Unknown,
                        },
                    ],
                    diags: declared.diags + checked.diags,
                    ok: checked.ok,
                }
            },
        }
    }
}

/// The parameters of a `def` from position `i` on, each worked out with the
/// parameters before it bound.
pub open spec fn function_parameters_from(
    scope: ScopeModel,
    params: Seq<ParameterModel>,
    i: nat,
) -> ParametersStep
    decreases params.len() - i,
{
    if i >= params.len() {
        ParametersStep { scope, types: Seq::empty(), diags: Seq::empty(), ok: true }
    } else {
        let one = function_parameter(scope, params[i as int]);
        if !one.ok {
            ParametersStep { scope, types: Seq::empty(), diags: Seq::empty(), ok: false }
        } else {
            let rest = function_parameters_from(one.scope, params, i + 1);
            ParametersStep {
                scope: rest.scope,
                types: one.types + rest.types,
                diags: one.diags + rest.diags,
                ok: rest.ok,
            }
        }
    }
}

/// What a statement does.
pub open spec fn statement_step(scope: ScopeModel, data: DataModel, s: StmtModel) -> Step
    decreases s, 0nat,
{
    match s {
        StmtModel::AnnAssign { target, annotation, value, range } => Step::of_scope(
            ann_assign_step(scope, target, annotation, value, range),
            data,
        ),
        StmtModel::Assign { targets, value, .. } => Step::of_scope(
            assign_from(scope, targets, value, 0),
            data,
        ),
        StmtModel::Expr { value, .. } => {
            let found = synth_type(scope, value);
            Step { scope, data, diags: found.diags, ok: found.ok }
        },
        StmtModel::Return { value, range } => return_step(scope, data, value, range),
        StmtModel::FunctionDef(def) => function_def_step(scope, data, def),
        StmtModel::ClassDef { name, .. } => Step {
            scope: scope.set(
                name,
                unlocked(Ty::Class(ClassTy { name, methods: Seq::empty(), fields: Seq::empty() })),
            ),
            data,
            diags: Seq::empty(),
            ok: true,
        },
        StmtModel::Pass { .. } => Step { scope, data, diags: Seq::empty(), ok: true },
        StmtModel::Import { names, .. } => Step {
            scope: import_from(scope, names, 0),
            data,
            diags: Seq::empty(),
            ok: true,
        },
        StmtModel::ImportFrom { module: Some(m), names, .. } => Step::of_scope(
            import_names_from(scope, module_bindings(m), names, 0),
            data,
        ),
        _ => Step::abort(scope, data),
    }
}

/// What the body of a function does with its parameters bound: the
/// signature that the definition gives the function.
///
/// The return annotation is read outside the function's frame, the
/// parameters inside it. The body is walked with a fresh return context;
/// the types found at its `return`s, joined in a union, give the result.
pub open spec fn function_signature(scope: ScopeModel, data: DataModel, def: FunctionDefModel) -> (
    Step,
    FnTy,
)
    decreases def, 1nat,
{
    let expected = annotation_type(scope, def.returns);
    let unknown = FnTy { params: Seq::empty(), names: Seq::empty(), ret: Box::new(Ty::Unknown) };
    if !expected.ok {
        (Step::abort(scope, data), unknown)
    } else {
        let params = function_parameters_from(scope.pushed(), def.parameters, 0);
        if !params.ok {
            (Step::abort(scope, data), unknown)
        } else {
            let inside = DataModel {
                return_context: Some(
                    ReturnsModel { annotation: expected.typ, found_types: Seq::empty() },
                ),
                partial_list: data.partial_list,
            };
            let body = statements_from(params.scope, inside, def.body, 0);
            if !body.ok || body.data.return_context is None {
                (Step::abort(scope, data), unknown)
            } else {
                let found = body.data.return_context->0.found_types;
                (
                    Step {
                        scope: body.scope.popped(),
                        data: DataModel {
                            return_context: data.return_context,
                            partial_list: body.data.partial_list,
                        },
                        diags: expected.diags + params.diags + body.diags,
                        ok: union_defined(found),
                    },
                    FnTy {
                        params: params.types,
                        names: parameter_names(def.parameters),
                        ret: Box::new(union_of(found)),
                    },
                )
            }
        }
    }
}

/// A function definition: its body is walked in a frame of its own, and
/// the function's name is bound to the signature that comes of it.
pub open spec fn function_def_step(
    scope: ScopeModel,
    data: DataModel,
    def: FunctionDefModel,
) -> Step
    decreases def, 2nat,
{
    let (step, signature) = function_signature(scope, data, def);
    Step {
        scope: step.scope.set(def.name, unlocked(Ty::Function(signature))),
        data: step.data,
        diags: step.diags,
        ok: step.ok,
    }
}

/// What the statements of `body` from position `i` on do, one after another.
pub open spec fn statements_from(
    scope: ScopeModel,
    data: DataModel,
    body: Seq<StmtModel>,
    i: nat,
) -> Step
    decreases body, body.len() - i,
{
    if i >= body.len() {
        Step { scope, data, diags: Seq::empty(), ok: true }
    } else {
        let one = statement_step(scope, data, body[i as int]);
        if !one.ok {
            Step::abort(scope, data)
        } else {
            let rest = statements_from(one.scope, one.data, body, i + 1);
            Step {
                scope: rest.scope,
                data: rest.data,
                diags: one.diags + rest.diags,
                ok: rest.ok,
            }
        }
    }
}

// ---------------------------------------------------------------------------
// Working it out
// ---------------------------------------------------------------------------

/// What the module of the given name binds. The table is fixed: `sys` has
/// its `version_info`, `typing` its `reveal_type`, and no other module
/// binds anything.
pub fn load_module(path: &String) -> (r: Vec<(String, ScopedType)>)
    ensures
        bindings_model(r@) == module_bindings(path@),
{
    let mut module: Vec<(String, ScopedType)> = Vec::new();
    proof {
        reveal_with_fuel(assoc_map, 2);
        reveal_with_fuel(type_model, 3);
    }
    if is_text(path, "sys") {
        let mut members: Vec<Type> = Vec::new();
        members.push(Type::Literal(TypeLiteral::IntLiteral(3)));
        members.push(Type::Literal(TypeLiteral::IntLiteral(13)));
        assert(types_model(members@) =~= seq![Ty::Literal(Lit::Int(3)), Ty::Literal(Lit::Int(13))]);
        module.push((String::from_str("version_info"), ScopedType::new(Type::Tuple(members))));
        assert(entries_model(module@).drop_last() =~= Seq::empty());
    } else if is_text(path, "typing") {
        let mut args: Vec<Type> = Vec::new();
        args.push(Type::Any);
        let mut arg_names: Vec<String> = Vec::new();
        arg_names.push(String::from_str("obj"));
        assert(types_model(args@) =~= seq![Ty::Any]);
        assert(strings_model(arg_names@) =~= seq!["obj"@]);
        module.push(
            (
                String::from_str("reveal_type"),
                ScopedType::new(Type::Function(Function::new(args, arg_names, Type::Any))),
            ),
        );
        assert(entries_model(module@).drop_last() =~= Seq::empty());
    }
    module
}

fn check_ann_assign(
    info: &mut Info,
    scope: &mut Scope,
    target: &Expr,
    annotation: &Expr,
    value: &Option<Expr>,
    range: TextRange,
)
    requires
        ann_assign_step(old(scope)@, target@, annotation@, opt_expr_model(*value), range).ok,
    ensures
        final(scope)@ == ann_assign_step(
            old(scope)@,
            target@,
            annotation@,
            opt_expr_model(*value),
            range,
        ).scope,
        final(info)@ == old(info)@.reported(
            ann_assign_step(old(scope)@, target@, annotation@, opt_expr_model(*value), range).diags,
        ),
        final(scope)@.frames.len() == old(scope)@.frames.len(),
{
    let ghost declared = annotation_type(scope@, Some(annotation@));
    let annotation = synth_annotation(info, scope, Some(annotation));
    let ghost mut found: Seq<DiagModel> = Seq::empty();
    proof {
        lemma_reported_nothing(info@);
    }
    match value {
        Some(v) => {
            proof {
                found = check_type(scope@, v@, declared.typ).diags;
            }
            check(info, scope, v, annotation.clone());
        },
        None => {},
    }
    proof {
        lemma_reported_more(old(info)@, declared.diags, found);
    }
    match target {
        Expr::Name { id, ctx, .. } => {
            if *ctx != ExprContext::Store {
                return unreached();
            }
            match scope.get_top_ref(id) {
                Some(scoped) => {
                    if scoped.is_locked {
                        proof {
                            lemma_reported_more(
                                old(info)@,
                                declared.diags + found,
                                seq![
                                    DiagModel::CantReassignLocked {
                                        expected: scoped.typ@,
                                        got: annotation@,
                                        name: id@,
                                        range,
                                    },
                                ],
                            );
                        }
                        info.report(
                            Diag::CantReassignLocked(
                                CantReassignLockedDiag::new(
                                    scoped.typ.clone(),
                                    annotation,
                                    id.clone(),
                                    range,
                                ),
                            ),
                        );
                        return ;
                    }
                },
                None => {},
            }
            scope.set(id.clone(), ScopedType::locked(annotation));
        },
        _ => unreached(),
    }
}

fn check_assign(info: &mut Info, scope: &mut Scope, targets: &Vec<Expr>, value: &Expr)
    requires
        assign_from(old(scope)@, exprs_model(targets@), value@, 0).ok,
    ensures
        final(scope)@ == assign_from(old(scope)@, exprs_model(targets@), value@, 0).scope,
        final(info)@ == old(info)@.reported(
            assign_from(old(scope)@, exprs_model(targets@), value@, 0).diags,
        ),
        final(scope)@.frames.len() == old(scope)@.frames.len(),
{
    let ghost ts = exprs_model(targets@);
    let ghost whole = assign_from(scope@, ts, value@, 0);
    let ghost mut done: Seq<DiagModel> = Seq::empty();
    let mut i: usize = 0;
    proof {
        lemma_reported_nothing(info@);
        assert(done + whole.diags =~= whole.diags);
    }
    while i < targets.len()
        invariant
            i <= targets.len(),
            ts == exprs_model(targets@),
            info@ == old(info)@.reported(done),
            whole == assign_from(old(scope)@, ts, value@, 0),
            assign_from(scope@, ts, value@, i as nat).ok,
            whole.scope == assign_from(scope@, ts, value@, i as nat).scope,
            whole.diags == done + assign_from(scope@, ts, value@, i as nat).diags,
            scope@.frames.len() == old(scope)@.frames.len(),
        decreases targets.len() - i,
    {
        assert(ts[i as int] == targets@[i as int]@);
        let ghost before = scope@;
        let (name, typ) = match &targets[i] {
            Expr::Name { id, ctx, .. } => {
                if *ctx != ExprContext::Store {
                    return unreached();
                }
                let locked_type = match scope.get_top_ref(id) {
                    Some(scoped) => if scoped.is_locked {
                        Some(scoped.typ.clone())
                    } else {
                        None
                    },
                    None => None,
                };
                let typ = match locked_type {
                    // A variable may be assigned a value of another type, unless it is locked
                    Some(locked) => {
                        let ghost checked = check_type(before, value@, locked@);
                        let checked_type = check(info, scope, value, locked);
                        proof {
                            lemma_reported_more(old(info)@, done, checked.diags);
                        }
                        match checked_type {
                            Some(typ) => {
                                proof {
                                    let rest = assign_from(
                                        before.set(id@, unlocked(typ@)),
                                        ts,
                                        value@,
                                        (i + 1) as nat,
                                    );
                                    assert(done + (checked.diags + rest.diags) =~= (done
                                        + checked.diags) + rest.diags);
                                    done = done + checked.diags;
                                }
                                typ
                            },
                            None => {
                                return ;
                            },
                        }
                    },
                    None => {
                        let ghost found = synth_type(before, value@);
                        let typ = synth(info, scope, value);
                        proof {
                            lemma_reported_more(old(info)@, done, found.diags);
                            let rest = assign_from(
                                before.set(id@, unlocked(typ@)),
                                ts,
                                value@,
                                (i + 1) as nat,
                            );
                            assert(done + (found.diags + rest.diags) =~= (done + found.diags)
                                + rest.diags);
                            done = done + found.diags;
                        }
                        typ
                    },
                };
                (id.clone(), typ)
            },
            _ => {
                return unreached();
            },
        };
        scope.set(name, ScopedType::new(typ));
        i += 1;
    }
    proof {
        assert(done + Seq::<DiagModel>::empty() =~= done);
    }
}

fn check_return(
    info: &mut Info,
    data: &mut StatementSynthData,
    scope: &Scope,
    value: &Option<Expr>,
    range: TextRange,
)
    requires
        return_step(scope@, old(data)@, opt_expr_model(*value), range).ok,
    ensures
        final(data)@ == return_step(scope@, old(data)@, opt_expr_model(*value), range).data,
        final(info)@ == old(info)@.reported(
            return_step(scope@, old(data)@, opt_expr_model(*value), range).diags,
        ),
        (final(data)@.return_context is Some) == (old(data)@.return_context is Some),
{
    proof {
        lemma_reported_nothing(info@);
    }
    let mut taken: Option<StatementSynthDataReturn> = None;
    std::mem::swap(&mut taken, &mut data.returns);
    match taken {
        None => {
            info.report(
                Diag::Diagnostic(
                    Diagnostic::error(String::from_str("Can't return outside of function."), range),
                ),
            );
        },
        Some(context) => {
            let mut context = context;
            let ret = match value {
                Some(v) => match check(info, scope, v, context.annotation.clone()) {
                    Some(found) => found,
                    None => Type::Unknown,
                },
                None => Type::NoneType,
            };
            proof {
                assert(types_model(context.found_types@.push(ret)) =~= types_model(
                    context.found_types@,
                ).push(ret@));
            }
            context.found_types.push(ret);
            data.returns = Some(context);
        },
    }
}

fn check_import(scope: &mut Scope, names: &Vec<Alias>)
    ensures
        final(scope)@ == import_from(old(scope)@, aliases_model(names@), 0),
        final(scope)@.frames.len() == old(scope)@.frames.len(),
{
    let ghost ns = aliases_model(names@);
    let mut i: usize = 0;
    while i < names.len()
        invariant
            i <= names.len(),
            ns == aliases_model(names@),
            import_from(old(scope)@, ns, 0) == import_from(scope@, ns, i as nat),
            scope@.frames.len() == old(scope)@.frames.len(),
        decreases names.len() - i,
    {
        let alias = &names[i];
        let module = load_module(&alias.name);
        let local = match &alias.asname {
            Some(n) => n.clone(),
            None => alias.name.clone(),
        };
        proof {
            reveal_with_fuel(type_model, 2);
        }
        scope.set(local.clone(), ScopedType::new(Type::Module(local, module)));
        i += 1;
    }
}

fn check_import_from(
    info: &mut Info,
    scope: &mut Scope,
    module: &String,
    names: &Vec<Alias>,
)
    ensures
        final(scope)@ == import_names_from(
            old(scope)@,
            module_bindings(module@),
            aliases_model(names@),
            0,
        ).scope,
        final(info)@ == old(info)@.reported(
            import_names_from(
                old(scope)@,
                module_bindings(module@),
                aliases_model(names@),
                0,
            ).diags,
        ),
        final(scope)@.frames.len() == old(scope)@.frames.len(),
{
    let bindings = load_module(module);
    let ghost table = module_bindings(module@);
    let ghost ns = aliases_model(names@);
    let ghost whole = import_names_from(scope@, table, ns, 0);
    let ghost mut done: Seq<DiagModel> = Seq::empty();
    let mut i: usize = 0;
    proof {
        lemma_reported_nothing(info@);
        assert(done + whole.diags =~= whole.diags);
    }
    while i < names.len()
        invariant
            i <= names.len(),
            ns == aliases_model(names@),
            table == bindings_model(bindings@),
            info@ == old(info)@.reported(done),
            whole == import_names_from(old(scope)@, table, ns, 0),
            whole.scope == import_names_from(scope@, table, ns, i as nat).scope,
            whole.diags == done + import_names_from(scope@, table, ns, i as nat).diags,
            scope@.frames.len() == old(scope)@.frames.len(),
        decreases names.len() - i,
    {
        let alias = &names[i];
        match bindings_find(&bindings, &alias.name) {
            Some(j) => {
                scope.set(alias.name.clone(), bindings[j].1.clone());
            },
            None => {
                let ghost missing = seq![
                    DiagModel::NotInScope { name: alias.name@, range: alias.range },
                ];
                proof {
                    lemma_reported_more(old(info)@, done, missing);
                    let rest = import_names_from(scope@, table, ns, (i + 1) as nat);
                    assert(done + (missing + rest.diags) =~= (done + missing) + rest.diags);
                    done = done + missing;
                }
                info.report(Diag::NotInScope(NotInScopeDiag::new(alias.name.clone(), alias.range)));
            },
        }
        i += 1;
    }
    proof {
        assert(done + Seq::<DiagModel>::empty() =~= done);
    }
}

fn check_parameter(info: &mut Info, scope: &mut Scope, p: &Parameter) -> (r: Type)
    requires
        function_parameter(old(scope)@, p@).ok,
    ensures
        seq![r@] == function_parameter(old(scope)@, p@).types,
        final(scope)@ == function_parameter(old(scope)@, p@).scope,
        final(info)@ == old(info)@.reported(function_parameter(old(scope)@, p@).diags),
        final(scope)@.frames.len() == old(scope)@.frames.len(),
{
    let ghost declared = annotation_type(scope@, p@.annotation);
    let annotation = synth_annotation(info, scope, p.annotation.as_ref());
    let typ = match &p.default {
        Some(default) => {
            let ghost checked = check_type(scope@, default@, declared.typ);
            proof {
                lemma_reported_more(old(info)@, declared.diags, checked.diags);
            }
            match check(info, scope, default, annotation.clone()) {
                Some(t) => t,
                None => Type::Unknown,
            }
        },
        None => annotation.clone(),
    };
    scope.set(p.name.clone(), ScopedType::new(annotation));
    typ
}

fn check_parameters(info: &mut Info, scope: &mut Scope, params: &Vec<Parameter>) -> (r: (
    Vec<Type>,
    Vec<String>,
))
    requires
        function_parameters_from(old(scope)@, params_model(params@), 0).ok,
    ensures
        types_model(r.0@) == function_parameters_from(
            old(scope)@,
            params_model(params@),
            0,
        ).types,
        strings_model(r.1@) == parameter_names(params_model(params@)),
        final(scope)@ == function_parameters_from(old(scope)@, params_model(params@), 0).scope,
        final(info)@ == old(info)@.reported(
            function_parameters_from(old(scope)@, params_model(params@), 0).diags,
        ),
        final(scope)@.frames.len() == old(scope)@.frames.len(),
{
    let ghost ps = params_model(params@);
    let ghost whole = function_parameters_from(scope@, ps, 0);
    let ghost mut done: Seq<DiagModel> = Seq::empty();
    let mut args: Vec<Type> = Vec::new();
    let mut arg_names: Vec<String> = Vec::new();
    let mut i: usize = 0;
    proof {
        lemma_reported_nothing(info@);
        assert(done + whole.diags =~= whole.diags);
        assert(types_model(args@) + whole.types =~= whole.types);
    }
    while i < params.len()
        invariant
            i <= params.len(),
            ps == params_model(params@),
            info@ == old(info)@.reported(done),
            whole == function_parameters_from(old(scope)@, ps, 0),
            function_parameters_from(scope@, ps, i as nat).ok,
            whole.scope == function_parameters_from(scope@, ps, i as nat).scope,
            whole.types == types_model(args@) + function_parameters_from(
                scope@,
                ps,
                i as nat,
            ).types,
            whole.diags == done + function_parameters_from(scope@, ps, i as nat).diags,
            scope@.frames.len() == old(scope)@.frames.len(),
            arg_names@.len() == i,
            forall|j: int| 0 <= j < i ==> #[trigger] arg_names@[j]@ == ps[j].name,
        decreases params.len() - i,
    {
        assert(ps[i as int] == params@[i as int]@);
        let ghost before = scope@;
        let ghost one = function_parameter(before, ps[i as int]);
        let t = check_parameter(info, scope, &params[i]);
        proof {
            lemma_reported_more(old(info)@, done, one.diags);
            let rest = function_parameters_from(one.scope, ps, (i + 1) as nat);
            assert(done + (one.diags + rest.diags) =~= (done + one.diags) + rest.diags);
            assert(types_model(args@.push(t)) =~= types_model(args@) + seq![t@]);
            assert(types_model(args@) + (one.types + rest.types) =~= (types_model(args@)
                + one.types) + rest.types);
            done = done + one.diags;
        }
        args.push(t);
        arg_names.push(params[i].name.clone());
        i += 1;
    }
    proof {
        assert(done + Seq::<DiagModel>::empty() =~= done);
        assert(types_model(args@) + Seq::<Ty>::empty() =~= types_model(args@));
        assert(strings_model(arg_names@) =~= parameter_names(ps));
    }
    (args, arg_names)
}

fn check_body(
    info: &mut Info,
    data: &mut StatementSynthData,
    scope: &mut Scope,
    body: &Vec<Stmt>,
)
    requires
        statements_from(old(scope)@, old(data)@, stmts_model(body@), 0).ok,
    ensures
        final(scope)@ == statements_from(old(scope)@, old(data)@, stmts_model(body@), 0).scope,
        final(data)@ == statements_from(old(scope)@, old(data)@, stmts_model(body@), 0).data,
        final(info)@ == old(info)@.reported(
            statements_from(old(scope)@, old(data)@, stmts_model(body@), 0).diags,
        ),
        final(scope)@.frames.len() == old(scope)@.frames.len(),
        (final(data)@.return_context is Some) == (old(data)@.return_context is Some),
    decreases stmts_model(body@), 0nat,
{
    let ghost ss = stmts_model(body@);
    let ghost whole = statements_from(scope@, data@, ss, 0);
    let ghost mut done: Seq<DiagModel> = Seq::empty();
    let mut i: usize = 0;
    proof {
        lemma_reported_nothing(info@);
        assert(done + whole.diags =~= whole.diags);
    }
    while i < body.len()
        invariant
            i <= body.len(),
            ss == stmts_model(body@),
            info@ == old(info)@.reported(done),
            whole == statements_from(old(scope)@, old(data)@, ss, 0),
            statements_from(scope@, data@, ss, i as nat).ok,
            whole.scope == statements_from(scope@, data@, ss, i as nat).scope,
            whole.data == statements_from(scope@, data@, ss, i as nat).data,
            whole.diags == done + statements_from(scope@, data@, ss, i as nat).diags,
            scope@.frames.len() == old(scope)@.frames.len(),
            (data@.return_context is Some) == (old(data)@.return_context is Some),
        decreases body.len() - i,
    {
        assert(ss[i as int] == body@[i as int]@);
        let ghost one = statement_step(scope@, data@, ss[i as int]);
        check_statement(info, data, scope, &body[i]);
        proof {
            lemma_reported_more(old(info)@, done, one.diags);
            let rest = statements_from(one.scope, one.data, ss, (i + 1) as nat);
            assert(done + (one.diags + rest.diags) =~= (done + one.diags) + rest.diags);
            done = done + one.diags;
        }
        i += 1;
    }
    proof {
        assert(done + Seq::<DiagModel>::empty() =~= done);
    }
}

fn check_func(
    info: &mut Info,
    data: &mut StatementSynthData,
    scope: &mut Scope,
    def: &StmtFunctionDef,
) -> (func: PartialFunction)
    requires
        function_signature(old(scope)@, old(data)@, def@).0.ok,
    ensures
        final(scope)@ == function_signature(old(scope)@, old(data)@, def@).0.scope,
        final(data)@ == function_signature(old(scope)@, old(data)@, def@).0.data,
        final(info)@ == old(info)@.reported(
            function_signature(old(scope)@, old(data)@, def@).0.diags,
        ),
        func@.ast == def@,
        func@.params == Some(function_signature(old(scope)@, old(data)@, def@).1.params),
        func@.names == Some(function_signature(old(scope)@, old(data)@, def@).1.names),
        func@.ret == Some(function_signature(old(scope)@, old(data)@, def@).1.ret),
        final(scope)@.frames.len() == old(scope)@.frames.len(),
        (final(data)@.return_context is Some) == (old(data)@.return_context is Some),
    decreases def@, 1nat,
{
    let ghost expected = annotation_type(scope@, def@.returns);
    let ghost params = function_parameters_from(scope@.pushed(), def@.parameters, 0);
    let expected_ret = synth_annotation(info, scope, def.returns.as_ref());

    scope.add_scope();
    // Load function arguments
    let (args, arg_names) = check_parameters(info, scope, &def.parameters);
    proof {
        lemma_reported_more(old(info)@, expected.diags, params.diags);
    }

    // Get ready for walking the statements
    let mut other_data = Some(StatementSynthDataReturn::new(expected_ret));
    std::mem::swap(&mut other_data, &mut data.returns);
    let ghost body = statements_from(scope@, data@, def@.body, 0);

    // Walk the statements
    check_body(info, data, scope, &def.body);
    proof {
        lemma_reported_more(old(info)@, expected.diags + params.diags, body.diags);
    }

    // Put the data back for the potential outer function
    std::mem::swap(&mut other_data, &mut data.returns);
    let this_func_data = other_data.unwrap();
    let ret = union(this_func_data.found_types);

    scope.pop_scope();
    PartialFunction {
        ast: def.clone(),
        args: Some(args),
        arg_names: Some(arg_names),
        ret: Some(Box::new(ret)),
    }
}

/// Check one statement: what it binds goes into `scope`, what it returns
/// into `data`, and what is wrong with it into the session's findings.
pub fn check_statement(
    info: &mut Info,
    data: &mut StatementSynthData,
    scope: &mut Scope,
    stmt: &Stmt,
)
    requires
        statement_step(old(scope)@, old(data)@, stmt@).ok,
    ensures
        final(scope)@ == statement_step(old(scope)@, old(data)@, stmt@).scope,
        final(data)@ == statement_step(old(scope)@, old(data)@, stmt@).data,
        final(info)@ == old(info)@.reported(statement_step(old(scope)@, old(data)@, stmt@).diags),
        final(scope)@.frames.len() == old(scope)@.frames.len(),
        (final(data)@.return_context is Some) == (old(data)@.return_context is Some),
    decreases stmt@, 0nat,
{
    proof {
        lemma_reported_nothing(info@);
    }
    match stmt {
        Stmt::AnnAssign { target, annotation, value, range } => {
            check_ann_assign(info, scope, target, annotation, value, *range);
        },
        Stmt::Assign { targets, value, .. } => {
            check_assign(info, scope, targets, value);
        },
        Stmt::Expr { value, .. } => {
            synth(info, scope, value);
        },
        Stmt::Return { value, range } => {
            check_return(info, data, scope, value, *range);
        },
        Stmt::FunctionDef(def) => {
            let partial_func = check_func(info, data, scope, def);
            let typ = match Function::try_from(partial_func) {
                Ok(func) => Type::Function(func),
                Err(func) => {
                    data.partial_list.push_back(
                        PartialItem::new(info.file_name.clone(), def.name.clone()),
                    );
                    Type::PartialFunction(func)
                },
            };
            scope.set(def.name.clone(), ScopedType::new(typ));
        },
        Stmt::ClassDef { name, .. } => {
            let class = Class::new(name.clone(), Vec::new(), Vec::new());
            proof {
                reveal_with_fuel(type_model, 2);
                assert(class@.methods =~= Seq::empty());
                assert(class@.fields =~= Seq::empty());
            }
            scope.set(name.clone(), ScopedType::new(Type::Class(class)));
        },
        Stmt::Pass { .. } => {},
        Stmt::Import { names, .. } => {
            check_import(scope, names);
        },
        Stmt::ImportFrom { module, names, .. } => {
            match module {
                Some(m) => check_import_from(info, scope, m, names),
                None => unreached(),
            }
        },
        _ => unreached(),
    }
}

} // verus!
