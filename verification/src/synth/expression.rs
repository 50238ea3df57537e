use crate::ast::{
    exprs_model, params_model, Expr, ExprContext, ExprModel, Number, NumberModel, Parameter,
    ParameterModel,
};
use crate::diagnostics::base::DiagModel;
use crate::diagnostics::custom::{ExpectedButGotDiag, NotInScopeDiag, RevealTypeDiag};
use crate::diagnostics::reporter::Diag;
use crate::diagnostics::Diagnostic;
use crate::scope::{Scope, ScopeModel};
use crate::span::TextRange;
use crate::state::{lemma_reported_more, lemma_reported_nothing, Info};
use crate::synth::annotation::{is_text, Synth};
use crate::types::base::{
    strings_model, type_model, types_model, FnTy, Function, Lit, Ty, Type, TypeLiteral,
};
use crate::types::compare::bindings_find;
use crate::types::helpers::{is_subtype, subtype, subtype_defined};
use crate::types::render::{decimal_nat, render, write_decimal_nat};
use vstd::pervasive::unreached;
use vstd::prelude::*;
use vstd::string::StringExecFns;

verus! {

/// What checking an expression against a type gives: the type worked out
/// for the expression where it fits, the findings, and whether every form
/// met on the way was one that has a rule.
pub struct Check {
    pub result: Option<Ty>,
    pub diags: Seq<DiagModel>,
    pub ok: bool,
}

/// What working out several types in a row gives.
pub struct Synths {
    pub types: Seq<Ty>,
    pub diags: Seq<DiagModel>,
    pub ok: bool,
}

/// What checking several expressions in a row gives.
pub struct Checks {
    pub diags: Seq<DiagModel>,
    pub ok: bool,
}

/// The error for a call of what is no function.
pub open spec fn not_callable(typ: Ty, range: TextRange) -> DiagModel {
    DiagModel::error(render(typ) + " not callable"@, range)
}

/// The error for a call with the wrong number of arguments.
pub open spec fn wrong_arity(expected: nat, got: nat, range: TextRange) -> DiagModel {
    DiagModel::error(
        "expected "@ + decimal_nat(expected) + " args, got "@ + decimal_nat(got) + " args"@,
        range,
    )
}

/// The error for an attribute of what is no module.
pub open spec fn unknown_attribute(attr: Seq<char>, typ: Ty, range: TextRange) -> DiagModel {
    DiagModel::error("Unknown attribute \""@ + attr + "\" for "@ + render(typ), range)
}

/// Whether an expression is the bare name `reveal_type`.
pub open spec fn names_reveal_type(e: ExprModel) -> bool {
    e matches ExprModel::Name { id, .. } && id == "reveal_type"@
}

/// The names of the parameters, in order.
pub open spec fn parameter_names(params: Seq<ParameterModel>) -> Seq<Seq<char>> {
    Seq::new(params.len(), |i: int| params[i].name)
}

/// The type of an attribute of a value of type `typ`: what the module binds
/// the name to, or `Unknown`; of what is no module, nothing.
pub open spec fn attribute_type(typ: Ty, attr: Seq<char>) -> Option<Ty> {
    match typ {
        Ty::Module(_, bindings) => if bindings.contains_key(attr) {
            Some(bindings[attr].typ)
        } else {
            Some(Ty::Unknown)
        },
        _ => None,
    }
}

/// The type that the rules work out for an expression, with the findings
/// made on the way.
pub open spec fn synth_type(scope: ScopeModel, e: ExprModel) -> Synth
    decreases e, 0nat,
{
    match e {
        ExprModel::NoneLiteral { .. } => Synth::done(Ty::NoneType),
        ExprModel::BooleanLiteral { value, .. } => Synth::done(Ty::Literal(Lit::Bool(value))),
        ExprModel::NumberLiteral { value: NumberModel::Int(i), .. } => Synth::done(
            Ty::Literal(Lit::Int(i)),
        ),
        ExprModel::NumberLiteral { value: NumberModel::Float(s), .. } => Synth::done(
            Ty::Literal(Lit::Float(s)),
        ),
        ExprModel::StringLiteral { value, .. } => Synth::done(Ty::Literal(Lit::Str(value))),
        ExprModel::Name { id, ctx: ExprContext::Load, range } => match scope.get(id) {
            Some(binding) => Synth::done(binding.typ),
            None => Synth {
                typ: Ty::Unknown,
                diags: seq![DiagModel::NotInScope { name: id, range }],
                ok: true,
            },
        },
        ExprModel::Lambda { parameters, body, .. } => {
            let params = lambda_parameters_from(scope, parameters, 0, Seq::empty());
            if !params.ok {
                Synth::abort()
            } else {
                let ret = synth_type(scope, *body);
                Synth {
                    typ: Ty::Function(
                        FnTy {
                            params: params.types,
                            names: parameter_names(parameters),
                            ret: Box::new(ret.typ),
                        },
                    ),
                    diags: params.diags + ret.diags,
                    ok: ret.ok,
                }
            }
        },
        ExprModel::Call { func, args, keywords, range } => {
            if names_reveal_type(*func) {
                if args.len() == 0 {
                    Synth::abort()
                } else {
                    let shown = synth_type(scope, args[0]);
                    Synth {
                        typ: Ty::Unknown,
                        diags: shown.diags + seq![
                            DiagModel::RevealType { typ: shown.typ, range: args[0].range() },
                        ],
                        ok: shown.ok,
                    }
                }
            } else {
                let callee = synth_type(scope, *func);
                if !callee.ok {
                    Synth::abort()
                } else {
                    match callee.typ {
                        Ty::Function(f) => {
                            if f.params.len() != args.len() + keywords {
                                Synth {
                                    typ: Ty::Unknown,
                                    diags: callee.diags + seq![
                                        wrong_arity(f.params.len(), args.len(), range),
                                    ],
                                    ok: true,
                                }
                            } else {
                                let checks = check_arguments_from(scope, args, f.params, 0);
                                Synth {
                                    typ: *f.ret,
                                    diags: callee.diags + checks.diags,
                                    ok: checks.ok,
                                }
                            }
                        },
                        other => Synth {
                            typ: Ty::Unknown,
                            diags: callee.diags + seq![not_callable(other, (*func).range())],
                            ok: true,
                        },
                    }
                }
            }
        },
        ExprModel::Attribute { value, attr, range } => {
            let owner = synth_type(scope, *value);
            if !owner.ok {
                Synth::abort()
            } else {
                match attribute_type(owner.typ, attr) {
                    Some(typ) => Synth { typ, diags: owner.diags, ok: true },
                    None => Synth {
                        typ: Ty::Unknown,
                        diags: owner.diags + seq![unknown_attribute(attr, owner.typ, range)],
                        ok: true,
                    },
                }
            }
        },
        ExprModel::Tuple { elts, .. } => {
            let members = synth_from(scope, elts, 0, Seq::empty());
            Synth { typ: Ty::Tuple(members.types), diags: members.diags, ok: members.ok }
        },
        _ => Synth::abort(),
    }
}

/// An expression checked against the type expected of it: its own type is
/// worked out and must be a subtype of `typ`.
pub open spec fn check_type(scope: ScopeModel, e: ExprModel, typ: Ty) -> Check
    decreases e, 1nat,
{
    let found = synth_type(scope, e);
    if !found.ok {
        Check { result: None, diags: Seq::empty(), ok: false }
    } else if subtype(found.typ, typ) {
        Check { result: Some(found.typ), diags: found.diags, ok: subtype_defined(found.typ, typ) }
    } else {
        Check {
            result: None,
            diags: found.diags + seq![
                DiagModel::ExpectedButGot { expected: typ, got: found.typ, range: e.range() },
            ],
            ok: subtype_defined(found.typ, typ),
        }
    }
}

/// The types of the members of `es` from position `i` on, behind the types
/// `acc` that are there already.
pub open spec fn synth_from(scope: ScopeModel, es: Seq<ExprModel>, i: nat, acc: Seq<Ty>) -> Synths
    decreases es, es.len() - i,
{
    if i >= es.len() {
        Synths { types: acc, diags: Seq::empty(), ok: true }
    } else {
        let one = synth_type(scope, es[i as int]);
        if !one.ok {
            Synths { types: acc, diags: Seq::empty(), ok: false }
        } else {
            let rest = synth_from(scope, es, i + 1, acc.push(one.typ));
            Synths { types: rest.types, diags: one.diags + rest.diags, ok: rest.ok }
        }
    }
}

/// The type of one parameter of a `lambda`: that of its annotation read as
/// an expression, or `Unknown` where it has none.
pub open spec fn lambda_parameter(scope: ScopeModel, p: ParameterModel) -> Synth
    decreases p, 0nat,
{
    match p.annotation {
        Some(a) => synth_type(scope, a),
        None => Synth::done(Ty::Unknown),
    }
}

/// The types of the parameters from position `i` on, behind the types `acc`
/// that are there already.
pub open spec fn lambda_parameters_from(
    scope: ScopeModel,
    params: Seq<ParameterModel>,
    i: nat,
    acc: Seq<Ty>,
) -> Synths
    decreases params, params.len() - i,
{
    if i >= params.len() {
        Synths { types: acc, diags: Seq::empty(), ok: true }
    } else {
        let one = lambda_parameter(scope, params[i as int]);
        if !one.ok {
            Synths { types: acc, diags: Seq::empty(), ok: false }
        } else {
            let rest = lambda_parameters_from(scope, params, i + 1, acc.push(one.typ));
            Synths { types: rest.types, diags: one.diags + rest.diags, ok: rest.ok }
        }
    }
}

/// The arguments from position `i` on checked each against the parameter at
/// its position, as far as arguments and parameters both reach.
pub open spec fn check_arguments_from(
    scope: ScopeModel,
    args: Seq<ExprModel>,
    params: Seq<Ty>,
    i: nat,
) -> Checks
    decreases args, args.len() - i,
{
    if i >= args.len() || i >= params.len() {
        Checks { diags: Seq::empty(), ok: true }
    } else {
        let one = check_type(scope, args[i as int], params[i as int]);
        if !one.ok {
            Checks { diags: Seq::empty(), ok: false }
        } else {
            let rest = check_arguments_from(scope, args, params, i + 1);
            Checks { diags: one.diags + rest.diags, ok: rest.ok }
        }
    }
}

// ---------------------------------------------------------------------------
// Working it out
// ---------------------------------------------------------------------------

/// The model of an optional type.
pub open spec fn opt_type_model(o: Option<Type>) -> Option<Ty> {
    match o {
        Some(t) => Some(t@),
        None => None,
    }
}

/// Whether an expression is the bare name `reveal_type`.
pub fn is_reveal_type(func: &Expr) -> (r: bool)
    ensures
        r == names_reveal_type(func@),
{
    match func {
        Expr::Name { id, .. } => is_text(id, "reveal_type"),
        _ => false,
    }
}

fn not_callable_error(typ: &Type, range: TextRange) -> (r: Diag)
    ensures
        r@ == not_callable(typ@, range),
{
    let mut body = typ.to_string();
    body.append(" not callable");
    Diag::Diagnostic(Diagnostic::error(body, range))
}

fn wrong_arity_error(expected: usize, got: usize, range: TextRange) -> (r: Diag)
    ensures
        r@ == wrong_arity(expected as nat, got as nat, range),
{
    let mut body = String::from_str("expected ");
    write_decimal_nat(&mut body, expected as u64);
    body.append(" args, got ");
    write_decimal_nat(&mut body, got as u64);
    body.append(" args");
    assert(body@ =~= "expected "@ + decimal_nat(expected as nat) + " args, got "@ + decimal_nat(
        got as nat,
    ) + " args"@);
    Diag::Diagnostic(Diagnostic::error(body, range))
}

fn unknown_attribute_error(attr: &String, typ: &Type, range: TextRange) -> (r: Diag)
    ensures
        r@ == unknown_attribute(attr@, typ@, range),
{
    let mut body = String::from_str("Unknown attribute \"");
    body.append(attr.as_str());
    body.append("\" for ");
    let text = typ.to_string();
    body.append(text.as_str());
    assert(body@ =~= "Unknown attribute \""@ + attr@ + "\" for "@ + render(typ@));
    Diag::Diagnostic(Diagnostic::error(body, range))
}

fn attribute_of(typ: &Type, attr: &String) -> (r: Option<Type>)
    ensures
        opt_type_model(r) == attribute_type(typ@, attr@),
{
    match typ {
        Type::Module(_, module) => match bindings_find(module, attr) {
            Some(j) => Some(module[j].1.typ.clone()),
            None => Some(Type::Unknown),
        },
        _ => None,
    }
}

fn synth_elements(info: &mut Info, scope: &Scope, elts: &Vec<Expr>) -> (r: Vec<Type>)
    requires
        synth_from(scope@, exprs_model(elts@), 0, Seq::empty()).ok,
    ensures
        types_model(r@) == synth_from(scope@, exprs_model(elts@), 0, Seq::empty()).types,
        final(info)@ == old(info)@.reported(
            synth_from(scope@, exprs_model(elts@), 0, Seq::empty()).diags,
        ),
    decreases elts, 0nat,
{
    let ghost es = exprs_model(elts@);
    let ghost whole = synth_from(scope@, es, 0, Seq::empty());
    let ghost mut done: Seq<DiagModel> = Seq::empty();
    let mut types: Vec<Type> = Vec::new();
    let mut i: usize = 0;
    proof {
        lemma_reported_nothing(info@);
        assert(done + whole.diags =~= whole.diags);
        assert(types_model(types@) =~= Seq::empty());
    }
    while i < elts.len()
        invariant
            i <= elts.len(),
            es == exprs_model(elts@),
            info@ == old(info)@.reported(done),
            whole == synth_from(scope@, es, 0, Seq::empty()),
            synth_from(scope@, es, i as nat, types_model(types@)).ok,
            whole.types == synth_from(scope@, es, i as nat, types_model(types@)).types,
            whole.diags == done + synth_from(scope@, es, i as nat, types_model(types@)).diags,
        decreases elts.len() - i,
    {
        let ghost one = synth_type(scope@, es[i as int]);
        assert(es[i as int] == elts@[i as int]@);
        let t = synth(info, scope, &elts[i]);
        proof {
            lemma_reported_more(old(info)@, done, one.diags);
            assert(types_model(types@.push(t)) =~= types_model(types@).push(t@));
            let rest = synth_from(scope@, es, (i + 1) as nat, types_model(types@).push(t@));
            assert(done + (one.diags + rest.diags) =~= (done + one.diags) + rest.diags);
            done = done + one.diags;
        }
        types.push(t);
        i += 1;
    }
    proof {
        assert(done + Seq::<DiagModel>::empty() =~= done);
    }
    types
}

fn synth_lambda_parameter(info: &mut Info, scope: &Scope, p: &Parameter) -> (r: Type)
    requires
        lambda_parameter(scope@, p@).ok,
    ensures
        r@ == lambda_parameter(scope@, p@).typ,
        final(info)@ == old(info)@.reported(lambda_parameter(scope@, p@).diags),
    decreases p, 0nat,
{
    proof {
        lemma_reported_nothing(info@);
    }
    match &p.annotation {
        Some(a) => synth(info, scope, a),
        None => Type::Unknown,
    }
}

fn synth_lambda_parameters(info: &mut Info, scope: &Scope, params: &Vec<Parameter>) -> (r: (
    Vec<Type>,
    Vec<String>,
))
    requires
        lambda_parameters_from(scope@, params_model(params@), 0, Seq::empty()).ok,
    ensures
        types_model(r.0@) == lambda_parameters_from(
            scope@,
            params_model(params@),
            0,
            Seq::empty(),
        ).types,
        strings_model(r.1@) == parameter_names(params_model(params@)),
        final(info)@ == old(info)@.reported(
            lambda_parameters_from(scope@, params_model(params@), 0, Seq::empty()).diags,
        ),
    decreases params, 0nat,
{
    let ghost ps = params_model(params@);
    let ghost whole = lambda_parameters_from(scope@, ps, 0, Seq::empty());
    let ghost mut done: Seq<DiagModel> = Seq::empty();
    let mut args: Vec<Type> = Vec::new();
    let mut arg_names: Vec<String> = Vec::new();
    let mut i: usize = 0;
    proof {
        lemma_reported_nothing(info@);
        assert(done + whole.diags =~= whole.diags);
        assert(types_model(args@) =~= Seq::empty());
    }
    while i < params.len()
        invariant
            i <= params.len(),
            ps == params_model(params@),
            info@ == old(info)@.reported(done),
            whole == lambda_parameters_from(scope@, ps, 0, Seq::empty()),
            lambda_parameters_from(scope@, ps, i as nat, types_model(args@)).ok,
            whole.types == lambda_parameters_from(scope@, ps, i as nat, types_model(args@)).types,
            whole.diags == done + lambda_parameters_from(
                scope@,
                ps,
                i as nat,
                types_model(args@),
            ).diags,
            arg_names@.len() == i,
            forall|j: int| 0 <= j < i ==> #[trigger] arg_names@[j]@ == ps[j].name,
        decreases params.len() - i,
    {
        let ghost one = lambda_parameter(scope@, ps[i as int]);
        assert(ps[i as int] == params@[i as int]@);
        let ann = synth_lambda_parameter(info, scope, &params[i]);
        proof {
            lemma_reported_more(old(info)@, done, one.diags);
            assert(types_model(args@.push(ann)) =~= types_model(args@).push(ann@));
            let rest = lambda_parameters_from(
                scope@,
                ps,
                (i + 1) as nat,
                types_model(args@).push(ann@),
            );
            assert(done + (one.diags + rest.diags) =~= (done + one.diags) + rest.diags);
            done = done + one.diags;
        }
        args.push(ann);
        arg_names.push(params[i].name.clone());
        i += 1;
    }
    proof {
        assert(done + Seq::<DiagModel>::empty() =~= done);
        assert(strings_model(arg_names@) =~= parameter_names(ps));
    }
    (args, arg_names)
}

fn check_arguments(info: &mut Info, scope: &Scope, args: &Vec<Expr>, params: &Vec<Type>)
    requires
        check_arguments_from(scope@, exprs_model(args@), types_model(params@), 0).ok,
    ensures
        final(info)@ == old(info)@.reported(
            check_arguments_from(scope@, exprs_model(args@), types_model(params@), 0).diags,
        ),
    decreases args, 0nat,
{
    let ghost es = exprs_model(args@);
    let ghost ts = types_model(params@);
    let ghost whole = check_arguments_from(scope@, es, ts, 0);
    let ghost mut done: Seq<DiagModel> = Seq::empty();
    let mut i: usize = 0;
    proof {
        lemma_reported_nothing(info@);
        assert(done + whole.diags =~= whole.diags);
    }
    while i < args.len() && i < params.len()
        invariant
            i <= args.len(),
            i <= params.len(),
            es == exprs_model(args@),
            ts == types_model(params@),
            info@ == old(info)@.reported(done),
            whole == check_arguments_from(scope@, es, ts, 0),
            check_arguments_from(scope@, es, ts, i as nat).ok,
            whole.diags == done + check_arguments_from(scope@, es, ts, i as nat).diags,
        decreases args.len() - i,
    {
        let ghost one = check_type(scope@, es[i as int], ts[i as int]);
        assert(es[i as int] == args@[i as int]@);
        assert(ts[i as int] == params@[i as int]@);
        check(info, scope, &args[i], params[i].clone());
        proof {
            lemma_reported_more(old(info)@, done, one.diags);
            let rest = check_arguments_from(scope@, es, ts, (i + 1) as nat);
            assert(done + (one.diags + rest.diags) =~= (done + one.diags) + rest.diags);
            done = done + one.diags;
        }
        i += 1;
    }
    proof {
        assert(done + Seq::<DiagModel>::empty() =~= done);
    }
}

fn synth_call(info: &mut Info, scope: &Scope, ast: &Expr) -> (r: Type)
    requires
        ast is Call,
        synth_type(scope@, ast@).ok,
    ensures
        r@ == synth_type(scope@, ast@).typ,
        final(info)@ == old(info)@.reported(synth_type(scope@, ast@).diags),
    decreases ast, 0nat,
{
    let (func, args, keywords, range) = match ast {
        Expr::Call { func, args, keywords, range } => (func, args, *keywords, *range),
        _ => unreached(),
    };
    proof {
        lemma_reported_nothing(info@);
    }
    // Early handling for reveal_type
    if is_reveal_type(func) {
        assert(exprs_model(args@)[0] == args@[0]@);
        let arg = &args[0];
        let arg_range = arg.range();
        let ghost shown = synth_type(scope@, arg@);
        let typ = synth(info, scope, arg);
        proof {
            lemma_reported_more(
                old(info)@,
                shown.diags,
                seq![DiagModel::RevealType { typ: typ@, range: arg_range }],
            );
        }
        info.report(Diag::RevealType(RevealTypeDiag::new(typ, arg_range)));
        return Type::Unknown;
    }
    // Regular call handling
    let callee_range = func.range();
    let ghost found = synth_type(scope@, func@);
    let callee = match synth(info, scope, func) {
        Type::Function(f) => f,
        other => {
            proof {
                lemma_reported_more(
                    old(info)@,
                    found.diags,
                    seq![not_callable(other@, callee_range)],
                );
            }
            info.report(not_callable_error(&other, callee_range));
            return Type::Unknown;
        },
    };
    proof {
        reveal_with_fuel(type_model, 2);
        assert(found.typ == Ty::Function(callee@));
        assert(callee@.params.len() == callee.args.len());
    }
    if callee.args.len() as u128 != args.len() as u128 + keywords as u128 {
        proof {
            assert(callee@.params.len() != exprs_model(args@).len() + keywords as nat);
            lemma_reported_more(
                old(info)@,
                found.diags,
                seq![wrong_arity(callee.args.len() as nat, args.len() as nat, range)],
            );
        }
        info.report(wrong_arity_error(callee.args.len(), args.len(), range));
        return Type::Unknown;
    }
    let ghost checks = check_arguments_from(
        scope@,
        exprs_model(args@),
        types_model(callee.args@),
        0,
    );
    check_arguments(info, scope, args, &callee.args);
    proof {
        lemma_reported_more(old(info)@, found.diags, checks.diags);
    }
    let Function { args: _, arg_names: _, ret } = callee;
    *ret
}

/// Work out the type of an expression. What is wrong with the expression
/// is reported, and the type is then `Unknown` where nothing better is known.
pub fn synth(info: &mut Info, scope: &Scope, ast: &Expr) -> (r: Type)
    requires
        synth_type(scope@, ast@).ok,
    ensures
        r@ == synth_type(scope@, ast@).typ,
        final(info)@ == old(info)@.reported(synth_type(scope@, ast@).diags),
    decreases ast, 1nat,
{
    proof {
        lemma_reported_nothing(info@);
    }
    match ast {
        Expr::NoneLiteral { .. } => Type::NoneType,
        Expr::BooleanLiteral { value, .. } => Type::Literal(TypeLiteral::BooleanLiteral(*value)),
        Expr::NumberLiteral { value, .. } => match value {
            Number::Int(l) => Type::Literal(TypeLiteral::IntLiteral(*l)),
            Number::Float(l) => Type::Literal(TypeLiteral::FloatLiteral(l.clone())),
            _ => unreached(),
        },
        Expr::StringLiteral { value, .. } => Type::Literal(
            TypeLiteral::StringLiteral(value.clone()),
        ),
        Expr::Name { id, ctx, range } => {
            if *ctx != ExprContext::Load {
                return unreached();
            }
            match scope.get(id) {
                Some(scoped) => scoped.typ,
                None => {
                    info.report(Diag::NotInScope(NotInScopeDiag::new(id.clone(), *range)));
                    Type::Unknown
                },
            }
        },
        Expr::Lambda { parameters, body, .. } => {
            let ghost params = lambda_parameters_from(
                scope@,
                params_model(parameters@),
                0,
                Seq::empty(),
            );
            let ghost result = synth_type(scope@, body@);
            let (args, arg_names) = synth_lambda_parameters(info, scope, parameters);
            let ret = synth(info, scope, body);
            proof {
                lemma_reported_more(old(info)@, params.diags, result.diags);
            }
            Type::Function(Function::new(args, arg_names, ret))
        },
        Expr::Call { .. } => synth_call(info, scope, ast),
        Expr::Attribute { value, attr, range } => {
            let ghost owner = synth_type(scope@, value@);
            let typ = synth(info, scope, value);
            match attribute_of(&typ, attr) {
                Some(t) => t,
                None => {
                    proof {
                        lemma_reported_more(
                            old(info)@,
                            owner.diags,
                            seq![unknown_attribute(attr@, typ@, *range)],
                        );
                    }
                    info.report(unknown_attribute_error(attr, &typ, *range));
                    Type::Unknown
                },
            }
        },
        Expr::Tuple { elts, .. } => Type::Tuple(synth_elements(info, scope, elts)),
        _ => unreached(),
    }
}

/// Check an expression against the type expected of it. Where its own type
/// is a subtype of `typ`, that type is returned; where not, the mismatch is
/// reported and nothing is returned.
pub fn check(info: &mut Info, scope: &Scope, ast: &Expr, typ: Type) -> (r: Option<Type>)
    requires
        check_type(scope@, ast@, typ@).ok,
    ensures
        opt_type_model(r) == check_type(scope@, ast@, typ@).result,
        final(info)@ == old(info)@.reported(check_type(scope@, ast@, typ@).diags),
    decreases ast, 2nat,
{
    let range = ast.range();
    let ghost found = synth_type(scope@, ast@);
    let synth_type = synth(info, scope, ast);
    if is_subtype(&synth_type, &typ) {
        Some(synth_type)
    } else {
        proof {
            lemma_reported_more(
                old(info)@,
                found.diags,
                seq![DiagModel::ExpectedButGot { expected: typ@, got: synth_type@, range }],
            );
        }
        info.report(Diag::ExpectedButGot(ExpectedButGotDiag::new(typ, synth_type, range)));
        None
    }
}

} // verus!
