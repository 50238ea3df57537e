use crate::types::base::{type_model, types_model, Lit, Ty, Type, TypeLiteral};
use vstd::prelude::*;

verus! {

/// A size for types under which every component is smaller than the whole
/// and a literal is larger than the atom it belongs to.
pub open spec fn ty_size(t: Ty) -> nat
    decreases t,
{
    match t {
        Ty::Tuple(s) => 1 + seq_size(s),
        Ty::Union(s) => 1 + seq_size(s),
        Ty::Function(f) => 1 + seq_size(f.params) + ty_size(*f.ret),
        Ty::Literal(_) => 2,
        _ => 1,
    }
}

/// The sizes of the members of `s`, added up.
pub open spec fn seq_size(s: Seq<Ty>) -> nat
    decreases s,
{
    if s.len() == 0 {
        0
    } else {
        seq_size(s.drop_last()) + ty_size(s.last())
    }
}

/// No member is larger than all members together.
pub proof fn lemma_seq_size_index(s: Seq<Ty>, i: int)
    requires
        0 <= i < s.len(),
    ensures
        ty_size(s[i]) <= seq_size(s),
    decreases s.len(),
{
    if i < s.len() - 1 {
        lemma_seq_size_index(s.drop_last(), i);
    }
}

/// The atom that a literal's value belongs to. Bytes literals have none.
pub open spec fn literal_atom(l: Lit) -> Option<Ty> {
    match l {
        Lit::Str(_) => Some(Ty::Str),
        Lit::Bytes(_) => None,
        Lit::Int(_) => Some(Ty::Int),
        Lit::Float(_) => Some(Ty::Float),
        Lit::Bool(_) => Some(Ty::Bool),
        Lit::NoneLit => Some(Ty::NoneType),
        Lit::EllipsisLit => Some(Ty::Ellipsis),
    }
}

/// `Any` and `Unknown`: the types that stand on either side of every other.
pub open spec fn is_gradual(t: Ty) -> bool {
    t is Any || t is Unknown
}

/// Whether a value of type `a` may stand where `b` is expected.
///
/// The rules are tried in the order written; the first that applies decides.
pub open spec fn subtype(a: Ty, b: Ty) -> bool
    decreases ty_size(a) + ty_size(b),
    via subtype_decreases
{
    if a == b {
        true
    } else if let Ty::Literal(l) = a {
        match literal_atom(l) {
            Some(atom) => subtype(atom, b),
            None => false,
        }
    } else if is_gradual(a) || is_gradual(b) {
        true
    } else {
        match (a, b) {
            (Ty::Int, Ty::Float) => true,
            (Ty::Never, _) => false,
            (Ty::Union(us), _) => forall|i: int|
                0 <= i < us.len() ==> subtype(#[trigger] us[i], b),
            (_, Ty::Union(us)) => exists|i: int|
                0 <= i < us.len() && subtype(a, #[trigger] us[i]),
            (Ty::Function(f), Ty::Function(g)) => {
                &&& f.params.len() == g.params.len()
                &&& forall|i: int|
                    0 <= i < f.params.len() ==> subtype(#[trigger] g.params[i], f.params[i])
                &&& subtype(*f.ret, *g.ret)
            },
            (Ty::Tuple(s), Ty::Tuple(t)) => {
                &&& s.len() == t.len()
                &&& forall|i: int| 0 <= i < s.len() ==> subtype(#[trigger] s[i], t[i])
            },
            _ => false,
        }
    }
}

/// Every member of a tuple or a union, and every parameter of a function, is
/// smaller than the type it belongs to.
pub proof fn lemma_members_smaller(a: Ty)
    ensures
        a matches Ty::Union(us) ==> forall|i: int|
            0 <= i < us.len() ==> ty_size(#[trigger] us[i]) < ty_size(a),
        a matches Ty::Tuple(s) ==> forall|i: int|
            0 <= i < s.len() ==> ty_size(#[trigger] s[i]) < ty_size(a),
        a matches Ty::Function(f) ==> forall|i: int|
            0 <= i < f.params.len() ==> ty_size(#[trigger] f.params[i]) < ty_size(a),
{
    match a {
        Ty::Union(us) => {
            assert forall|i: int| 0 <= i < us.len() implies ty_size(#[trigger] us[i]) < ty_size(
                a,
            ) by {
                lemma_seq_size_index(us, i);
            }
        },
        Ty::Function(f) => {
            assert forall|i: int| 0 <= i < f.params.len() implies ty_size(
                #[trigger] f.params[i],
            ) < ty_size(a) by {
                lemma_seq_size_index(f.params, i);
            }
        },
        Ty::Tuple(s) => {
            assert forall|i: int| 0 <= i < s.len() implies ty_size(#[trigger] s[i]) < ty_size(
                a,
            ) by {
                lemma_seq_size_index(s, i);
            }
        },
        _ => {},
    }
}

#[via_fn]
proof fn subtype_decreases(a: Ty, b: Ty) {
    lemma_members_smaller(a);
    lemma_members_smaller(b);
}

/// Every member of `xs` before position `n` is a subtype of `b`.
pub open spec fn subs_before(xs: Seq<Ty>, b: Ty, n: int) -> bool {
    forall|j: int| 0 <= j < n ==> subtype(#[trigger] xs[j], b)
}

/// `a` is a subtype of no member of `ys` before position `n`.
pub open spec fn none_before(a: Ty, ys: Seq<Ty>, n: int) -> bool {
    forall|j: int| 0 <= j < n ==> !subtype(a, #[trigger] ys[j])
}

/// Position by position before `n`, the member of `xs` is a subtype of that of
/// `ys`.
pub open spec fn pairs_before(xs: Seq<Ty>, ys: Seq<Ty>, n: int) -> bool {
    forall|j: int| 0 <= j < n ==> subtype(#[trigger] xs[j], ys[j])
}

/// Whether the subtype question for `a` and `b` can be settled without
/// widening a bytes literal, for which there is no rule.
///
/// Members are looked at from left to right, and only as far as the answer
/// is still open; what lies behind that point does not matter.
pub open spec fn subtype_defined(a: Ty, b: Ty) -> bool
    decreases ty_size(a) + ty_size(b),
    via subtype_defined_decreases
{
    if a == b {
        true
    } else if let Ty::Literal(l) = a {
        match literal_atom(l) {
            Some(atom) => subtype_defined(atom, b),
            None => false,
        }
    } else if is_gradual(a) || is_gradual(b) {
        true
    } else {
        match (a, b) {
            (Ty::Int, Ty::Float) => true,
            (Ty::Never, _) => true,
            (Ty::Union(us), _) => forall|i: int|
                0 <= i < us.len() && subs_before(us, b, i) ==> subtype_defined(
                    #[trigger] us[i],
                    b,
                ),
            (_, Ty::Union(us)) => forall|i: int|
                0 <= i < us.len() && none_before(a, us, i) ==> subtype_defined(
                    a,
                    #[trigger] us[i],
                ),
            (Ty::Function(f), Ty::Function(g)) => f.params.len() == g.params.len() ==> {
                &&& forall|i: int|
                    0 <= i < f.params.len() && pairs_before(g.params, f.params, i)
                        ==> subtype_defined(#[trigger] g.params[i], f.params[i])
                &&& pairs_before(g.params, f.params, f.params.len() as int) ==> subtype_defined(
                    *f.ret,
                    *g.ret,
                )
            },
            (Ty::Tuple(s), Ty::Tuple(t)) => s.len() == t.len() ==> forall|i: int|
                0 <= i < s.len() && pairs_before(s, t, i) ==> subtype_defined(
                    #[trigger] s[i],
                    t[i],
                ),
            _ => true,
        }
    }
}

#[via_fn]
proof fn subtype_defined_decreases(a: Ty, b: Ty) {
    lemma_members_smaller(a);
    lemma_members_smaller(b);
}

/// Whether each member of `us` can be compared with `b`, as far as the
/// members before it are subtypes of `b`.
pub open spec fn all_defined(us: Seq<Ty>, b: Ty) -> bool {
    forall|i: int|
        0 <= i < us.len() && subs_before(us, b, i) ==> subtype_defined(#[trigger] us[i], b)
}

/// Whether `a` can be compared with each member of `us`, as far as it is
/// a subtype of none before it.
pub open spec fn any_defined(a: Ty, us: Seq<Ty>) -> bool {
    forall|i: int|
        0 <= i < us.len() && none_before(a, us, i) ==> subtype_defined(a, #[trigger] us[i])
}

/// Whether each member of `xs` can be compared with the member of `ys` at
/// its position, as far as the members before it are subtypes of theirs.
pub open spec fn pairs_defined(xs: Seq<Ty>, ys: Seq<Ty>) -> bool {
    forall|i: int|
        0 <= i < xs.len() && pairs_before(xs, ys, i) ==> subtype_defined(
            #[trigger] xs[i],
            ys[i],
        )
}

fn all_subtypes(us: &Vec<Type>, b: &Type) -> (r: Option<bool>)
    ensures
        r is Some == all_defined(types_model(us@), b@),
        r matches Some(v) ==> v == subs_before(types_model(us@), b@, us.len() as int),
    decreases 1 + seq_size(types_model(us@)) + ty_size(b@), 0int,
{
    let ghost ms = types_model(us@);
    let mut i: usize = 0;
    while i < us.len()
        invariant
            i <= us.len(),
            ms == types_model(us@),
            subs_before(ms, b@, i as int),
            forall|j: int| 0 <= j < i ==> subtype_defined(#[trigger] ms[j], b@),
        decreases us.len() - i,
    {
        proof {
            lemma_seq_size_index(ms, i as int);
        }
        match subtype_checked(&us[i], b) {
            None => {
                assert(!subtype_defined(ms[i as int], b@));
                return None;
            },
            Some(false) => {
                assert(!subtype(ms[i as int], b@));
                return Some(false);
            },
            Some(true) => {},
        }
        i += 1;
    }
    Some(true)
}

fn any_supertype(a: &Type, us: &Vec<Type>) -> (r: Option<bool>)
    ensures
        r is Some == any_defined(a@, types_model(us@)),
        r matches Some(v) ==> v == !none_before(a@, types_model(us@), us.len() as int),
    decreases 1 + ty_size(a@) + seq_size(types_model(us@)), 0int,
{
    let ghost ms = types_model(us@);
    let mut i: usize = 0;
    while i < us.len()
        invariant
            i <= us.len(),
            ms == types_model(us@),
            none_before(a@, ms, i as int),
            forall|j: int| 0 <= j < i ==> subtype_defined(a@, #[trigger] ms[j]),
        decreases us.len() - i,
    {
        proof {
            lemma_seq_size_index(ms, i as int);
        }
        match subtype_checked(a, &us[i]) {
            None => {
                assert(!subtype_defined(a@, ms[i as int]));
                return None;
            },
            Some(true) => {
                assert(subtype(a@, ms[i as int]));
                return Some(true);
            },
            Some(false) => {},
        }
        i += 1;
    }
    Some(false)
}

fn pairwise_subtypes(xs: &Vec<Type>, ys: &Vec<Type>) -> (r: Option<bool>)
    requires
        xs.len() == ys.len(),
    ensures
        r is Some == pairs_defined(types_model(xs@), types_model(ys@)),
        r matches Some(v) ==> v == pairs_before(
            types_model(xs@),
            types_model(ys@),
            xs.len() as int,
        ),
    decreases 1 + seq_size(types_model(xs@)) + seq_size(types_model(ys@)), 0int,
{
    let ghost mx = types_model(xs@);
    let ghost my = types_model(ys@);
    let mut i: usize = 0;
    while i < xs.len()
        invariant
            i <= xs.len(),
            xs.len() == ys.len(),
            mx == types_model(xs@),
            my == types_model(ys@),
            pairs_before(mx, my, i as int),
            forall|j: int| 0 <= j < i ==> subtype_defined(#[trigger] mx[j], my[j]),
        decreases xs.len() - i,
    {
        proof {
            lemma_seq_size_index(mx, i as int);
            lemma_seq_size_index(my, i as int);
        }
        match subtype_checked(&xs[i], &ys[i]) {
            None => {
                assert(!subtype_defined(mx[i as int], my[i as int]));
                return None;
            },
            Some(false) => {
                assert(!subtype(mx[i as int], my[i as int]));
                return Some(false);
            },
            Some(true) => {},
        }
        i += 1;
    }
    Some(true)
}

fn subtype_checked(a: &Type, b: &Type) -> (r: Option<bool>)
    ensures
        r is Some == subtype_defined(a@, b@),
        r matches Some(v) ==> v == subtype(a@, b@),
    decreases ty_size(a@) + ty_size(b@), 1int,
{
    if *a == *b {
        return Some(true);
    }
    if let Type::Literal(literal) = a {
        return match literal {
            TypeLiteral::StringLiteral(_) => subtype_checked(&Type::String, b),
            TypeLiteral::BytesLiteral(_) => None,
            TypeLiteral::IntLiteral(_) => subtype_checked(&Type::Int, b),
            TypeLiteral::FloatLiteral(_) => subtype_checked(&Type::Float, b),
            TypeLiteral::BooleanLiteral(_) => subtype_checked(&Type::Bool, b),
            TypeLiteral::NoneLiteral => subtype_checked(&Type::NoneType, b),
            TypeLiteral::EllipsisLiteral => subtype_checked(&Type::Ellipsis, b),
        };
    }
    match (a, b) {
        (Type::Any, _) => Some(true),
        (Type::Unknown, _) => Some(true),
        (_, Type::Any) => Some(true),
        (_, Type::Unknown) => Some(true),
        (Type::Int, Type::Float) => Some(true),
        (Type::Never, _) => Some(false),
        (Type::Union(union), _) => {
            let r = all_subtypes(union, b);
            assert(subtype_defined(a@, b@) == all_defined(types_model(union@), b@));
            r
        },
        (_, Type::Union(union)) => {
            let r = any_supertype(a, union);
            assert(subtype_defined(a@, b@) == any_defined(a@, types_model(union@)));
            r
        },
        (Type::Function(f1), Type::Function(f2)) => {
            proof {
                reveal_with_fuel(type_model, 2);
                lemma_members_smaller(a@);
                lemma_members_smaller(b@);
            }
            if f1.args.len() != f2.args.len() {
                return Some(false);
            }
            let params = pairwise_subtypes(&f2.args, &f1.args);
            assert(params is Some == pairs_defined(types_model(f2.args@), types_model(f1.args@)));
            match params {
                None => None,
                Some(false) => Some(false),
                Some(true) => subtype_checked(&f1.ret, &f2.ret),
            }
        },
        (Type::Tuple(t1), Type::Tuple(t2)) => {
            if t1.len() == t2.len() {
                let r = pairwise_subtypes(t1, t2);
                assert(subtype_defined(a@, b@) == pairs_defined(
                    types_model(t1@),
                    types_model(t2@),
                ));
                r
            } else {
                Some(false)
            }
        },
        _ => Some(false),
    }
}

/// Check if `a` is a subtype of `b`: whether a value of type `a` can do
/// everything that one of type `b` can.
pub fn is_subtype(a: &Type, b: &Type) -> (r: bool)
    requires
        subtype_defined(a@, b@),
    ensures
        r == subtype(a@, b@),
{
    subtype_checked(a, b).unwrap()
}

/// Check if `a` is a subtype of `b`, wherever that can be settled; there
/// is no answer where a bytes literal would have to be widened.
pub fn try_is_subtype(a: &Type, b: &Type) -> (r: Option<bool>)
    ensures
        r is Some == subtype_defined(a@, b@),
        r matches Some(v) ==> v == subtype(a@, b@),
{
    subtype_checked(a, b)
}

/// What a type contributes to a union: its members if it is itself a union,
/// else the type alone.
pub open spec fn members(t: Ty) -> Seq<Ty> {
    match t {
        Ty::Union(us) => us,
        _ => seq![t],
    }
}

/// The members of all of `ts`, in order. Unions are opened one level deep.
pub open spec fn flattened(ts: Seq<Ty>) -> Seq<Ty>
    decreases ts.len(),
{
    if ts.len() == 0 {
        Seq::empty()
    } else {
        flattened(ts.drop_last()) + members(ts.last())
    }
}

/// Member `i` holds its place against member `j`: it is no subtype of `j`,
/// or the two are subtypes of each other and `i` comes first.
pub open spec fn holds_against(ts: Seq<Ty>, i: int, j: int) -> bool {
    !subtype(ts[i], ts[j]) || (subtype(ts[j], ts[i]) && i < j)
}

/// Member `i` holds its place against every other member before position `n`.
pub open spec fn holds_before(ts: Seq<Ty>, i: int, n: int) -> bool {
    forall|j: int| 0 <= j < n && j != i ==> #[trigger] holds_against(ts, i, j)
}

/// Member `i` stays when `ts` is collapsed.
pub open spec fn kept(ts: Seq<Ty>, i: int) -> bool {
    holds_before(ts, i, ts.len() as int)
}

/// The kept members among the first `n` of `ts`, in order.
pub open spec fn collapsed_upto(ts: Seq<Ty>, n: nat) -> Seq<Ty>
    decreases n,
{
    if n == 0 {
        Seq::empty()
    } else if kept(ts, n - 1) {
        collapsed_upto(ts, (n - 1) as nat).push(ts[n - 1])
    } else {
        collapsed_upto(ts, (n - 1) as nat)
    }
}

/// `ts` without the members that are subtypes of another member; of members
/// that are subtypes of each other the first stays.
pub open spec fn collapsed(ts: Seq<Ty>) -> Seq<Ty> {
    collapsed_upto(ts, ts.len())
}

/// The type that stands for "one of `ts`".
pub open spec fn union_of(ts: Seq<Ty>) -> Ty {
    let c = collapsed(flattened(ts));
    if c.len() == 0 {
        Ty::Never
    } else if c.len() == 1 {
        c[0]
    } else {
        Ty::Union(c)
    }
}

/// Whether member `i` can be compared with member `j`, and `j` with `i`
/// where `i` is a subtype of `j`, without widening a bytes literal.
pub open spec fn pair_defined(ts: Seq<Ty>, i: int, j: int) -> bool {
    &&& subtype_defined(ts[i], ts[j])
    &&& subtype(ts[i], ts[j]) ==> subtype_defined(ts[j], ts[i])
}

/// Whether member `i` can be compared with the others without widening a
/// bytes literal. The others are taken from left to right, up to the first
/// against which `i` does not hold its place.
pub open spec fn kept_defined(ts: Seq<Ty>, i: int) -> bool {
    forall|j: int|
        0 <= j < ts.len() && j != i && holds_before(ts, i, j) ==> #[trigger] pair_defined(
            ts,
            i,
            j,
        )
}

/// Whether `ts` can be collapsed without widening a bytes literal.
pub open spec fn collapse_defined(ts: Seq<Ty>) -> bool {
    forall|i: int| 0 <= i < ts.len() ==> #[trigger] kept_defined(ts, i)
}

/// Whether the union of `ts` can be built without widening a bytes literal.
pub open spec fn union_defined(ts: Seq<Ty>) -> bool {
    collapse_defined(flattened(ts))
}

/// The models of a list with one more type are the models of the list with one
/// more model.
pub proof fn lemma_types_model_push(s: Seq<Type>, x: Type)
    ensures
        types_model(s.push(x)) == types_model(s).push(x@),
{
    assert(types_model(s.push(x)) =~= types_model(s).push(x@));
}

fn is_kept(types: &Vec<Type>, i1: usize) -> (r: Option<bool>)
    requires
        i1 < types.len(),
    ensures
        r is Some == kept_defined(types_model(types@), i1 as int),
        r matches Some(v) ==> v == kept(types_model(types@), i1 as int),
{
    let ghost ts = types_model(types@);
    let mut i2: usize = 0;
    while i2 < types.len()
        invariant
            i2 <= types.len(),
            i1 < types.len(),
            ts == types_model(types@),
            holds_before(ts, i1 as int, i2 as int),
            forall|j: int| 0 <= j < i2 && j != i1 ==> #[trigger] pair_defined(ts, i1 as int, j),
        decreases types.len() - i2,
    {
        if i1 != i2 {
            assert(ts[i1 as int] == types@[i1 as int]@ && ts[i2 as int] == types@[i2 as int]@);
            match try_is_subtype(&types[i1], &types[i2]) {
                None => {
                    assert(!pair_defined(ts, i1 as int, i2 as int));
                    return None;
                },
                Some(true) => {
                    match try_is_subtype(&types[i2], &types[i1]) {
                        None => {
                            assert(!pair_defined(ts, i1 as int, i2 as int));
                            return None;
                        },
                        Some(other) => {
                            if !(other && i1 < i2) {
                                assert(!holds_against(ts, i1 as int, i2 as int));
                                return Some(false);
                            }
                        },
                    }
                },
                Some(false) => {},
            }
            assert(holds_against(ts, i1 as int, i2 as int));
            assert(pair_defined(ts, i1 as int, i2 as int));
        }
        i2 += 1;
    }
    Some(true)
}

fn collapse_subtypes(types: &Vec<Type>) -> (r: Option<Vec<Type>>)
    ensures
        r is Some == collapse_defined(types_model(types@)),
        r matches Some(v) ==> types_model(v@) == collapsed(types_model(types@)),
{
    let ghost ts = types_model(types@);
    let mut out: Vec<Type> = Vec::new();
    let mut i: usize = 0;
    assert(types_model(out@) =~= collapsed_upto(ts, 0));
    while i < types.len()
        invariant
            i <= types.len(),
            ts == types_model(types@),
            forall|j: int| 0 <= j < i ==> #[trigger] kept_defined(ts, j),
            types_model(out@) == collapsed_upto(ts, i as nat),
        decreases types.len() - i,
    {
        match is_kept(types, i) {
            None => {
                assert(!kept_defined(ts, i as int));
                return None;
            },
            Some(true) => {
                proof {
                    lemma_types_model_push(out@, types@[i as int]);
                }
                out.push(types[i].clone());
            },
            Some(false) => {},
        }
        i += 1;
    }
    Some(out)
}

fn extend_cloned(out: &mut Vec<Type>, src: &Vec<Type>)
    ensures
        types_model(final(out)@) == types_model(old(out)@) + types_model(src@),
{
    let mut i: usize = 0;
    assert(types_model(out@) =~= types_model(old(out)@) + types_model(src@).subrange(0, 0));
    while i < src.len()
        invariant
            i <= src.len(),
            types_model(out@) == types_model(old(out)@) + types_model(src@).subrange(0, i as int),
        decreases src.len() - i,
    {
        proof {
            lemma_types_model_push(out@, src@[i as int]);
            assert((types_model(old(out)@) + types_model(src@).subrange(0, i as int)).push(
                src@[i as int]@,
            ) =~= types_model(old(out)@) + types_model(src@).subrange(0, i + 1));
        }
        out.push(src[i].clone());
        i += 1;
    }
    assert(types_model(src@).subrange(0, src.len() as int) =~= types_model(src@));
}

fn flatten(types: &Vec<Type>) -> (r: Vec<Type>)
    ensures
        types_model(r@) == flattened(types_model(types@)),
{
    let ghost ts = types_model(types@);
    let mut out: Vec<Type> = Vec::new();
    let mut i: usize = 0;
    assert(types_model(out@) =~= flattened(ts.subrange(0, 0)));
    while i < types.len()
        invariant
            i <= types.len(),
            ts == types_model(types@),
            types_model(out@) == flattened(ts.subrange(0, i as int)),
        decreases types.len() - i,
    {
        proof {
            assert(ts.subrange(0, i + 1).drop_last() =~= ts.subrange(0, i as int));
        }
        match &types[i] {
            Type::Union(inner) => {
                extend_cloned(&mut out, inner);
            },
            other => {
                proof {
                    lemma_types_model_push(out@, *other);
                    assert(types_model(out@).push(other@) =~= types_model(out@) + members(
                        other@,
                    ));
                }
                out.push(other.clone());
            },
        }
        i += 1;
    }
    assert(ts.subrange(0, types.len() as int) =~= ts);
    out
}

fn collapse_union_types(types: &Vec<Type>) -> (r: Option<Vec<Type>>)
    ensures
        r is Some == union_defined(types_model(types@)),
        r matches Some(v) ==> types_model(v@) == collapsed(flattened(types_model(types@))),
{
    let flat = flatten(types);
    collapse_subtypes(&flat)
}

/// The type that stands for "one of `types`", wherever it can be built;
/// there is none where a bytes literal would have to be widened.
pub fn try_union(types: Vec<Type>) -> (r: Option<Type>)
    ensures
        r is Some == union_defined(types_model(types@)),
        r matches Some(t) ==> t@ == union_of(types_model(types@)),
{
    let mut types = match collapse_union_types(&types) {
        Some(types) => types,
        None => {
            return None;
        },
    };
    if types.len() == 0 {
        Some(Type::Never)
    } else if types.len() == 1 {
        types.pop()
    } else {
        Some(Type::Union(types))
    }
}

/// The type that stands for "one of `types`": unions among them are opened,
/// members that another member covers are dropped, and what is left is
/// `Never` if empty, the member itself if single, else a union.
pub fn union(types: Vec<Type>) -> (r: Type)
    requires
        union_defined(types_model(types@)),
    ensures
        r@ == union_of(types_model(types@)),
{
    try_union(types).unwrap()
}

} // verus!
