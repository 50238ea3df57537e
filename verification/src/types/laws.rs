use crate::types::base::{Lit, Ty};
use crate::types::helpers::{
    collapsed, collapsed_upto, flattened, holds_against, holds_before, is_gradual, kept,
    kept_defined, lemma_members_smaller, literal_atom, members, pair_defined, subtype,
    subtype_defined, ty_size, union_defined, union_of,
};
use vstd::prelude::*;

verus! {

/// Neither `Any` nor `Unknown` occurs in `t`: not as `t` itself, nor among
/// the members of a tuple or a union, nor in a function's signature.
pub open spec fn gradual_free(t: Ty) -> bool
    decreases t,
{
    match t {
        Ty::Any => false,
        Ty::Unknown => false,
        Ty::Tuple(s) => forall|i: int| 0 <= i < s.len() ==> gradual_free(#[trigger] s[i]),
        Ty::Union(s) => forall|i: int| 0 <= i < s.len() ==> gradual_free(#[trigger] s[i]),
        Ty::Function(f) => {
            &&& forall|i: int| 0 <= i < f.params.len() ==> gradual_free(#[trigger] f.params[i])
            &&& gradual_free(*f.ret)
        },
        _ => true,
    }
}

/// No bytes literal occurs in `t`: not as `t` itself, nor among the members
/// of a tuple or a union, nor in a function's signature.
pub open spec fn bytes_free(t: Ty) -> bool
    decreases t,
{
    match t {
        Ty::Literal(Lit::Bytes(_)) => false,
        Ty::Tuple(s) => forall|i: int| 0 <= i < s.len() ==> bytes_free(#[trigger] s[i]),
        Ty::Union(s) => forall|i: int| 0 <= i < s.len() ==> bytes_free(#[trigger] s[i]),
        Ty::Function(f) => {
            &&& forall|i: int| 0 <= i < f.params.len() ==> bytes_free(#[trigger] f.params[i])
            &&& bytes_free(*f.ret)
        },
        _ => true,
    }
}

/// No bytes literal occurs anywhere that a check can reach from `t`: not in
/// `t` as for [`bytes_free`], nor in what a module binds.
pub open spec fn clean(t: Ty) -> bool
    decreases t,
{
    match t {
        Ty::Literal(Lit::Bytes(_)) => false,
        Ty::Tuple(s) => forall|i: int| 0 <= i < s.len() ==> clean(#[trigger] s[i]),
        Ty::Union(s) => forall|i: int| 0 <= i < s.len() ==> clean(#[trigger] s[i]),
        Ty::Function(f) => {
            &&& forall|i: int| 0 <= i < f.params.len() ==> clean(#[trigger] f.params[i])
            &&& clean(*f.ret)
        },
        Ty::Module(_, m) => forall|k: Seq<char>| m.contains_key(k) ==> clean(#[trigger] m[k].typ),
        _ => true,
    }
}

/// Every one of `ts` is clean.
pub open spec fn all_clean(ts: Seq<Ty>) -> bool {
    forall|i: int| 0 <= i < ts.len() ==> clean(#[trigger] ts[i])
}

/// No bytes literal occurs in any of `ts`.
pub open spec fn all_bytes_free(ts: Seq<Ty>) -> bool {
    forall|i: int| 0 <= i < ts.len() ==> bytes_free(#[trigger] ts[i])
}

/// No member of `t`, if it is a union, is itself a union.
pub open spec fn flat(t: Ty) -> bool {
    t matches Ty::Union(us) ==> forall|i: int| 0 <= i < us.len() ==> !(#[trigger] us[i] is Union)
}

/// What holds of every union that `union` builds from flat types: it has at
/// least two members, none of them a union, and none a subtype of another.
pub open spec fn normalized(t: Ty) -> bool {
    t matches Ty::Union(us) ==> {
        &&& us.len() >= 2
        &&& forall|i: int| 0 <= i < us.len() ==> !(#[trigger] us[i] is Union)
        &&& forall|i: int, j: int|
            0 <= i < us.len() && 0 <= j < us.len() && i != j ==> !subtype(
                #[trigger] us[i],
                #[trigger] us[j],
            )
    }
}

/// Every type is a subtype of itself, and that can always be settled.
pub proof fn lemma_subtype_reflexive(t: Ty)
    ensures
        subtype(t, t),
        subtype_defined(t, t),
{
}

/// Subtyping is transitive wherever the type in the middle holds neither
/// `Any` nor `Unknown`, which stand above and below every type at once.
pub proof fn lemma_subtype_transitive(a: Ty, b: Ty, c: Ty)
    requires
        subtype(a, b),
        subtype(b, c),
        gradual_free(b),
    ensures
        subtype(a, c),
    decreases ty_size(a) + ty_size(b) + ty_size(c),
{
    lemma_members_smaller(a);
    lemma_members_smaller(b);
    lemma_members_smaller(c);
    if a == b || b == c || a == c {
        return ;
    }
    if let Ty::Literal(l) = a {
        match literal_atom(l) {
            Some(atom) => {
                lemma_subtype_transitive(atom, b, c);
            },
            None => {},
        }
        return ;
    }
    if is_gradual(a) || is_gradual(c) {
        return ;
    }
    if let Ty::Union(us) = a {
        assert forall|i: int| 0 <= i < us.len() implies subtype(#[trigger] us[i], c) by {
            lemma_subtype_transitive(us[i], b, c);
        }
        return ;
    }
    if let Ty::Union(bs) = b {
        let j = choose|j: int| 0 <= j < bs.len() && subtype(a, #[trigger] bs[j]);
        lemma_subtype_transitive(a, bs[j], c);
        return ;
    }
    if let Ty::Union(cs) = c {
        if let Ty::Literal(l) = b {
            return ;
        }
        let k = choose|k: int| 0 <= k < cs.len() && subtype(b, #[trigger] cs[k]);
        lemma_subtype_transitive(a, b, cs[k]);
        return ;
    }
    match (a, b, c) {
        (Ty::Function(f), Ty::Function(g), Ty::Function(h)) => {
            assert forall|i: int| 0 <= i < f.params.len() implies subtype(
                #[trigger] h.params[i],
                f.params[i],
            ) by {
                lemma_subtype_transitive(h.params[i], g.params[i], f.params[i]);
            }
            lemma_subtype_transitive(*f.ret, *g.ret, *h.ret);
        },
        (Ty::Tuple(s), Ty::Tuple(t), Ty::Tuple(u)) => {
            assert forall|i: int| 0 <= i < s.len() implies subtype(#[trigger] s[i], u[i]) by {
                lemma_subtype_transitive(s[i], t[i], u[i]);
            }
        },
        _ => {},
    }
}

/// Where no bytes literal occurs on either side, the subtype question can
/// be settled.
pub proof fn lemma_bytes_free_defined(a: Ty, b: Ty)
    requires
        bytes_free(a),
        bytes_free(b),
    ensures
        subtype_defined(a, b),
    decreases ty_size(a) + ty_size(b),
{
    lemma_members_smaller(a);
    lemma_members_smaller(b);
    if a == b {
        return ;
    }
    if let Ty::Literal(l) = a {
        match literal_atom(l) {
            Some(atom) => {
                lemma_bytes_free_defined(atom, b);
            },
            None => {},
        }
        return ;
    }
    if is_gradual(a) || is_gradual(b) {
        return ;
    }
    match (a, b) {
        (Ty::Int, Ty::Float) => {},
        (Ty::Never, _) => {},
        (Ty::Union(us), _) => {
            assert forall|i: int| 0 <= i < us.len() implies subtype_defined(
                #[trigger] us[i],
                b,
            ) by {
                lemma_bytes_free_defined(us[i], b);
            }
        },
        (_, Ty::Union(us)) => {
            assert forall|i: int| 0 <= i < us.len() implies subtype_defined(
                a,
                #[trigger] us[i],
            ) by {
                lemma_bytes_free_defined(a, us[i]);
            }
        },
        (Ty::Function(f), Ty::Function(g)) => {
            if f.params.len() == g.params.len() {
                assert forall|i: int| 0 <= i < f.params.len() implies subtype_defined(
                    #[trigger] g.params[i],
                    f.params[i],
                ) by {
                    lemma_bytes_free_defined(g.params[i], f.params[i]);
                }
                lemma_bytes_free_defined(*f.ret, *g.ret);
            }
        },
        (Ty::Tuple(s), Ty::Tuple(t)) => {
            if s.len() == t.len() {
                assert forall|i: int| 0 <= i < s.len() implies subtype_defined(
                    #[trigger] s[i],
                    t[i],
                ) by {
                    lemma_bytes_free_defined(s[i], t[i]);
                }
            }
        },
        _ => {},
    }
}

/// Opening unions keeps bytes literals out.
pub proof fn lemma_flattened_bytes_free(ts: Seq<Ty>)
    requires
        all_bytes_free(ts),
    ensures
        all_bytes_free(flattened(ts)),
    decreases ts.len(),
{
    if ts.len() > 0 {
        lemma_flattened_bytes_free(ts.drop_last());
        let head = flattened(ts.drop_last());
        let tail = members(ts.last());
        assert(bytes_free(ts.last()));
        assert forall|i: int| 0 <= i < (head + tail).len() implies bytes_free(
            #[trigger] (head + tail)[i],
        ) by {
            if i < head.len() {
                assert((head + tail)[i] == head[i]);
            } else {
                assert((head + tail)[i] == tail[i - head.len()]);
            }
        }
    }
}

/// Every member of what is left of the first `n` of `ts` after collapsing
/// is one of them that is kept.
pub proof fn lemma_collapsed_members(ts: Seq<Ty>, n: nat, k: int)
    requires
        n <= ts.len(),
        0 <= k < collapsed_upto(ts, n).len(),
    ensures
        exists|i: int| 0 <= i < n && kept(ts, i) && ts[i] == collapsed_upto(ts, n)[k],
    decreases n,
{
    if n > 0 {
        let prev = collapsed_upto(ts, (n - 1) as nat);
        if kept(ts, n - 1) && k == prev.len() {
            assert(ts[n - 1] == collapsed_upto(ts, n)[k]);
        } else {
            lemma_collapsed_members(ts, (n - 1) as nat, k);
        }
    }
}

/// Two members of what is left of the first `n` of `ts` after collapsing
/// are two of them that are kept, and stand in the same order.
pub proof fn lemma_collapsed_pair(ts: Seq<Ty>, n: nat, k1: int, k2: int)
    requires
        n <= ts.len(),
        0 <= k1 < k2 < collapsed_upto(ts, n).len(),
    ensures
        exists|i1: int, i2: int|
            0 <= i1 < i2 < n && kept(ts, i1) && kept(ts, i2) && ts[i1] == collapsed_upto(ts, n)[k1]
                && ts[i2] == collapsed_upto(ts, n)[k2],
    decreases n,
{
    if n > 0 {
        let prev = collapsed_upto(ts, (n - 1) as nat);
        if kept(ts, n - 1) && k2 == prev.len() {
            lemma_collapsed_members(ts, (n - 1) as nat, k1);
            let i1 = choose|i: int| 0 <= i < n - 1 && kept(ts, i) && ts[i] == prev[k1];
            assert(0 <= i1 < n - 1 < n && kept(ts, i1) && kept(ts, n - 1) && ts[i1]
                == collapsed_upto(ts, n)[k1] && ts[n - 1] == collapsed_upto(ts, n)[k2]);
        } else {
            lemma_collapsed_pair(ts, (n - 1) as nat, k1, k2);
            let (i1, i2) = choose|i1: int, i2: int|
                0 <= i1 < i2 < n - 1 && kept(ts, i1) && kept(ts, i2) && ts[i1] == prev[k1]
                    && ts[i2] == prev[k2];
            assert(0 <= i1 < i2 < n && kept(ts, i1) && kept(ts, i2) && ts[i1] == collapsed_upto(
                ts,
                n,
            )[k1] && ts[i2] == collapsed_upto(ts, n)[k2]);
        }
    }
}

/// Of two kept members neither is a subtype of the other.
pub proof fn lemma_kept_unrelated(ts: Seq<Ty>, i1: int, i2: int)
    requires
        0 <= i1 < i2 < ts.len(),
        kept(ts, i1),
        kept(ts, i2),
    ensures
        !subtype(ts[i1], ts[i2]),
        !subtype(ts[i2], ts[i1]),
{
    assert(holds_against(ts, i1, i2));
    assert(holds_against(ts, i2, i1));
}

/// Where every one of the first `n` members is kept, collapsing them
/// changes nothing.
pub proof fn lemma_collapsed_all_kept(ts: Seq<Ty>, n: nat)
    requires
        n <= ts.len(),
        forall|i: int| 0 <= i < n ==> kept(ts, i),
    ensures
        collapsed_upto(ts, n) == ts.subrange(0, n as int),
    decreases n,
{
    if n > 0 {
        lemma_collapsed_all_kept(ts, (n - 1) as nat);
        assert(ts.subrange(0, n - 1).push(ts[n - 1]) =~= ts.subrange(0, n as int));
    } else {
        assert(ts.subrange(0, 0) =~= Seq::<Ty>::empty());
    }
}

/// Where none of the members from position `n` up to `m` is kept, they add
/// nothing to the collapsed sequence.
pub proof fn lemma_collapsed_none_kept(ts: Seq<Ty>, n: nat, m: nat)
    requires
        n <= m <= ts.len(),
        forall|i: int| n <= i < m ==> !kept(ts, i),
    ensures
        collapsed_upto(ts, m) == collapsed_upto(ts, n),
    decreases m,
{
    if m > n {
        lemma_collapsed_none_kept(ts, n, (m - 1) as nat);
    }
}

/// Opening unions whose members are no unions leaves no union behind.
pub proof fn lemma_flattened_flat(ts: Seq<Ty>)
    requires
        forall|i: int| 0 <= i < ts.len() ==> flat(#[trigger] ts[i]),
    ensures
        forall|k: int| 0 <= k < flattened(ts).len() ==> !(#[trigger] flattened(ts)[k] is Union),
    decreases ts.len(),
{
    if ts.len() > 0 {
        lemma_flattened_flat(ts.drop_last());
        let head = flattened(ts.drop_last());
        let tail = members(ts.last());
        assert(flat(ts.last()));
        assert forall|k: int| 0 <= k < (head + tail).len() implies !(#[trigger] (head + tail)[k]
            is Union) by {
            if k < head.len() {
                assert((head + tail)[k] == head[k]);
            } else {
                assert((head + tail)[k] == tail[k - head.len()]);
            }
        }
    }
}

/// What `union` builds from flat types is normalized: a union only where
/// two or more members are left, none of them a union and none a subtype of
/// another.
pub proof fn lemma_union_normalized(ts: Seq<Ty>)
    requires
        forall|i: int| 0 <= i < ts.len() ==> flat(#[trigger] ts[i]),
    ensures
        normalized(union_of(ts)),
{
    let f = flattened(ts);
    let c = collapsed(f);
    lemma_flattened_flat(ts);
    assert forall|k: int| 0 <= k < c.len() implies !(#[trigger] c[k] is Union) by {
        lemma_collapsed_members(f, f.len(), k);
    }
    assert forall|k1: int, k2: int|
        0 <= k1 < c.len() && 0 <= k2 < c.len() && k1 != k2 implies !subtype(
        #[trigger] c[k1],
        #[trigger] c[k2],
    ) by {
        if k1 < k2 {
            lemma_collapsed_pair(f, f.len(), k1, k2);
            let (i1, i2) = choose|i1: int, i2: int|
                0 <= i1 < i2 < f.len() && kept(f, i1) && kept(f, i2) && f[i1] == c[k1] && f[i2]
                    == c[k2];
            lemma_kept_unrelated(f, i1, i2);
        } else {
            lemma_collapsed_pair(f, f.len(), k2, k1);
            let (i1, i2) = choose|i1: int, i2: int|
                0 <= i1 < i2 < f.len() && kept(f, i1) && kept(f, i2) && f[i1] == c[k2] && f[i2]
                    == c[k1];
            lemma_kept_unrelated(f, i1, i2);
        }
    }
}

/// What `union` builds from flat types is no union that holds a union.
pub proof fn lemma_union_flat(ts: Seq<Ty>)
    requires
        forall|i: int| 0 <= i < ts.len() ==> flat(#[trigger] ts[i]),
    ensures
        flat(union_of(ts)),
{
    lemma_union_normalized(ts);
}

/// Building a union from flat types and then from its result alone, or
/// from its result twice, changes nothing any more.
pub proof fn lemma_union_stable(ts: Seq<Ty>)
    requires
        forall|i: int| 0 <= i < ts.len() ==> flat(#[trigger] ts[i]),
    ensures
        union_of(seq![union_of(ts)]) == union_of(ts),
        union_of(seq![union_of(ts), union_of(ts)]) == union_of(ts),
{
    lemma_union_normalized(ts);
    lemma_union_idempotent(union_of(ts));
}

/// The union of a normalized type with nothing else, or with itself, is that
/// type again.
pub proof fn lemma_union_idempotent(t: Ty)
    requires
        normalized(t),
    ensures
        union_of(seq![t]) == t,
        union_of(seq![t, t]) == t,
{
    let u = members(t);
    let n = u.len();
    reveal_with_fuel(flattened, 3);
    assert(seq![t].drop_last() =~= Seq::<Ty>::empty());
    assert(flattened(seq![t]) =~= u);
    assert forall|i: int| 0 <= i < n implies kept(u, i) by {
        assert forall|j: int| 0 <= j < n && j != i implies #[trigger] holds_against(u, i, j) by {}
    }
    lemma_collapsed_all_kept(u, n);
    assert(u.subrange(0, n as int) =~= u);
    assert(seq![t, t].drop_last() =~= seq![t]);
    let d = u + u;
    assert(flattened(seq![t, t]) =~= d);
    assert forall|i: int| 0 <= i < n implies kept(d, i) by {
        assert forall|j: int| 0 <= j < d.len() && j != i implies #[trigger] holds_against(
            d,
            i,
            j,
        ) by {
            if j >= n {
                assert(d[j] == u[j - n]);
            }
        }
    }
    assert forall|i: int| n <= i < d.len() implies !kept(d, i) by {
        assert(d[i] == u[i - n]);
        assert(d[i - n] == u[i - n]);
        assert(!holds_against(d, i, i - n));
    }
    lemma_collapsed_all_kept(d, n);
    lemma_collapsed_none_kept(d, n, d.len());
    assert(d.subrange(0, n as int) =~= u);
}

/// Where no bytes literal occurs in any of `ts`, their union can be built,
/// and none occurs in it.
pub proof fn lemma_bytes_free_union(ts: Seq<Ty>)
    requires
        all_bytes_free(ts),
    ensures
        union_defined(ts),
        bytes_free(union_of(ts)),
{
    let f = flattened(ts);
    let c = collapsed(f);
    lemma_flattened_bytes_free(ts);
    assert forall|i: int| 0 <= i < f.len() implies #[trigger] kept_defined(f, i) by {
        assert forall|j: int|
            0 <= j < f.len() && j != i && holds_before(f, i, j) implies #[trigger] pair_defined(
            f,
            i,
            j,
        ) by {
            lemma_bytes_free_defined(f[i], f[j]);
            lemma_bytes_free_defined(f[j], f[i]);
        }
    }
    assert forall|k: int| 0 <= k < c.len() implies bytes_free(#[trigger] c[k]) by {
        lemma_collapsed_members(f, f.len(), k);
    }
}

/// A clean type holds no bytes literal where the subtype rules look.
pub proof fn lemma_clean_bytes_free(t: Ty)
    requires
        clean(t),
    ensures
        bytes_free(t),
    decreases t,
{
    match t {
        Ty::Tuple(s) => {
            assert forall|i: int| 0 <= i < s.len() implies bytes_free(#[trigger] s[i]) by {
                lemma_clean_bytes_free(s[i]);
            }
        },
        Ty::Union(s) => {
            assert forall|i: int| 0 <= i < s.len() implies bytes_free(#[trigger] s[i]) by {
                lemma_clean_bytes_free(s[i]);
            }
        },
        Ty::Function(f) => {
            assert forall|i: int| 0 <= i < f.params.len() implies bytes_free(
                #[trigger] f.params[i],
            ) by {
                lemma_clean_bytes_free(f.params[i]);
            }
            lemma_clean_bytes_free(*f.ret);
        },
        _ => {},
    }
}

/// Whether one clean type is a subtype of another can be settled.
pub proof fn lemma_clean_defined(a: Ty, b: Ty)
    requires
        clean(a),
        clean(b),
    ensures
        subtype_defined(a, b),
{
    lemma_clean_bytes_free(a);
    lemma_clean_bytes_free(b);
    lemma_bytes_free_defined(a, b);
}

/// Opening unions keeps clean types clean.
pub proof fn lemma_flattened_clean(ts: Seq<Ty>)
    requires
        all_clean(ts),
    ensures
        all_clean(flattened(ts)),
    decreases ts.len(),
{
    if ts.len() > 0 {
        lemma_flattened_clean(ts.drop_last());
        let head = flattened(ts.drop_last());
        let tail = members(ts.last());
        assert(clean(ts.last()));
        assert forall|i: int| 0 <= i < (head + tail).len() implies clean(
            #[trigger] (head + tail)[i],
        ) by {
            if i < head.len() {
                assert((head + tail)[i] == head[i]);
            } else {
                assert((head + tail)[i] == tail[i - head.len()]);
            }
        }
    }
}

/// The union of clean types can be built, and is clean.
pub proof fn lemma_clean_union(ts: Seq<Ty>)
    requires
        all_clean(ts),
    ensures
        union_defined(ts),
        clean(union_of(ts)),
{
    assert forall|i: int| 0 <= i < ts.len() implies bytes_free(#[trigger] ts[i]) by {
        lemma_clean_bytes_free(ts[i]);
    }
    lemma_bytes_free_union(ts);
    let f = flattened(ts);
    let c = collapsed(f);
    lemma_flattened_clean(ts);
    assert forall|k: int| 0 <= k < c.len() implies clean(#[trigger] c[k]) by {
        lemma_collapsed_members(f, f.len(), k);
    }
}

} // verus!
