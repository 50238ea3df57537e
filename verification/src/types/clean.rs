use crate::types::base::{
    bindings_model, entries_model, type_model, types_model, Binding, ScopedType, Type, TypeLiteral,
};
use crate::types::compare::{bindings_find, lemma_assoc_map_key, lemma_assoc_map_key_present};
use crate::types::laws::{all_clean, clean};
use vstd::prelude::*;

verus! {

/// Every type that the mapping binds a name to is clean.
pub open spec fn bindings_clean(m: Map<Seq<char>, Binding>) -> bool {
    forall|k: Seq<char>| m.contains_key(k) ==> clean(#[trigger] m[k].typ)
}

fn types_are_clean(types: &Vec<Type>) -> (r: bool)
    ensures
        r == all_clean(types_model(types@)),
    decreases types,
{
    let mut i: usize = 0;
    while i < types.len()
        invariant
            i <= types.len(),
            forall|j: int| 0 <= j < i ==> clean(#[trigger] types_model(types@)[j]),
        decreases types.len() - i,
    {
        assert(types_model(types@)[i as int] == types@[i as int]@);
        if !type_is_clean(&types[i]) {
            return false;
        }
        i += 1;
    }
    true
}

/// Whether every type that a list of entries binds a name to is clean.
/// Entries that a later entry for the same name replaces do not count.
pub fn entries_are_clean(entries: &Vec<(String, ScopedType)>) -> (r: bool)
    ensures
        r == bindings_clean(bindings_model(entries@)),
    decreases entries,
{
    let ghost m = bindings_model(entries@);
    let mut i: usize = 0;
    while i < entries.len()
        invariant
            i <= entries.len(),
            m == bindings_model(entries@),
            forall|j: int|
                0 <= j < i ==> m.contains_key(#[trigger] entries@[j].0@) && clean(
                    m[entries@[j].0@].typ,
                ),
        decreases entries.len() - i,
    {
        proof {
            lemma_assoc_map_key_present(entries_model(entries@), i as int);
        }
        match bindings_find(entries, &entries[i].0) {
            Some(j) => {
                if !type_is_clean(&entries[j].1.typ) {
                    assert(m.contains_key(entries@[i as int].0@));
                    assert(m[entries@[i as int].0@].typ == entries@[j as int].1.typ@);
                    return false;
                }
            },
            None => {},
        }
        i += 1;
    }
    proof {
        assert forall|k: Seq<char>| m.contains_key(k) implies clean(#[trigger] m[k].typ) by {
            lemma_assoc_map_key(entries_model(entries@), k);
            let j = choose|j: int| 0 <= j < entries@.len() && entries_model(entries@)[j].0 == k;
            assert(entries@[j].0@ == k);
        }
    }
    true
}

fn type_is_clean(t: &Type) -> (r: bool)
    ensures
        r == clean(t@),
    decreases t,
{
    match t {
        Type::Literal(literal) => match literal {
            TypeLiteral::BytesLiteral(_) => false,
            _ => true,
        },
        Type::Tuple(types) => {
            let r = types_are_clean(types);
            assert(t@->Tuple_0 == types_model(types@));
            assert(r == all_clean(t@->Tuple_0));
            r
        },
        Type::Union(types) => {
            let r = types_are_clean(types);
            assert(t@->Union_0 == types_model(types@));
            assert(r == all_clean(t@->Union_0));
            r
        },
        Type::Function(f) => {
            proof {
                reveal_with_fuel(type_model, 2);
            }
            let params = types_are_clean(&f.args);
            let result = type_is_clean(&f.ret);
            assert(t@->Function_0.params == types_model(f.args@));
            assert(params == all_clean(t@->Function_0.params));
            params && result
        },
        Type::Module(_, bindings) => {
            let r = entries_are_clean(bindings);
            assert(t@->Module_1 == bindings_model(bindings@));
            assert(r == bindings_clean(t@->Module_1));
            r
        },
        _ => true,
    }
}

impl Type {
    /// Whether no bytes literal occurs anywhere that a check can reach from
    /// this type.
    pub fn is_clean(&self) -> (r: bool)
        ensures
            r == clean(self@),
    {
        type_is_clean(self)
    }
}

/// Whether every one of the types is clean.
pub fn all_are_clean(types: &Vec<Type>) -> (r: bool)
    ensures
        r == all_clean(types_model(types@)),
{
    types_are_clean(types)
}

} // verus!
