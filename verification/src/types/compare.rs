use crate::ast::{bytes_eq, string_eq};
use crate::types::base::{
    assoc_map, bindings_model, entries_model, fields_model, functions_model, opt_strings_model,
    strings_model, types_model, Binding, Class, Function, PartialFunction, ScopedType, Type,
    TypeLiteral,
};
use vstd::prelude::*;
use vstd::std_specs::cmp::PartialEqSpecImpl;

verus! {

/// A name that has an entry is bound to what its last entry holds.
pub proof fn lemma_assoc_map_last(s: Seq<(Seq<char>, Binding)>, k: Seq<char>, j: int)
    requires
        0 <= j < s.len(),
        s[j].0 == k,
        forall|i: int| j < i < s.len() ==> s[i].0 != k,
    ensures
        assoc_map(s).contains_key(k),
        assoc_map(s)[k] == s[j].1,
    decreases s.len(),
{
    if j < s.len() - 1 {
        lemma_assoc_map_last(s.drop_last(), k, j);
    }
}

/// A name without an entry is not bound.
pub proof fn lemma_assoc_map_absent(s: Seq<(Seq<char>, Binding)>, k: Seq<char>)
    requires
        forall|i: int| 0 <= i < s.len() ==> s[i].0 != k,
    ensures
        !assoc_map(s).contains_key(k),
    decreases s.len(),
{
    if s.len() > 0 {
        lemma_assoc_map_absent(s.drop_last(), k);
    }
}

/// Every bound name has an entry.
pub proof fn lemma_assoc_map_key(s: Seq<(Seq<char>, Binding)>, k: Seq<char>)
    requires
        assoc_map(s).contains_key(k),
    ensures
        exists|i: int| 0 <= i < s.len() && s[i].0 == k,
{
    if forall|i: int| 0 <= i < s.len() ==> s[i].0 != k {
        lemma_assoc_map_absent(s, k);
    }
}

/// The index of the entry that decides what `name` is bound to, if it has one.
pub fn bindings_find(v: &Vec<(String, ScopedType)>, name: &String) -> (r: Option<usize>)
    ensures
        match r {
            Some(j) => {
                &&& j < v.len()
                &&& v@[j as int].0@ == name@
                &&& bindings_model(v@).contains_key(name@)
                &&& bindings_model(v@)[name@] == v@[j as int].1@
            },
            None => !bindings_model(v@).contains_key(name@),
        },
{
    let mut i: usize = v.len();
    while i > 0
        invariant
            i <= v.len(),
            forall|j: int| i <= j < v.len() ==> v@[j].0@ != name@,
        decreases i,
    {
        i -= 1;
        if string_eq(&v[i].0, name) {
            proof {
                lemma_assoc_map_last(entries_model(v@), name@, i as int);
            }
            return Some(i);
        }
    }
    proof {
        lemma_assoc_map_absent(entries_model(v@), name@);
    }
    None
}

fn literal_eq(a: &TypeLiteral, b: &TypeLiteral) -> (r: bool)
    ensures
        r == (a@ == b@),
{
    match (a, b) {
        (TypeLiteral::StringLiteral(x), TypeLiteral::StringLiteral(y)) => string_eq(x, y),
        (TypeLiteral::BytesLiteral(x), TypeLiteral::BytesLiteral(y)) => bytes_eq(x, y),
        (TypeLiteral::IntLiteral(x), TypeLiteral::IntLiteral(y)) => *x == *y,
        (TypeLiteral::FloatLiteral(x), TypeLiteral::FloatLiteral(y)) => string_eq(x, y),
        (TypeLiteral::BooleanLiteral(x), TypeLiteral::BooleanLiteral(y)) => *x == *y,
        (TypeLiteral::NoneLiteral, TypeLiteral::NoneLiteral) => true,
        (TypeLiteral::EllipsisLiteral, TypeLiteral::EllipsisLiteral) => true,
        _ => false,
    }
}

fn strings_eq(a: &Vec<String>, b: &Vec<String>) -> (r: bool)
    ensures
        r == (strings_model(a@) == strings_model(b@)),
{
    if a.len() != b.len() {
        assert(strings_model(a@).len() != strings_model(b@).len());
        return false;
    }
    let mut i: usize = 0;
    while i < a.len()
        invariant
            i <= a.len(),
            a.len() == b.len(),
            forall|j: int| 0 <= j < i ==> a@[j]@ == b@[j]@,
        decreases a.len() - i,
    {
        if !string_eq(&a[i], &b[i]) {
            assert(strings_model(a@)[i as int] != strings_model(b@)[i as int]);
            return false;
        }
        i += 1;
    }
    assert(strings_model(a@) =~= strings_model(b@));
    true
}

fn opt_strings_eq(a: &Option<Vec<String>>, b: &Option<Vec<String>>) -> (r: bool)
    ensures
        r == (opt_strings_model(*a) == opt_strings_model(*b)),
{
    match (a, b) {
        (Some(x), Some(y)) => strings_eq(x, y),
        (None, None) => true,
        _ => false,
    }
}

fn type_eq(a: &Type, b: &Type) -> (r: bool)
    ensures
        r == (a@ == b@),
    decreases a,
{
    match (a, b) {
        (Type::Any, Type::Any) => true,
        (Type::Unknown, Type::Unknown) => true,
        (Type::Never, Type::Never) => true,
        (Type::String, Type::String) => true,
        (Type::Int, Type::Int) => true,
        (Type::Float, Type::Float) => true,
        (Type::Bool, Type::Bool) => true,
        (Type::NoneType, Type::NoneType) => true,
        (Type::Ellipsis, Type::Ellipsis) => true,
        (Type::Tuple(x), Type::Tuple(y)) => types_eq(x, y),
        (Type::Literal(x), Type::Literal(y)) => literal_eq(x, y),
        (Type::Function(x), Type::Function(y)) => function_eq(x, y),
        (Type::PartialFunction(x), Type::PartialFunction(y)) => partial_eq(x, y),
        (Type::Class(x), Type::Class(y)) => class_eq(x, y),
        (Type::Union(x), Type::Union(y)) => types_eq(x, y),
        (Type::Module(n1, b1), Type::Module(n2, b2)) => {
            let x = bindings_within(b1, b2);
            let y = bindings_names_within(b2, b1);
            proof {
                if x && y {
                    lemma_submap_same_names(bindings_model(b1@), bindings_model(b2@));
                }
            }
            string_eq(n1, n2) && x && y
        },
        _ => false,
    }
}

fn types_eq(a: &Vec<Type>, b: &Vec<Type>) -> (r: bool)
    ensures
        r == (types_model(a@) == types_model(b@)),
    decreases a,
{
    if a.len() != b.len() {
        assert(types_model(a@).len() != types_model(b@).len());
        return false;
    }
    let mut i: usize = 0;
    while i < a.len()
        invariant
            i <= a.len(),
            a.len() == b.len(),
            forall|j: int| 0 <= j < i ==> a@[j]@ == b@[j]@,
        decreases a.len() - i,
    {
        if !type_eq(&a[i], &b[i]) {
            assert(types_model(a@)[i as int] != types_model(b@)[i as int]);
            return false;
        }
        i += 1;
    }
    assert(types_model(a@) =~= types_model(b@));
    true
}

fn function_eq(a: &Function, b: &Function) -> (r: bool)
    ensures
        r == (a@ == b@),
    decreases a,
{
    let x = types_eq(&a.args, &b.args);
    let y = strings_eq(&a.arg_names, &b.arg_names);
    let z = type_eq(&a.ret, &b.ret);
    x && y && z
}

fn functions_eq(a: &Vec<Function>, b: &Vec<Function>) -> (r: bool)
    ensures
        r == (functions_model(a@) == functions_model(b@)),
    decreases a,
{
    if a.len() != b.len() {
        assert(functions_model(a@).len() != functions_model(b@).len());
        return false;
    }
    let mut i: usize = 0;
    while i < a.len()
        invariant
            i <= a.len(),
            a.len() == b.len(),
            forall|j: int| 0 <= j < i ==> a@[j]@ == b@[j]@,
        decreases a.len() - i,
    {
        if !function_eq(&a[i], &b[i]) {
            assert(functions_model(a@)[i as int] != functions_model(b@)[i as int]);
            return false;
        }
        i += 1;
    }
    assert(functions_model(a@) =~= functions_model(b@));
    true
}

fn partial_eq(a: &PartialFunction, b: &PartialFunction) -> (r: bool)
    ensures
        r == (a@ == b@),
    decreases a,
{
    let w = a.ast == b.ast;
    let x = match (&a.args, &b.args) {
        (Some(p), Some(q)) => types_eq(p, q),
        (None, None) => true,
        _ => false,
    };
    let y = opt_strings_eq(&a.arg_names, &b.arg_names);
    let z = match (&a.ret, &b.ret) {
        (Some(p), Some(q)) => type_eq(p, q),
        (None, None) => true,
        _ => false,
    };
    w && x && y && z
}

fn fields_eq(a: &Vec<(String, Type)>, b: &Vec<(String, Type)>) -> (r: bool)
    ensures
        r == (fields_model(a@) == fields_model(b@)),
    decreases a,
{
    if a.len() != b.len() {
        assert(fields_model(a@).len() != fields_model(b@).len());
        return false;
    }
    let mut i: usize = 0;
    while i < a.len()
        invariant
            i <= a.len(),
            a.len() == b.len(),
            forall|j: int| 0 <= j < i ==> fields_model(a@)[j] == fields_model(b@)[j],
        decreases a.len() - i,
    {
        let x = type_eq(&a[i].1, &b[i].1);
        if !(string_eq(&a[i].0, &b[i].0) && x) {
            assert(fields_model(a@)[i as int] != fields_model(b@)[i as int]);
            return false;
        }
        i += 1;
    }
    assert(fields_model(a@) =~= fields_model(b@));
    true
}

fn class_eq(a: &Class, b: &Class) -> (r: bool)
    ensures
        r == (a@ == b@),
    decreases a,
{
    let x = functions_eq(&a.functions, &b.functions);
    let y = fields_eq(&a.parameters, &b.parameters);
    string_eq(&a.name, &b.name) && x && y
}

fn scoped_eq(a: &ScopedType, b: &ScopedType) -> (r: bool)
    ensures
        r == (a@ == b@),
    decreases a,
{
    let x = type_eq(&a.typ, &b.typ);
    x && a.is_locked == b.is_locked
}

/// The name of every entry is bound.
pub proof fn lemma_assoc_map_key_present(s: Seq<(Seq<char>, Binding)>, i: int)
    requires
        0 <= i < s.len(),
    ensures
        assoc_map(s).contains_key(s[i].0),
    decreases s.len(),
{
    if i < s.len() - 1 {
        lemma_assoc_map_key_present(s.drop_last(), i);
    }
}

/// Whether every name bound by `a` is bound by `b` to the same thing.
fn bindings_within(a: &Vec<(String, ScopedType)>, b: &Vec<(String, ScopedType)>) -> (r: bool)
    ensures
        r == bindings_model(a@).submap_of(bindings_model(b@)),
    decreases a,
{
    let ghost ma = bindings_model(a@);
    let ghost mb = bindings_model(b@);
    let mut i: usize = 0;
    while i < a.len()
        invariant
            i <= a.len(),
            ma == bindings_model(a@),
            mb == bindings_model(b@),
            forall|j: int|
                0 <= j < i ==> {
                    &&& ma.contains_key(#[trigger] a@[j].0@)
                    &&& mb.contains_key(a@[j].0@)
                    &&& mb[a@[j].0@] == ma[a@[j].0@]
                },
        decreases a.len() - i,
    {
        let ja = bindings_find(a, &a[i].0);
        let jb = bindings_find(b, &a[i].0);
        proof {
            lemma_assoc_map_key_present(entries_model(a@), i as int);
            assert(ma.dom().contains(a@[i as int].0@));
        }
        match (ja, jb) {
            (Some(x), Some(y)) => {
                if !scoped_eq(&a[x].1, &b[y].1) {
                    assert(!ma.submap_of(mb));
                    return false;
                }
            },
            _ => {
                assert(!mb.dom().contains(a@[i as int].0@));
                assert(!ma.submap_of(mb));
                return false;
            },
        }
        i += 1;
    }
    proof {
        assert forall|k: Seq<char>| #[trigger] ma.dom().contains(k) implies mb.dom().contains(k)
            && ma[k] == mb[k] by {
            lemma_assoc_map_key(entries_model(a@), k);
            let j = choose|j: int| 0 <= j < a@.len() && entries_model(a@)[j].0 == k;
            assert(a@[j].0@ == k);
        }
    }
    true
}

/// Whether every name bound by `a` is bound by `b` to something.
fn bindings_names_within(a: &Vec<(String, ScopedType)>, b: &Vec<(String, ScopedType)>) -> (r:
    bool)
    ensures
        r == bindings_model(a@).dom().subset_of(bindings_model(b@).dom()),
{
    let ghost ma = bindings_model(a@);
    let ghost mb = bindings_model(b@);
    let mut i: usize = 0;
    while i < a.len()
        invariant
            i <= a.len(),
            ma == bindings_model(a@),
            mb == bindings_model(b@),
            forall|j: int| 0 <= j < i ==> mb.contains_key(#[trigger] a@[j].0@),
        decreases a.len() - i,
    {
        let jb = bindings_find(b, &a[i].0);
        if jb.is_none() {
            proof {
                lemma_assoc_map_key_present(entries_model(a@), i as int);
                assert(ma.dom().contains(a@[i as int].0@));
                assert(!mb.dom().contains(a@[i as int].0@));
            }
            return false;
        }
        i += 1;
    }
    proof {
        assert forall|k: Seq<char>| #[trigger] ma.dom().contains(k) implies mb.dom().contains(
            k,
        ) by {
            lemma_assoc_map_key(entries_model(a@), k);
            let j = choose|j: int| 0 <= j < a@.len() && entries_model(a@)[j].0 == k;
            assert(a@[j].0@ == k);
        }
    }
    true
}

/// Two mappings of which one lies within the other, and which bind the same
/// names, are the same mapping.
pub proof fn lemma_submap_same_names(ma: Map<Seq<char>, Binding>, mb: Map<Seq<char>, Binding>)
    requires
        ma.submap_of(mb),
        mb.dom().subset_of(ma.dom()),
    ensures
        ma == mb,
{
    assert forall|k: Seq<char>| ma.dom().contains(k) == mb.dom().contains(k) by {
        if mb.dom().contains(k) {
            assert(ma.dom().contains(k));
        }
    }
    assert(ma.dom() =~= mb.dom());
    assert forall|k: Seq<char>| #[trigger] ma.dom().contains(k) implies ma[k] == mb[k] by {}
    assert(ma =~= mb);
}

/// Whether two lists of entries stand for the same mapping.
pub fn bindings_eq(a: &Vec<(String, ScopedType)>, b: &Vec<(String, ScopedType)>) -> (r: bool)
    ensures
        r == (bindings_model(a@) == bindings_model(b@)),
{
    let x = bindings_within(a, b);
    let y = bindings_names_within(b, a);
    proof {
        if x && y {
            lemma_submap_same_names(bindings_model(a@), bindings_model(b@));
        }
    }
    x && y
}

impl PartialEq for TypeLiteral {
    fn eq(&self, other: &Self) -> (r: bool) {
        literal_eq(self, other)
    }
}

impl PartialEqSpecImpl for TypeLiteral {
    open spec fn obeys_eq_spec() -> bool {
        true
    }

    open spec fn eq_spec(&self, other: &Self) -> bool {
        self@ == other@
    }
}

impl PartialEq for Function {
    fn eq(&self, other: &Self) -> (r: bool) {
        function_eq(self, other)
    }
}

impl PartialEqSpecImpl for Function {
    open spec fn obeys_eq_spec() -> bool {
        true
    }

    open spec fn eq_spec(&self, other: &Self) -> bool {
        self@ == other@
    }
}

impl PartialEq for PartialFunction {
    fn eq(&self, other: &Self) -> (r: bool) {
        partial_eq(self, other)
    }
}

impl PartialEqSpecImpl for PartialFunction {
    open spec fn obeys_eq_spec() -> bool {
        true
    }

    open spec fn eq_spec(&self, other: &Self) -> bool {
        self@ == other@
    }
}

impl PartialEq for Class {
    fn eq(&self, other: &Self) -> (r: bool) {
        class_eq(self, other)
    }
}

impl PartialEqSpecImpl for Class {
    open spec fn obeys_eq_spec() -> bool {
        true
    }

    open spec fn eq_spec(&self, other: &Self) -> bool {
        self@ == other@
    }
}

impl PartialEq for ScopedType {
    fn eq(&self, other: &Self) -> (r: bool) {
        scoped_eq(self, other)
    }
}

impl PartialEqSpecImpl for ScopedType {
    open spec fn obeys_eq_spec() -> bool {
        true
    }

    open spec fn eq_spec(&self, other: &Self) -> bool {
        self@ == other@
    }
}

impl PartialEq for Type {
    fn eq(&self, other: &Self) -> (r: bool) {
        type_eq(self, other)
    }
}

impl PartialEqSpecImpl for Type {
    open spec fn obeys_eq_spec() -> bool {
        true
    }

    open spec fn eq_spec(&self, other: &Self) -> bool {
        self@ == other@
    }
}

} // verus!
