use crate::types::base::{bindings_model, entries_model, Binding, ScopedType};
use crate::types::clean::{bindings_clean, entries_are_clean};
use crate::types::compare::{bindings_eq, bindings_find};
use crate::types::copy::entries_clone;
use crate::types::laws::clean;
use vstd::prelude::*;
use vstd::std_specs::cmp::PartialEqSpecImpl;

verus! {

/// Model of [`Scope`]: the module-level frame and, above it, one frame for
/// each function body being walked, innermost last.
pub struct ScopeModel {
    pub global: Map<Seq<char>, Binding>,
    pub frames: Seq<Map<Seq<char>, Binding>>,
}

impl ScopeModel {
    /// The scope with nothing bound and no function body entered.
    pub open spec fn empty() -> ScopeModel {
        ScopeModel { global: Map::empty(), frames: Seq::empty() }
    }

    /// The frame that assignments go to.
    pub open spec fn top(self) -> Map<Seq<char>, Binding> {
        if self.frames.len() > 0 {
            self.frames.last()
        } else {
            self.global
        }
    }

    /// What `name` is bound to in the top frame.
    pub open spec fn get_top(self, name: Seq<char>) -> Option<Binding> {
        if self.top().contains_key(name) {
            Some(self.top()[name])
        } else {
            None
        }
    }

    /// What `name` is bound to in the innermost of the lowest `n` function
    /// frames that binds it, else in the module-level frame.
    pub open spec fn get_below(self, name: Seq<char>, n: nat) -> Option<Binding>
        decreases n,
    {
        if n == 0 || n > self.frames.len() {
            if self.global.contains_key(name) {
                Some(self.global[name])
            } else {
                None
            }
        } else if self.frames[n - 1].contains_key(name) {
            Some(self.frames[n - 1][name])
        } else {
            self.get_below(name, (n - 1) as nat)
        }
    }

    /// What `name` is bound to in the innermost frame that binds it.
    pub open spec fn get(self, name: Seq<char>) -> Option<Binding> {
        self.get_below(name, self.frames.len())
    }

    /// The scope with `name` bound to `value` in the top frame.
    pub open spec fn set(self, name: Seq<char>, value: Binding) -> ScopeModel {
        if self.frames.len() > 0 {
            ScopeModel {
                global: self.global,
                frames: self.frames.update(
                    self.frames.len() - 1,
                    self.frames.last().insert(name, value),
                ),
            }
        } else {
            ScopeModel { global: self.global.insert(name, value), frames: self.frames }
        }
    }

    /// Every type bound in any frame is clean.
    pub open spec fn clean(self) -> bool {
        &&& forall|k: Seq<char>|
            self.global.contains_key(k) ==> clean(#[trigger] self.global[k].typ)
        &&& forall|i: int, k: Seq<char>|
            0 <= i < self.frames.len() && self.frames[i].contains_key(k) ==> clean(
                #[trigger] self.frames[i][k].typ,
            )
    }

    /// The scope with a fresh, empty frame on top.
    pub open spec fn pushed(self) -> ScopeModel {
        ScopeModel { global: self.global, frames: self.frames.push(Map::empty()) }
    }

    /// The scope without its top function frame.
    pub open spec fn popped(self) -> ScopeModel {
        ScopeModel { global: self.global, frames: self.frames.drop_last() }
    }
}

/// What a clean scope binds a name to is clean.
pub proof fn lemma_clean_get(scope: ScopeModel, name: Seq<char>)
    requires
        scope.clean(),
    ensures
        scope.get(name) matches Some(b) ==> clean(b.typ),
        scope.get_top(name) matches Some(b) ==> clean(b.typ),
{
    lemma_clean_get_below(scope, name, scope.frames.len());
    if scope.frames.len() > 0 {
        assert(scope.top() == scope.frames[scope.frames.len() - 1]);
    }
}

/// What the lowest frames of a clean scope bind a name to is clean.
pub proof fn lemma_clean_get_below(scope: ScopeModel, name: Seq<char>, n: nat)
    requires
        scope.clean(),
    ensures
        scope.get_below(name, n) matches Some(b) ==> clean(b.typ),
    decreases n,
{
    if !(n == 0 || n > scope.frames.len()) {
        if !scope.frames[n - 1].contains_key(name) {
            lemma_clean_get_below(scope, name, (n - 1) as nat);
        }
    }
}

/// Binding a name to a clean type, entering a frame and leaving one keep a
/// clean scope clean.
pub proof fn lemma_clean_kept(scope: ScopeModel, name: Seq<char>, value: Binding)
    requires
        scope.clean(),
    ensures
        clean(value.typ) ==> scope.set(name, value).clean(),
        scope.pushed().clean(),
        scope.frames.len() > 0 ==> scope.popped().clean(),
        ScopeModel::empty().clean(),
{
    if clean(value.typ) {
        let after = scope.set(name, value);
        assert forall|i: int, k: Seq<char>|
            0 <= i < after.frames.len() && after.frames[i].contains_key(k) implies clean(
            #[trigger] after.frames[i][k].typ,
        ) by {
            if i < scope.frames.len() - 1 {
                assert(after.frames[i] == scope.frames[i]);
            } else if k != name {
                assert(scope.frames[i].contains_key(k));
            }
        }
    }
    let pushed = scope.pushed();
    assert forall|i: int, k: Seq<char>|
        0 <= i < pushed.frames.len() && pushed.frames[i].contains_key(k) implies clean(
        #[trigger] pushed.frames[i][k].typ,
    ) by {
        if i < scope.frames.len() {
            assert(pushed.frames[i] == scope.frames[i]);
        }
    }
    if scope.frames.len() > 0 {
        let popped = scope.popped();
        assert forall|i: int, k: Seq<char>|
            0 <= i < popped.frames.len() && popped.frames[i].contains_key(k) implies clean(
            #[trigger] popped.frames[i][k].typ,
        ) by {
            assert(popped.frames[i] == scope.frames[i]);
        }
    }
}

/// Adding an entry at the end binds its name to what it holds.
pub proof fn lemma_bindings_push(s: Seq<(String, ScopedType)>, e: (String, ScopedType))
    ensures
        bindings_model(s.push(e)) == bindings_model(s).insert(e.0@, e.1@),
{
    assert(entries_model(s.push(e)).drop_last() =~= entries_model(s));
}

/// The names in reach, frame by frame. Each frame is a list of entries in
/// which the last entry for a name is the one that counts.
#[derive(Debug)]
pub struct Scope {
    global: Vec<(String, ScopedType)>,
    scopes: Vec<Vec<(String, ScopedType)>>,
}

impl View for Scope {
    type V = ScopeModel;

    closed spec fn view(&self) -> ScopeModel {
        ScopeModel {
            global: bindings_model(self.global@),
            frames: Seq::new(self.scopes@.len(), |i: int| bindings_model(self.scopes@[i]@)),
        }
    }
}

impl Clone for Scope {
    fn clone(&self) -> (r: Self)
        ensures
            r@ == self@,
    {
        let mut scopes: Vec<Vec<(String, ScopedType)>> = Vec::new();
        let mut i: usize = 0;
        while i < self.scopes.len()
            invariant
                i <= self.scopes.len(),
                scopes@.len() == i,
                forall|j: int|
                    0 <= j < i ==> bindings_model(#[trigger] scopes@[j]@) == bindings_model(
                        self.scopes@[j]@,
                    ),
            decreases self.scopes.len() - i,
        {
            scopes.push(entries_clone(&self.scopes[i]));
            i += 1;
        }
        let r = Scope { global: entries_clone(&self.global), scopes };
        assert(r@.frames =~= self@.frames);
        r
    }
}

impl PartialEq for Scope {
    fn eq(&self, other: &Self) -> (r: bool) {
        if self.scopes.len() != other.scopes.len() {
            assert(self@.frames.len() != other@.frames.len());
            return false;
        }
        if !bindings_eq(&self.global, &other.global) {
            return false;
        }
        let mut i: usize = 0;
        while i < self.scopes.len()
            invariant
                i <= self.scopes.len(),
                self.scopes.len() == other.scopes.len(),
                forall|j: int| 0 <= j < i ==> self@.frames[j] == other@.frames[j],
            decreases self.scopes.len() - i,
        {
            if !bindings_eq(&self.scopes[i], &other.scopes[i]) {
                assert(self@.frames[i as int] != other@.frames[i as int]);
                return false;
            }
            i += 1;
        }
        assert(self@.frames =~= other@.frames);
        true
    }
}

impl PartialEqSpecImpl for Scope {
    open spec fn obeys_eq_spec() -> bool {
        true
    }

    open spec fn eq_spec(&self, other: &Self) -> bool {
        self@ == other@
    }
}

impl Default for Scope {
    fn default() -> (r: Scope)
        ensures
            r@ == ScopeModel::empty(),
    {
        Scope::new()
    }
}

impl Scope {
    /// The scope with nothing bound and no function body entered.
    pub fn new() -> (r: Scope)
        ensures
            r@ == ScopeModel::empty(),
    {
        let r = Scope { global: Vec::new(), scopes: Vec::new() };
        assert(r@.frames =~= Seq::empty());
        r
    }

    fn top_scope(&self) -> (r: &Vec<(String, ScopedType)>)
        ensures
            bindings_model(r@) == self@.top(),
    {
        if self.scopes.len() > 0 {
            &self.scopes[self.scopes.len() - 1]
        } else {
            &self.global
        }
    }

    /// The binding of `name` in the top frame, or `None` if that frame does
    /// not bind it.
    pub fn get_top_ref(&self, name: &String) -> (r: Option<&ScopedType>)
        ensures
            match r {
                Some(s) => self@.get_top(name@) == Some(s@),
                None => self@.get_top(name@) is None,
            },
    {
        let top = self.top_scope();
        match bindings_find(top, name) {
            Some(j) => Some(&top[j].1),
            None => None,
        }
    }

    /// Get a variable from the top scope or `None` if that scope doesn't
    /// contain the provided variable.
    pub fn get_top(&self, name: &String) -> (r: Option<ScopedType>)
        ensures
            match r {
                Some(s) => self@.get_top(name@) == Some(s@),
                None => self@.get_top(name@) is None,
            },
    {
        match self.get_top_ref(name) {
            Some(s) => Some(s.clone()),
            None => None,
        }
    }

    /// Whether the top frame's binding of `name` is locked, or `None` if
    /// that frame does not bind it.
    pub fn get_top_is_locked(&self, name: &String) -> (r: Option<bool>)
        ensures
            match r {
                Some(b) => self@.get_top(name@) is Some && self@.get_top(name@)->0.locked == b,
                None => self@.get_top(name@) is None,
            },
    {
        match self.get_top_ref(name) {
            Some(s) => Some(s.is_locked),
            None => None,
        }
    }

    /// The binding of `name` in the innermost frame that binds it.
    pub fn get_ref(&self, name: &String) -> (r: Option<&ScopedType>)
        ensures
            match r {
                Some(s) => self@.get(name@) == Some(s@),
                None => self@.get(name@) is None,
            },
    {
        let mut i: usize = self.scopes.len();
        while i > 0
            invariant
                i <= self.scopes.len(),
                self@.get(name@) == self@.get_below(name@, i as nat),
            decreases i,
        {
            i -= 1;
            match bindings_find(&self.scopes[i], name) {
                Some(j) => {
                    return Some(&self.scopes[i][j].1);
                },
                None => {},
            }
        }
        match bindings_find(&self.global, name) {
            Some(j) => Some(&self.global[j].1),
            None => None,
        }
    }

    /// Get a variable from any scope.
    pub fn get(&self, name: &String) -> (r: Option<ScopedType>)
        ensures
            match r {
                Some(s) => self@.get(name@) == Some(s@),
                None => self@.get(name@) is None,
            },
    {
        match self.get_ref(name) {
            Some(s) => Some(s.clone()),
            None => None,
        }
    }

    /// Whether the binding of `name` in the innermost frame that binds it is
    /// locked.
    pub fn get_is_locked(&self, name: &String) -> (r: Option<bool>)
        ensures
            match r {
                Some(b) => self@.get(name@) is Some && self@.get(name@)->0.locked == b,
                None => self@.get(name@) is None,
            },
    {
        match self.get_ref(name) {
            Some(s) => Some(s.is_locked),
            None => None,
        }
    }

    /// Bind `name` to `value` in the top frame, whatever it was bound to.
    pub fn set(&mut self, name: String, value: ScopedType)
        ensures
            final(self)@ == old(self)@.set(name@, value@),
    {
        let n = self.scopes.len();
        if n > 0 {
            let mut frame: Vec<(String, ScopedType)> = Vec::new();
            std::mem::swap(&mut frame, &mut self.scopes[n - 1]);
            proof {
                lemma_bindings_push(frame@, (name, value));
            }
            frame.push((name, value));
            self.scopes[n - 1] = frame;
            assert(self@.frames =~= old(self)@.set(name@, value@).frames);
        } else {
            proof {
                lemma_bindings_push(self.global@, (name, value));
            }
            self.global.push((name, value));
            assert(self@.frames =~= old(self)@.frames);
        }
    }

    /// Whether every type bound in any frame is clean.
    pub fn is_clean(&self) -> (r: bool)
        ensures
            r == self@.clean(),
    {
        if !entries_are_clean(&self.global) {
            return false;
        }
        let mut i: usize = 0;
        while i < self.scopes.len()
            invariant
                i <= self.scopes.len(),
                bindings_clean(self@.global),
                forall|j: int| 0 <= j < i ==> bindings_clean(#[trigger] self@.frames[j]),
            decreases self.scopes.len() - i,
        {
            if !entries_are_clean(&self.scopes[i]) {
                assert(!bindings_clean(self@.frames[i as int]));
                return false;
            }
            i += 1;
        }
        assert forall|i: int, k: Seq<char>|
            0 <= i < self@.frames.len() && self@.frames[i].contains_key(k) implies clean(
            #[trigger] self@.frames[i][k].typ,
        ) by {
            assert(bindings_clean(self@.frames[i]));
        }
        true
    }

    /// Enter a function body: a fresh frame goes on top.
    pub fn add_scope(&mut self)
        ensures
            final(self)@ == old(self)@.pushed(),
    {
        self.scopes.push(Vec::new());
        assert(self@.frames =~= old(self)@.pushed().frames);
    }

    /// Leave a function body: its frame goes.
    pub fn pop_scope(&mut self)
        requires
            old(self)@.frames.len() > 0,
        ensures
            final(self)@ == old(self)@.popped(),
    {
        self.scopes.pop();
        assert(self@.frames =~= old(self)@.popped().frames);
    }
}

} // verus!
