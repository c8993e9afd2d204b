//! The variable frame: a flat mapping from identifier text to values.
//!
//! One frame exists per call; there is no nested block scoping. A frame is
//! abstracted as a `Map` from the identifier's characters to the value's
//! view. Invoking a user-defined function duplicates the caller's frame in
//! full, so mutations inside the callee never propagate back.

use crate::value::{clone_value, vv, SpecValue, Value};
use vstd::prelude::*;

verus! {

broadcast use vstd::std_specs::vec::group_vec_axioms, vstd::seq::group_seq_axioms;

/// A frame. Entry keys are pairwise distinct.
pub struct Env {
    entries: Vec<(String, Value)>,
}

/// The mapping denoted by an entry sequence; later entries would shadow
/// earlier ones, but well-formed frames keep their keys distinct.
pub closed spec fn env_map(es: Seq<(String, Value)>) -> Map<Seq<char>, SpecValue>
    decreases es.len(),
{
    if es.len() == 0 {
        Map::empty()
    } else {
        env_map(es.drop_last()).insert(es.last().0@, vv(es.last().1))
    }
}

/// Distinctness of the keys of an entry sequence.
spec fn distinct_keys(es: Seq<(String, Value)>) -> bool {
    forall|i: int, j: int| 0 <= i < j < es.len() ==> es[i].0@ != es[j].0@
}

impl View for Env {
    type V = Map<Seq<char>, SpecValue>;

    closed spec fn view(&self) -> Map<Seq<char>, SpecValue> {
        env_map(self.entries@)
    }
}

/// A linear scan agrees with the mapping when keys are distinct.
proof fn lemma_env_map_get(es: Seq<(String, Value)>, k: Seq<char>)
    requires
        distinct_keys(es),
    ensures
        env_map(es).contains_key(k) <==> (exists|i: int| 0 <= i < es.len() && es[i].0@ == k),
        forall|i: int|
            0 <= i < es.len() && es[i].0@ == k ==> env_map(es)[k] == vv(es[i].1),
    decreases es.len(),
{
    if es.len() > 0 {
        lemma_env_map_get(es.drop_last(), k);
        if es.last().0@ == k {
            assert(es[es.len() - 1].0@ == k);
        } else {
            assert(forall|i: int| 0 <= i < es.len() - 1 ==> es.drop_last()[i] == es[i]);
        }
    }
}

/// Entry sequences with the same keys and the same value views denote the
/// same mapping.
proof fn lemma_env_map_congruent(es1: Seq<(String, Value)>, es2: Seq<(String, Value)>)
    requires
        es1.len() == es2.len(),
        forall|i: int| 0 <= i < es1.len() ==> es1[i].0@ == #[trigger] es2[i].0@,
        forall|i: int| 0 <= i < es1.len() ==> vv(es1[i].1) == vv(#[trigger] es2[i].1),
    ensures
        env_map(es1) == env_map(es2),
    decreases es1.len(),
{
    if es1.len() > 0 {
        assert(forall|i: int|
            0 <= i < es1.len() - 1 ==> es1.drop_last()[i] == es1[i] && es2.drop_last()[i]
                == es2[i]);
        lemma_env_map_congruent(es1.drop_last(), es2.drop_last());
    }
}

/// Replacing the entry that holds a key denotes an insert at that key.
proof fn lemma_env_map_update(es: Seq<(String, Value)>, i: int, p: (String, Value))
    requires
        distinct_keys(es),
        0 <= i < es.len(),
        es[i].0@ == p.0@,
    ensures
        env_map(es.update(i, p)) == env_map(es).insert(p.0@, vv(p.1)),
    decreases es.len(),
{
    let up = es.update(i, p);
    if i == es.len() - 1 {
        assert(up.drop_last() =~= es.drop_last());
        assert(env_map(es).insert(p.0@, vv(p.1)) =~= env_map(es.drop_last()).insert(
            p.0@,
            vv(p.1),
        ));
    } else {
        assert(up.drop_last() =~= es.drop_last().update(i, p));
        lemma_env_map_update(es.drop_last(), i, p);
        assert(up.last() == es.last());
        assert(env_map(es.drop_last()).insert(p.0@, vv(p.1)).insert(
            es.last().0@,
            vv(es.last().1),
        ) =~= env_map(es.drop_last()).insert(es.last().0@, vv(es.last().1)).insert(
            p.0@,
            vv(p.1),
        ));
    }
}

impl Env {
    /// The keys of the frame are pairwise distinct.
    pub closed spec fn wf(&self) -> bool {
        distinct_keys(self.entries@)
    }

    /// An empty frame.
    pub fn new() -> (r: Env)
        ensures
            r.wf(),
            r@ == Map::<Seq<char>, SpecValue>::empty(),
    {
        Env { entries: Vec::new() }
    }

    /// Looks a name up; yields nothing when the name is unbound.
    #[verifier::loop_isolation(false)]
    pub fn lookup(&self, name: &String) -> (r: Option<&Value>)
        requires
            self.wf(),
        ensures
            match r {
                Some(v) => self@.contains_key(name@) && vv(*v) == self@[name@],
                None => !self@.contains_key(name@),
            },
    {
        proof {
            lemma_env_map_get(self.entries@, name@);
        }
        let n = self.entries.len();
        let mut i: usize = 0;
        while i < n
            invariant
                i <= n,
                n == self.entries@.len(),
                forall|j: int| 0 <= j < i ==> self.entries@[j].0@ != name@,
            decreases n - i,
        {
            if self.entries[i].0 == *name {
                return Some(&self.entries[i].1);
            }
            i = i + 1;
        }
        None
    }

    /// Binds a name, overwriting any previous binding.
    #[verifier::loop_isolation(false)]
    pub fn insert(&mut self, name: String, value: Value)
        requires
            old(self).wf(),
        ensures
            final(self).wf(),
            final(self)@ == old(self)@.insert(name@, vv(value)),
    {
        let n = self.entries.len();
        let mut i: usize = 0;
        while i < n
            invariant
                i <= n,
                n == self.entries@.len(),
                *self == *old(self),
                forall|j: int| 0 <= j < i ==> self.entries@[j].0@ != name@,
            decreases n - i,
        {
            if self.entries[i].0 == *(&name) {
                let ghost es0 = self.entries@;
                let ghost p = (name, value);
                proof {
                    lemma_env_map_update(es0, i as int, p);
                }
                self.entries.set(i, (name, value));
                proof {
                    assert(self.entries@ == es0.update(i as int, p));
                    assert forall|a: int, b: int|
                        0 <= a < b < self.entries@.len() implies self.entries@[a].0@
                        != self.entries@[b].0@ by {
                        assert(es0[a].0@ != es0[b].0@);
                    }
                }
                return ;
            }
            i = i + 1;
        }
        let ghost es0 = self.entries@;
        let ghost p = (name, value);
        self.entries.push((name, value));
        proof {
            assert(self.entries@ == es0.push(p));
            assert(es0.push(p).drop_last() =~= es0);
            assert(es0.push(p).last() == p);
            assert(env_map(self.entries@) == env_map(es0).insert(name@, vv(value)));
            assert forall|a: int, b: int|
                0 <= a < b < self.entries@.len() implies self.entries@[a].0@
                != self.entries@[b].0@ by {
                if b < self.entries@.len() - 1 {
                    assert(es0[a].0@ != es0[b].0@);
                } else {
                    assert(self.entries@[a].0@ != name@);
                }
            }
        }
    }

    /// A fully independent copy of the frame, denoting the same mapping.
    #[verifier::loop_isolation(false)]
    pub fn duplicate(&self) -> (r: Env)
        requires
            self.wf(),
        ensures
            r.wf(),
            r@ == self@,
    {
        let n = self.entries.len();
        let mut copy: Vec<(String, Value)> = Vec::new();
        let mut i: usize = 0;
        while i < n
            invariant
                i <= n,
                n == self.entries@.len(),
                copy@.len() == i,
                forall|j: int| 0 <= j < i ==> copy@[j].0@ == #[trigger] self.entries@[j].0@,
                forall|j: int| 0 <= j < i ==> vv(copy@[j].1) == vv(#[trigger] self.entries@[j].1),
            decreases n - i,
        {
            let key = self.entries[i].0.clone();
            let val = clone_value(&self.entries[i].1);
            copy.push((key, val));
            i = i + 1;
        }
        proof {
            lemma_env_map_congruent(copy@, self.entries@);
            assert forall|a: int, b: int|
                0 <= a < b < copy@.len() implies copy@[a].0@ != copy@[b].0@ by {
                assert(copy@[a].0@ == self.entries@[a].0@);
                assert(copy@[b].0@ == self.entries@[b].0@);
            }
        }
        Env { entries: copy }
    }
}

} // verus!
