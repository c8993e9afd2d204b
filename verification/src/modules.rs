//! The module table: import paths resolved to parsed programs ahead of
//! evaluation.
//!
//! Import paths are literals in the syntax, so the host can resolve and
//! parse every reachable module before the run (see `resolve` for the
//! search order) and hand the evaluator this table. An `import` statement
//! then looks its path up here; a missing path fails the import.

use crate::ast::Program;
use vstd::prelude::*;

verus! {

broadcast use vstd::std_specs::vec::group_vec_axioms, vstd::seq::group_seq_axioms;

/// A table from import path text to the module's parsed program.
pub struct ModuleTable {
    entries: Vec<(String, Program)>,
}

/// The mapping denoted by an entry sequence.
pub closed spec fn table_map(es: Seq<(String, Program)>) -> Map<Seq<char>, Program>
    decreases es.len(),
{
    if es.len() == 0 {
        Map::empty()
    } else {
        table_map(es.drop_last()).insert(es.last().0@, es.last().1)
    }
}

spec fn distinct_paths(es: Seq<(String, Program)>) -> bool {
    forall|i: int, j: int| 0 <= i < j < es.len() ==> es[i].0@ != es[j].0@
}

impl View for ModuleTable {
    type V = Map<Seq<char>, Program>;

    closed spec fn view(&self) -> Map<Seq<char>, Program> {
        table_map(self.entries@)
    }
}

/// A linear scan agrees with the mapping when paths are distinct.
proof fn lemma_table_map_get(es: Seq<(String, Program)>, k: Seq<char>)
    requires
        distinct_paths(es),
    ensures
        table_map(es).contains_key(k) <==> (exists|i: int| 0 <= i < es.len() && es[i].0@ == k),
        forall|i: int| 0 <= i < es.len() && es[i].0@ == k ==> table_map(es)[k] == es[i].1,
    decreases es.len(),
{
    if es.len() > 0 {
        lemma_table_map_get(es.drop_last(), k);
        if es.last().0@ == k {
            assert(es[es.len() - 1].0@ == k);
        } else {
            assert(forall|i: int| 0 <= i < es.len() - 1 ==> es.drop_last()[i] == es[i]);
        }
    }
}

impl ModuleTable {
    /// The paths of the table are pairwise distinct.
    pub closed spec fn wf(&self) -> bool {
        distinct_paths(self.entries@)
    }

    /// An empty table.
    pub fn new() -> (r: ModuleTable)
        ensures
            r.wf(),
            r@ == Map::<Seq<char>, Program>::empty(),
    {
        ModuleTable { entries: Vec::new() }
    }

    /// Registers a module under a path not yet present.
    pub fn add(&mut self, path: String, program: Program)
        requires
            old(self).wf(),
            !old(self)@.contains_key(path@),
        ensures
            final(self).wf(),
            final(self)@ == old(self)@.insert(path@, program),
    {
        proof {
            lemma_table_map_get(self.entries@, path@);
            let es = self.entries@;
            let p = (path, program);
            assert(es.push(p).drop_last() =~= es);
            assert(es.push(p).last() == p);
            assert forall|a: int, b: int|
                0 <= a < b < es.push(p).len() implies es.push(p)[a].0@ != es.push(p)[b].0@ by {
                if b < es.len() {
                    assert(es[a].0@ != es[b].0@);
                } else {
                    assert(!(exists|i: int| 0 <= i < es.len() && es[i].0@ == path@));
                }
            }
        }
        self.entries.push((path, program));
    }

    /// Looks an import path up.
    #[verifier::loop_isolation(false)]
    pub fn lookup(&self, path: &String) -> (r: Option<&Program>)
        requires
            self.wf(),
        ensures
            match r {
                Some(p) => self@.contains_key(path@) && *p == self@[path@],
                None => !self@.contains_key(path@),
            },
    {
        proof {
            lemma_table_map_get(self.entries@, path@);
        }
        let n = self.entries.len();
        let mut i: usize = 0;
        while i < n
            invariant
                i <= n,
                n == self.entries@.len(),
                forall|j: int| 0 <= j < i ==> self.entries@[j].0@ != path@,
            decreases n - i,
        {
            if self.entries[i].0 == *path {
                return Some(&self.entries[i].1);
            }
            i = i + 1;
        }
        None
    }
}

} // verus!
