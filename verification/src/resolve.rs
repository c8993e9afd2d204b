//! Import path resolution: the ordered candidate files for an import.
//!
//! Given the import path written in the program, the directory of the entry
//! file (the file the process was launched with — relative imports anchor
//! there, not at the importing file), and the ordered library directories
//! from the host's search-path variable, this computes the candidate file
//! paths in the order they must be tried; the first one that reads
//! successfully wins, and exhausting them fails the import. The host reads
//! the files, parses them, and places them in the module table.

use vstd::prelude::*;
use vstd::string::StrSliceExecFns;
use vstd::string::StringExecFns;

verus! {

broadcast use vstd::std_specs::vec::group_vec_axioms, vstd::seq::group_seq_axioms;

/// One directory joined with the import path.
pub open spec fn joined(dir: Seq<char>, path: Seq<char>) -> Seq<char> {
    dir + "/"@ + path
}

/// Every library directory joined with the import path, in order.
pub open spec fn joined_all(dirs: Seq<Seq<char>>, path: Seq<char>) -> Seq<Seq<char>>
    decreases dirs.len(),
{
    if dirs.len() == 0 {
        Seq::empty()
    } else {
        joined_all(dirs.drop_last(), path).push(joined(dirs.last(), path))
    }
}

/// `joined_all` is the element-for-element join.
pub proof fn lemma_joined_all(dirs: Seq<Seq<char>>, path: Seq<char>)
    ensures
        joined_all(dirs, path).len() == dirs.len(),
        forall|i: int|
            0 <= i < dirs.len() ==> joined_all(dirs, path)[i] == joined(dirs[i], path),
    decreases dirs.len(),
{
    if dirs.len() > 0 {
        lemma_joined_all(dirs.drop_last(), path);
    }
}

/// The ordered candidate paths for an import: a path starting with `.`
/// resolves relative to the entry file's directory alone; a path holding a
/// separator is used as it stands; any other path is sought first in the
/// entry file's directory and then in each library directory in order.
pub open spec fn candidates_spec(
    path: Seq<char>,
    entry_parent: Seq<char>,
    lib_dirs: Seq<Seq<char>>,
) -> Seq<Seq<char>> {
    if path.len() > 0 && path[0] == '.' {
        seq![entry_parent + path.skip(1)]
    } else if path.contains('/') {
        seq![path]
    } else {
        seq![joined(entry_parent, path)] + joined_all(lib_dirs, path)
    }
}

/// Computes the candidate paths, in order.
#[verifier::loop_isolation(false)]
pub fn resolve_candidates(path: &String, entry_parent: &String, lib_dirs: &Vec<String>) -> (r: Vec<
    String,
>)
    ensures
        r@.len() == candidates_spec(path@, entry_parent@, lib_dirs@.map_values(|d: String| d@)).len(),
        forall|i: int|
            0 <= i < r@.len() ==> r@[i]@ == candidates_spec(
                path@,
                entry_parent@,
                lib_dirs@.map_values(|d: String| d@),
            )[i],
{
    let ghost dirs = lib_dirs@.map_values(|d: String| d@);
    let n = path.as_str().unicode_len();
    let mut r: Vec<String> = Vec::new();
    if n > 0 && path.as_str().get_char(0) == '.' {
        let tail = path.as_str().substring_char(1, n);
        let c = entry_parent.clone().concat(tail);
        proof {
            assert(path@.subrange(1, n as int) =~= path@.skip(1));
        }
        r.push(c);
        return r;
    }
    let mut has_sep = false;
    let mut i: usize = 0;
    while i < n
        invariant
            i <= n,
            n == path@.len(),
            has_sep ==> path@.contains('/'),
            !has_sep ==> forall|j: int| 0 <= j < i ==> path@[j] != '/',
        decreases n - i,
    {
        if path.as_str().get_char(i) == '/' {
            has_sep = true;
        }
        i = i + 1;
    }
    if has_sep {
        r.push(path.clone());
        return r;
    }
    proof {
        assert(!path@.contains('/'));
    }
    let first = entry_parent.clone().concat("/").concat(path.as_str());
    r.push(first);
    let m = lib_dirs.len();
    let mut k: usize = 0;
    while k < m
        invariant
            k <= m,
            m == lib_dirs@.len(),
            r@.len() == k + 1,
            r@[0]@ == joined(entry_parent@, path@),
            forall|j: int| 1 <= j < r@.len() ==> r@[j]@ == joined(dirs[j - 1], path@),
        decreases m - k,
    {
        let c = lib_dirs[k].clone().concat("/").concat(path.as_str());
        r.push(c);
        k = k + 1;
    }
    proof {
        lemma_joined_all(dirs, path@);
    }
    r
}

} // verus!
