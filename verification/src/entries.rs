//! Archive entries as plain values, and the containment check that keeps
//! every entry inside its destination directory.
//!
//! Whatever the format, a decoded archive is a sequence of entries: a name,
//! a directory flag, and the entry's bytes. An entry may only be placed
//! under the destination if its name is safe: non-empty, relative, and free
//! of `..` components — then joining it under the destination cannot reach
//! outside.

use vstd::prelude::*;

use crate::paths::join_path;

verus! {

/// One decoded archive entry: its name as stored in the archive, whether it
/// is a directory, and its decompressed bytes (empty for a directory).
pub struct ArchiveEntry {
    pub name: String,
    pub is_dir: bool,
    pub data: Vec<u8>,
}

impl View for ArchiveEntry {
    type V = (Seq<char>, bool, Seq<u8>);

    open spec fn view(&self) -> (Seq<char>, bool, Seq<u8>) {
        (self.name@, self.is_dir, self.data@)
    }
}

/// The views of a sequence of entries.
pub open spec fn entries_view(s: Seq<ArchiveEntry>) -> Seq<(Seq<char>, bool, Seq<u8>)> {
    s.map_values(|e: ArchiveEntry| e@)
}

/// A `..` path component stands at position `i` of `p`.
pub open spec fn dotdot_at(p: Seq<char>, i: int) -> bool {
    &&& 0 <= i
    &&& i + 2 <= p.len()
    &&& p[i] == '.'
    &&& p[i + 1] == '.'
    &&& (i == 0 || p[i - 1] == '/')
    &&& (i + 2 == p.len() || p[i + 2] == '/')
}

/// An entry name that may be joined under the destination: non-empty, not
/// absolute, and with no `..` component anywhere.
pub open spec fn is_safe_entry_name(p: Seq<char>) -> bool {
    &&& p.len() > 0
    &&& p[0] != '/'
    &&& !(exists|i: int| dotdot_at(p, i))
}

/// Executable safety check of an entry name.
pub fn check_entry_name(name: &Vec<char>) -> (r: bool)
    ensures
        r == is_safe_entry_name(name@),
{
    let n = name.len();
    if n == 0 {
        return false;
    }
    if name[0] == '/' {
        return false;
    }
    let mut i: usize = 0;
    while i < n
        invariant
            i <= n,
            n == name@.len(),
            forall|j: int| 0 <= j < i ==> !dotdot_at(name@, j),
        decreases n - i,
    {
        let here = n - i >= 2 && name[i] == '.' && name[i + 1] == '.' && (i == 0 || name[i - 1]
            == '/') && (n - i == 2 || name[i + 2] == '/');
        if here {
            proof {
                assert(dotdot_at(name@, i as int));
            }
            return false;
        }
        i = i + 1;
    }
    proof {
        assert forall|j: int| !dotdot_at(name@, j) by {
            if 0 <= j < n {
            } else {
            }
        }
    }
    true
}

/// A path lies within the directory `dest` when it is `dest` extended by a
/// safe relative name: such a path cannot denote anything outside `dest`.
pub open spec fn path_within(p: Seq<char>, dest: Seq<char>) -> bool {
    exists|rel: Seq<char>| is_safe_entry_name(rel) && p == join_path(dest, rel)
}

/// Joining a safe name under a destination lands within it.
pub proof fn lemma_join_safe_within(dest: Seq<char>, rel: Seq<char>)
    requires
        is_safe_entry_name(rel),
    ensures
        path_within(join_path(dest, rel), dest),
{
    assert(is_safe_entry_name(rel) && join_path(dest, rel) == join_path(dest, rel));
}

/// A copy of a byte vector.
pub fn clone_bytes(v: &Vec<u8>) -> (r: Vec<u8>)
    ensures
        r@ == v@,
{
    let mut r: Vec<u8> = Vec::new();
    let n = v.len();
    let mut i: usize = 0;
    while i < n
        invariant
            i <= n,
            n == v@.len(),
            r@ =~= v@.take(i as int),
        decreases n - i,
    {
        r.push(v[i]);
        i = i + 1;
    }
    proof {
        assert(v@.take(n as int) =~= v@);
    }
    r
}

} // verus!
