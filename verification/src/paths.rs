//! A character-level model of the paths the engine handles: file name,
//! parent, extension, the sanitized destination-directory name, and joining.
//!
//! Paths are Unix-style: components are separated by `/`.

use vstd::prelude::*;

use crate::chars::{chars_to_string, str_to_chars};
use crate::names::{is_processable_ext, is_processable_archive_extension, is_temp_name, lower_char,
    lower_seq};

verus! {

/// The index of the last occurrence of `c` in `p`, if any.
pub open spec fn last_index_of(p: Seq<char>, c: char) -> Option<int>
    decreases p.len(),
{
    if p.len() == 0 {
        None
    } else if p.last() == c {
        Some(p.len() - 1)
    } else {
        last_index_of(p.drop_last(), c)
    }
}

/// What `last_index_of` returns is the last occurrence.
pub proof fn lemma_last_index_of(p: Seq<char>, c: char)
    ensures
        match last_index_of(p, c) {
            Some(i) => 0 <= i < p.len() && p[i] == c && (forall|j: int|
                i < j < p.len() ==> p[j] != c),
            None => forall|j: int| 0 <= j < p.len() ==> p[j] != c,
        },
    decreases p.len(),
{
    if p.len() > 0 && p.last() != c {
        lemma_last_index_of(p.drop_last(), c);
        assert(forall|j: int| 0 <= j < p.len() - 1 ==> p[j] == p.drop_last()[j]);
    }
}

/// The file name of a path: everything after the last `/`, or the whole
/// path when it has none.
pub open spec fn file_name_of(p: Seq<char>) -> Seq<char> {
    match last_index_of(p, '/') {
        Some(i) => p.subrange(i + 1, p.len() as int),
        None => p,
    }
}

/// The parent of a path: everything before the last `/`; the root stays
/// `/`, and a path without `/` has the empty parent.
pub open spec fn parent_of(p: Seq<char>) -> Seq<char> {
    match last_index_of(p, '/') {
        Some(i) => if i == 0 {
            seq!['/']
        } else {
            p.subrange(0, i)
        },
        None => Seq::empty(),
    }
}

/// The extension of a file name: everything after the last `.`, unless the
/// name has no `.` or starts with its only `.` (a dotfile).
pub open spec fn extension_of(name: Seq<char>) -> Option<Seq<char>> {
    match last_index_of(name, '.') {
        Some(i) => if i > 0 {
            Some(name.subrange(i + 1, name.len() as int))
        } else {
            None
        },
        None => None,
    }
}

/// The extension of a path's file name.
pub open spec fn path_extension_of(p: Seq<char>) -> Option<Seq<char>> {
    extension_of(file_name_of(p))
}

/// The stem of a file name: everything before the last `.`, except that a
/// dotfile or a name without `.` keeps its whole name.
pub open spec fn stem_of(name: Seq<char>) -> Seq<char> {
    match last_index_of(name, '.') {
        Some(i) => if i > 0 {
            name.subrange(0, i)
        } else {
            name
        },
        None => name,
    }
}

/// The characters stripped from destination-directory names.
pub open spec fn is_stripped_char(c: char) -> bool {
    c == '<' || c == '>' || c == ':' || c == '"' || c == '/' || c == '\\' || c == '|' || c == '?'
        || c == '*'
}

/// A file name with the stripped characters removed.
pub open spec fn sanitize_name(s: Seq<char>) -> Seq<char> {
    s.filter(|c: char| !is_stripped_char(c))
}

/// Joining a directory and a name with `/`, without doubling a trailing
/// separator; an empty directory leaves the name bare.
pub open spec fn join_path(dir: Seq<char>, name: Seq<char>) -> Seq<char> {
    if dir.len() == 0 {
        name
    } else if dir.last() == '/' {
        dir + name
    } else {
        dir + seq!['/'] + name
    }
}

/// The destination directory for a source path: a sibling of the source,
/// named after its file name with the stripped characters removed.
pub open spec fn dest_dir_of(p: Seq<char>) -> Seq<char> {
    join_path(parent_of(p), sanitize_name(file_name_of(p)))
}

/// A path names a processable archive when its extension selects one of the
/// supported formats. Whether the path is an existing regular file is the
/// caller's to check; this is the name-level half of the test.
pub open spec fn is_processable_name(p: Seq<char>) -> bool {
    match path_extension_of(p) {
        Some(e) => is_processable_ext(e),
        None => false,
    }
}

/// Where the last occurrence provably is: the converse direction of
/// `lemma_last_index_of`.
pub proof fn lemma_last_index_of_is(p: Seq<char>, c: char, i: int)
    requires
        0 <= i < p.len(),
        p[i] == c,
        forall|j: int| i < j < p.len() ==> p[j] != c,
    ensures
        last_index_of(p, c) == Some(i),
    decreases p.len(),
{
    if i < p.len() - 1 {
        assert(p.last() != c);
        lemma_last_index_of_is(p.drop_last(), c, i);
    }
}

/// A name ending in a `.`-led suffix that holds no further `.` has exactly
/// that suffix, bar the dot, as its extension — or none at all when the
/// name is nothing but the suffix.
proof fn lemma_ext_under_suffix(name: Seq<char>, k: int)
    requires
        2 <= k <= name.len(),
        lower_seq(name)[name.len() - k] == '.',
        forall|j: int| name.len() - k < j < name.len() ==> lower_seq(name)[j] != '.',
    ensures
        name.len() - k > 0 ==> extension_of(name) == Some(
            name.subrange(name.len() - k + 1, name.len() as int),
        ),
        name.len() - k == 0 ==> extension_of(name) is None,
{
    let d = name.len() - k;
    assert(lower_seq(name)[d] == lower_char(name[d]));
    assert(name[d] == '.');
    assert forall|j: int| d < j < name.len() implies name[j] != '.' by {
        assert(lower_seq(name)[j] == lower_char(name[j]));
    }
    lemma_last_index_of_is(name, '.', d);
}

/// A name that the in-progress-download test rejects is no processable
/// path either: its extension is the download suffix itself, which selects
/// no strategy. A temp-suffixed file is therefore dispatched neither by the
/// startup scan nor by the live observer, both of which enqueue processable
/// paths only — the worker's own skip is a second line of defence.
pub proof fn lemma_temp_name_never_dispatched(p: Seq<char>)
    requires
        is_temp_name(file_name_of(p)),
    ensures
        !is_processable_name(p),
{
    let name = file_name_of(p);
    let low = lower_seq(name);
    reveal_strlit(".crdownload");
    reveal_strlit(".part");
    reveal_strlit(".tmp");
    reveal_strlit("zip");
    reveal_strlit("rar");
    reveal_strlit("7z");
    reveal_strlit("tar");
    reveal_strlit("gz");
    let k: int = if ".crdownload"@.is_suffix_of(low) {
        11
    } else if ".part"@.is_suffix_of(low) {
        5
    } else {
        4
    };
    let d = low.len() - k;
    let ghost suffix: Seq<char> = if k == 11 {
        ".crdownload"@
    } else if k == 5 {
        ".part"@
    } else {
        ".tmp"@
    };
    assert(suffix.is_suffix_of(low));
    assert(suffix =~= low.subrange(d, low.len() as int));
    assert(low[d] == suffix[0]);
    assert forall|j: int| d < j < name.len() implies low[j] != '.' by {
        assert(low[j] == suffix[j - d]);
    }
    lemma_ext_under_suffix(name, k);
    if d > 0 {
        let ext = name.subrange(d + 1, name.len() as int);
        assert(lower_seq(ext) =~= low.subrange(d + 1, low.len() as int));
        assert(lower_seq(ext).len() == k - 1);
        if k == 4 {
            assert(lower_seq(ext)[0] == suffix[1]);
            assert(lower_seq(ext)[1] == suffix[2]);
            assert(lower_seq(ext) != "zip"@);
            assert(lower_seq(ext) != "rar"@);
            assert(lower_seq(ext) != "tar"@);
        }
        assert(!is_processable_ext(ext));
    }
}

/// The index just after the last occurrence of `c`, or 0 if `c` does not
/// occur: the start of the file name when `c` is `/`.
fn rfind_char(v: &Vec<char>, c: char) -> (r: Option<usize>)
    ensures
        match r {
            Some(i) => i < v@.len() && last_index_of(v@, c) == Some(i as int),
            None => last_index_of(v@, c) is None,
        },
{
    let mut i = v.len();
    proof {
        assert(v@.take(i as int) =~= v@);
    }
    while i > 0
        invariant
            i <= v@.len(),
            last_index_of(v@, c) == last_index_of(v@.take(i as int), c),
        decreases i,
    {
        i = i - 1;
        if v[i] == c {
            proof {
                assert(v@.take(i + 1).last() == c);
            }
            return Some(i);
        }
        proof {
            assert(v@.take(i + 1).drop_last() =~= v@.take(i as int));
        }
    }
    None
}

/// The file name of `v`: everything after the last `/`.
pub fn file_name_chars(v: &Vec<char>) -> (r: Vec<char>)
    ensures
        r@ == file_name_of(v@),
{
    let n = v.len();
    let start: usize = match rfind_char(v, '/') {
        Some(i) => i + 1,
        None => 0,
    };
    let mut r: Vec<char> = Vec::new();
    let mut i = start;
    while i < n
        invariant
            start <= i <= n,
            n == v@.len(),
            r@ =~= v@.subrange(start as int, i as int),
        decreases n - i,
    {
        r.push(v[i]);
        i = i + 1;
    }
    proof {
        if start == 0 {
            assert(r@ =~= file_name_of(v@));
        }
    }
    r
}

/// The parent of `v`: everything before the last `/`, the root staying `/`.
pub fn parent_chars(v: &Vec<char>) -> (r: Vec<char>)
    ensures
        r@ == parent_of(v@),
{
    let mut r: Vec<char> = Vec::new();
    match rfind_char(v, '/') {
        None => r,
        Some(i) => {
            if i == 0 {
                r.push('/');
                proof {
                    assert(r@ =~= parent_of(v@));
                }
                r
            } else {
                let mut j: usize = 0;
                while j < i
                    invariant
                        j <= i < v@.len(),
                        r@ =~= v@.subrange(0, j as int),
                    decreases i - j,
                {
                    r.push(v[j]);
                    j = j + 1;
                }
                r
            }
        },
    }
}

/// The extension of a file name held in `v`, or `None` for a dotfile or a
/// name without `.`.
pub fn extension_chars(name: &Vec<char>) -> (r: Option<Vec<char>>)
    ensures
        match r {
            Some(e) => extension_of(name@) == Some(e@),
            None => extension_of(name@) is None,
        },
{
    match rfind_char(name, '.') {
        None => None,
        Some(i) => {
            if i == 0 {
                return None;
            }
            let mut r: Vec<char> = Vec::new();
            let n = name.len();
            let mut j = i + 1;
            while j < n
                invariant
                    i + 1 <= j <= n,
                    n == name@.len(),
                    r@ =~= name@.subrange(i + 1, j as int),
                decreases n - j,
            {
                r.push(name[j]);
                j = j + 1;
            }
            Some(r)
        },
    }
}

/// The stem of a file name held in `v`: the part before the last `.`,
/// except that a dotfile or a dotless name keeps its whole name.
pub fn stem_chars(name: &Vec<char>) -> (r: Vec<char>)
    ensures
        r@ == stem_of(name@),
{
    let end: usize = match rfind_char(name, '.') {
        Some(i) => if i > 0 {
            i
        } else {
            name.len()
        },
        None => name.len(),
    };
    let mut r: Vec<char> = Vec::new();
    let mut j: usize = 0;
    while j < end
        invariant
            j <= end <= name@.len(),
            r@ =~= name@.subrange(0, j as int),
        decreases end - j,
    {
        r.push(name[j]);
        j = j + 1;
    }
    proof {
        if end == name@.len() {
            assert(r@ =~= name@);
        }
    }
    r
}

/// The file name of a source path with the stripped characters removed: the
/// name its destination directory gets.
pub fn sanitize_chars(name: &Vec<char>) -> (r: Vec<char>)
    ensures
        r@ == sanitize_name(name@),
{
    let mut r: Vec<char> = Vec::new();
    let n = name.len();
    let mut i: usize = 0;
    while i < n
        invariant
            i <= n,
            n == name@.len(),
            r@ =~= name@.take(i as int).filter(|c: char| !is_stripped_char(c)),
        decreases n - i,
    {
        let c = name[i];
        let keep = !(c == '<' || c == '>' || c == ':' || c == '"' || c == '/' || c == '\\'
            || c == '|' || c == '?' || c == '*');
        proof {
            name@.lemma_take_succ_push(i as int);
            name@.take(i as int).lemma_filter_push(
                name@[i as int],
                |x: char| !is_stripped_char(x),
            );
        }
        if keep {
            r.push(c);
        }
        i = i + 1;
    }
    proof {
        assert(name@.take(n as int) =~= name@);
    }
    r
}

/// Joins a directory and a name with `/`, without doubling a trailing
/// separator.
pub fn join_chars(dir: &Vec<char>, name: &Vec<char>) -> (r: Vec<char>)
    ensures
        r@ == join_path(dir@, name@),
{
    let mut r: Vec<char> = Vec::new();
    let dn = dir.len();
    let mut i: usize = 0;
    while i < dn
        invariant
            i <= dn,
            dn == dir@.len(),
            r@ =~= dir@.take(i as int),
        decreases dn - i,
    {
        r.push(dir[i]);
        i = i + 1;
    }
    proof {
        assert(r@ =~= dir@);
    }
    if dn > 0 && r[dn - 1] != '/' {
        r.push('/');
    }
    let nn = name.len();
    let ghost mid = r@;
    let mut j: usize = 0;
    while j < nn
        invariant
            j <= nn,
            nn == name@.len(),
            r@ =~= mid + name@.take(j as int),
        decreases nn - j,
    {
        r.push(name[j]);
        j = j + 1;
    }
    proof {
        assert(r@ =~= join_path(dir@, name@));
    }
    r
}

/// The destination directory for a source path: a sibling directory named
/// after the source's file name with `< > : " / \ | ? *` removed.
pub fn build_dest_dir_with_extension(path: &str) -> (r: String)
    ensures
        r@ == dest_dir_of(path@),
{
    let cs = str_to_chars(path);
    let name = file_name_chars(&cs);
    let clean = sanitize_chars(&name);
    let parent = parent_chars(&cs);
    let joined = join_chars(&parent, &clean);
    chars_to_string(&joined)
}

/// Whether a path's file name marks it as a processable archive. The
/// filesystem half of the original test — that the path is an existing
/// regular file — lies with the caller.
pub fn is_processable_path(path: &str) -> (r: bool)
    ensures
        r == is_processable_name(path@),
{
    let cs = str_to_chars(path);
    let name = file_name_chars(&cs);
    match extension_chars(&name) {
        Some(e) => is_processable_archive_extension(chars_to_string(&e).as_str()),
        None => false,
    }
}

} // verus!
