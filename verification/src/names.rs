//! File-name classification: which names are in-progress downloads and which
//! extensions mark a processable archive.

use vstd::prelude::*;

use crate::chars::str_to_chars;

verus! {

/// ASCII lowercasing of a single character; everything outside 'A'..'Z' is
/// left as it is.
pub open spec fn lower_char(c: char) -> char {
    if 'A' as int <= c as int && c as int <= 'Z' as int {
        (c as int + 32) as char
    } else {
        c
    }
}

/// ASCII lowercasing of a character sequence.
pub open spec fn lower_seq(s: Seq<char>) -> Seq<char> {
    s.map_values(|c: char| lower_char(c))
}

/// A name carries an in-progress-download suffix: `.crdownload`, `.part` or
/// `.tmp`, compared without regard to ASCII case.
pub open spec fn is_temp_name(s: Seq<char>) -> bool {
    ||| ".crdownload"@.is_suffix_of(lower_seq(s))
    ||| ".part"@.is_suffix_of(lower_seq(s))
    ||| ".tmp"@.is_suffix_of(lower_seq(s))
}

/// An extension that selects some extractor: `zip`, `rar`, `7z`, `tar` or
/// `gz`, without regard to ASCII case.
pub open spec fn is_processable_ext(e: Seq<char>) -> bool {
    ||| lower_seq(e) == "zip"@
    ||| lower_seq(e) == "rar"@
    ||| lower_seq(e) == "7z"@
    ||| lower_seq(e) == "tar"@
    ||| lower_seq(e) == "gz"@
}

/// Executable ASCII lowercasing of one character.
pub fn lower_char_exec(c: char) -> (r: char)
    ensures
        r == lower_char(c),
{
    let u = c as u32;
    if 65 <= u && u <= 90 {
        ((u + 32) as u8) as char
    } else {
        c
    }
}

/// Executable ASCII lowercasing of a character vector.
pub fn lower_chars(v: &Vec<char>) -> (r: Vec<char>)
    ensures
        r@ == lower_seq(v@),
{
    let mut r: Vec<char> = Vec::new();
    let n = v.len();
    let mut i: usize = 0;
    while i < n
        invariant
            i <= n,
            n == v@.len(),
            r@ =~= lower_seq(v@.take(i as int)),
        decreases n - i,
    {
        r.push(lower_char_exec(v[i]));
        i = i + 1;
    }
    proof {
        assert(v@.take(n as int) =~= v@);
    }
    r
}

/// True exactly when `suffix`'s characters end `v`.
pub fn chars_end_with(v: &Vec<char>, suffix: &str) -> (r: bool)
    ensures
        r == suffix@.is_suffix_of(v@),
{
    let s = str_to_chars(suffix);
    if s.len() > v.len() {
        return false;
    }
    let vlen = v.len();
    let start = vlen - s.len();
    let mut i: usize = 0;
    while i < s.len()
        invariant
            i <= s@.len(),
            s@.len() <= v@.len(),
            vlen == v@.len(),
            start == v@.len() - s@.len(),
            s@ == suffix@,
            forall|j: int| 0 <= j < i ==> v@[start + j] == s@[j],
        decreases s@.len() - i,
    {
        if v[start + i] != s[i] {
            proof {
                assert(!suffix@.is_suffix_of(v@));
            }
            return false;
        }
        i = i + 1;
    }
    proof {
        assert(suffix@ =~= v@.subrange(
            v@.len() - suffix@.len(),
            v@.len() as int,
        ));
    }
    true
}

/// Whether `name` looks like an in-progress download that must not be
/// touched yet: it ends in `.crdownload`, `.part` or `.tmp`, in any case.
pub fn is_temp_file_name(name: &str) -> (r: bool)
    ensures
        r == is_temp_name(name@),
{
    let cs = str_to_chars(name);
    let lowered = lower_chars(&cs);
    chars_end_with(&lowered, ".crdownload") || chars_end_with(&lowered, ".part")
        || chars_end_with(&lowered, ".tmp")
}

/// True exactly when the lowercasing of `v` is the character sequence of
/// `w`, a literal already in lower case.
pub fn lower_eq(v: &Vec<char>, w: &str) -> (r: bool)
    ensures
        r == (lower_seq(v@) == w@),
{
    let s = str_to_chars(w);
    if v.len() != s.len() {
        return false;
    }
    let n = v.len();
    let mut i: usize = 0;
    while i < n
        invariant
            i <= n,
            n == v@.len() == s@.len(),
            s@ == w@,
            forall|j: int| 0 <= j < i ==> lower_char(v@[j]) == s@[j],
        decreases n - i,
    {
        if lower_char_exec(v[i]) != s[i] {
            proof {
                assert(lower_seq(v@)[i as int] != w@[i as int]);
            }
            return false;
        }
        i = i + 1;
    }
    proof {
        assert(lower_seq(v@) =~= w@);
    }
    true
}

/// Whether `ext` is one of the extensions this engine extracts:
/// `zip`, `rar`, `7z`, `tar` or `gz`, in any case.
pub fn is_processable_archive_extension(ext: &str) -> (r: bool)
    ensures
        r == is_processable_ext(ext@),
{
    let cs = str_to_chars(ext);
    lower_eq(&cs, "zip") || lower_eq(&cs, "rar") || lower_eq(&cs, "7z") || lower_eq(&cs, "tar")
        || lower_eq(&cs, "gz")
}

} // verus!
