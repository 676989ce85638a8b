//! The Linux convention: honour `XDG_DOWNLOAD_DIR` from the user-dirs
//! configuration, falling back to `<home>/Downloads`.
//!
//! The configuration is the text of `~/.config/user-dirs.dirs`, handed in by
//! the caller when the file could be read. The first line that, after
//! trimming, starts with `XDG_DOWNLOAD_DIR` and carries `=` decides: its
//! value is trimmed, stripped of surrounding quotes, and every `$HOME` in it
//! is replaced by the home directory.

use vstd::prelude::*;

use crate::chars::{chars_to_string, copy_range, push_all, str_to_chars};

verus! {

/// The whitespace trimmed off a configuration line.
pub open spec fn is_line_space(c: char) -> bool {
    c == ' ' || c == '\t' || c == '\r'
}

/// `s` without leading line whitespace.
pub open spec fn trim_start(s: Seq<char>) -> Seq<char>
    decreases s.len(),
{
    if s.len() > 0 && is_line_space(s.first()) {
        trim_start(s.drop_first())
    } else {
        s
    }
}

/// `s` without trailing line whitespace.
pub open spec fn trim_end(s: Seq<char>) -> Seq<char>
    decreases s.len(),
{
    if s.len() > 0 && is_line_space(s.last()) {
        trim_end(s.drop_last())
    } else {
        s
    }
}

/// `s` without leading or trailing line whitespace.
pub open spec fn trimmed(s: Seq<char>) -> Seq<char> {
    trim_end(trim_start(s))
}

/// `s` without leading quote characters.
pub open spec fn unquote_start(s: Seq<char>) -> Seq<char>
    decreases s.len(),
{
    if s.len() > 0 && s.first() == '"' {
        unquote_start(s.drop_first())
    } else {
        s
    }
}

/// `s` without trailing quote characters.
pub open spec fn unquote_end(s: Seq<char>) -> Seq<char>
    decreases s.len(),
{
    if s.len() > 0 && s.last() == '"' {
        unquote_end(s.drop_last())
    } else {
        s
    }
}

/// `s` without surrounding quote characters.
pub open spec fn unquoted(s: Seq<char>) -> Seq<char> {
    unquote_end(unquote_start(s))
}

/// The index of the first occurrence of `c` in `s`, if any.
pub open spec fn first_index_of(s: Seq<char>, c: char) -> Option<int>
    decreases s.len(),
{
    if s.len() == 0 {
        None
    } else if s.first() == c {
        Some(0)
    } else {
        match first_index_of(s.drop_first(), c) {
            Some(i) => Some(i + 1),
            None => None,
        }
    }
}

/// What `first_index_of` returns is the first occurrence.
pub proof fn lemma_first_index_of(s: Seq<char>, c: char)
    ensures
        match first_index_of(s, c) {
            Some(i) => 0 <= i < s.len() && s[i] == c && (forall|j: int| 0 <= j < i ==> s[j] != c),
            None => forall|j: int| 0 <= j < s.len() ==> s[j] != c,
        },
    decreases s.len(),
{
    if s.len() > 0 && s.first() != c {
        lemma_first_index_of(s.drop_first(), c);
        assert(forall|j: int| 0 < j < s.len() ==> s[j] == s.drop_first()[j - 1]);
    }
}

/// The characters of the `$HOME` marker.
pub open spec fn home_marker() -> Seq<char> {
    seq!['$', 'H', 'O', 'M', 'E']
}

/// `s` with every occurrence of `$HOME` replaced by `home`.
pub open spec fn replace_home(s: Seq<char>, home: Seq<char>) -> Seq<char>
    decreases s.len(),
{
    if s.len() >= 5 && s.take(5) == home_marker() {
        home + replace_home(s.skip(5), home)
    } else if s.len() == 0 {
        Seq::empty()
    } else {
        s.take(1) + replace_home(s.drop_first(), home)
    }
}

/// What a configuration line contributes: the download directory it sets,
/// if it is an `XDG_DOWNLOAD_DIR` line with a value.
pub open spec fn line_value(line: Seq<char>, home: Seq<char>) -> Option<Seq<char>> {
    let t = trimmed(line);
    if "XDG_DOWNLOAD_DIR"@.is_prefix_of(t) {
        match first_index_of(t, '=') {
            Some(i) => Some(replace_home(unquoted(trimmed(t.skip(i + 1))), home)),
            None => None,
        }
    } else {
        None
    }
}

/// The value of the first deciding line of the configuration, if any.
pub open spec fn scan_config(s: Seq<char>, home: Seq<char>) -> Option<Seq<char>>
    decreases s.len(),
{
    match first_index_of(s, '\n') {
        Some(k) => if 0 <= k < s.len() {
            match line_value(s.take(k), home) {
                Some(v) => Some(v),
                None => scan_config(s.skip(k + 1), home),
            }
        } else {
            line_value(s, home)
        },
        None => line_value(s, home),
    }
}

/// The default downloads directory: what the configuration sets, else
/// `<home>/Downloads`.
pub open spec fn downloads_dir_of(home: Seq<char>, config: Option<Seq<char>>) -> Seq<char> {
    match config {
        Some(c) => match scan_config(c, home) {
            Some(v) => v,
            None => home + "/Downloads"@,
        },
        None => home + "/Downloads"@,
    }
}

/// Whether this character is trimmed off a line's ends.
fn is_space_exec(c: char) -> (r: bool)
    ensures
        r == is_line_space(c),
{
    c == ' ' || c == '\t' || c == '\r'
}

/// `v` without leading or trailing line whitespace.
fn trim_chars(v: &Vec<char>) -> (r: Vec<char>)
    ensures
        r@ == trimmed(v@),
{
    let n = v.len();
    let mut a: usize = 0;
    proof {
        assert(v@.skip(0) =~= v@);
    }
    while a < n && is_space_exec(v[a])
        invariant
            a <= n,
            n == v@.len(),
            trim_start(v@) == trim_start(v@.skip(a as int)),
        decreases n - a,
    {
        proof {
            assert(v@.skip(a as int).drop_first() =~= v@.skip(a as int + 1));
        }
        a = a + 1;
    }
    proof {
        if a == n {
            assert(v@.skip(a as int) =~= Seq::<char>::empty());
        }
        assert(trim_start(v@) == v@.skip(a as int));
        assert(v@.skip(a as int) =~= v@.subrange(a as int, n as int));
    }
    let mut b: usize = n;
    while b > a && is_space_exec(v[b - 1])
        invariant
            a <= b <= n,
            n == v@.len(),
            trim_end(v@.skip(a as int)) == trim_end(v@.subrange(a as int, b as int)),
        decreases b,
    {
        proof {
            assert(v@.subrange(a as int, b as int).drop_last() =~= v@.subrange(
                a as int,
                b as int - 1,
            ));
        }
        b = b - 1;
    }
    proof {
        if b == a {
            assert(v@.subrange(a as int, b as int) =~= Seq::<char>::empty());
        }
        assert(trim_end(v@.skip(a as int)) == v@.subrange(a as int, b as int));
    }
    copy_range(v, a, b)
}

/// `v` without surrounding quote characters.
fn unquote_chars(v: &Vec<char>) -> (r: Vec<char>)
    ensures
        r@ == unquoted(v@),
{
    let n = v.len();
    let mut a: usize = 0;
    proof {
        assert(v@.skip(0) =~= v@);
    }
    while a < n && v[a] == '"'
        invariant
            a <= n,
            n == v@.len(),
            unquote_start(v@) == unquote_start(v@.skip(a as int)),
        decreases n - a,
    {
        proof {
            assert(v@.skip(a as int).drop_first() =~= v@.skip(a as int + 1));
        }
        a = a + 1;
    }
    proof {
        if a == n {
            assert(v@.skip(a as int) =~= Seq::<char>::empty());
        }
        assert(unquote_start(v@) == v@.skip(a as int));
        assert(v@.skip(a as int) =~= v@.subrange(a as int, n as int));
    }
    let mut b: usize = n;
    while b > a && v[b - 1] == '"'
        invariant
            a <= b <= n,
            n == v@.len(),
            unquote_end(v@.skip(a as int)) == unquote_end(v@.subrange(a as int, b as int)),
        decreases b,
    {
        proof {
            assert(v@.subrange(a as int, b as int).drop_last() =~= v@.subrange(
                a as int,
                b as int - 1,
            ));
        }
        b = b - 1;
    }
    proof {
        if b == a {
            assert(v@.subrange(a as int, b as int) =~= Seq::<char>::empty());
        }
        assert(unquote_end(v@.skip(a as int)) == v@.subrange(a as int, b as int));
    }
    copy_range(v, a, b)
}

/// The first occurrence of `c` in `v`.
fn find_char(v: &Vec<char>, c: char) -> (r: Option<usize>)
    ensures
        match r {
            Some(i) => first_index_of(v@, c) == Some(i as int) && i < v@.len(),
            None => first_index_of(v@, c) is None,
        },
{
    let n = v.len();
    let mut i: usize = 0;
    while i < n
        invariant
            i <= n,
            n == v@.len(),
            forall|j: int| 0 <= j < i ==> v@[j] != c,
        decreases n - i,
    {
        if v[i] == c {
            proof {
                lemma_first_index_of(v@, c);
            }
            return Some(i);
        }
        i = i + 1;
    }
    proof {
        lemma_first_index_of(v@, c);
    }
    None
}

/// True exactly when `prefix`'s characters begin `v`.
fn starts_with_chars(v: &Vec<char>, prefix: &str) -> (r: bool)
    ensures
        r == prefix@.is_prefix_of(v@),
{
    let p = str_to_chars(prefix);
    if p.len() > v.len() {
        return false;
    }
    let n = p.len();
    let mut i: usize = 0;
    while i < n
        invariant
            i <= n,
            n == p@.len() <= v@.len(),
            p@ == prefix@,
            forall|j: int| 0 <= j < i ==> v@[j] == p@[j],
        decreases n - i,
    {
        if v[i] != p[i] {
            proof {
                assert(!prefix@.is_prefix_of(v@));
            }
            return false;
        }
        i = i + 1;
    }
    proof {
        assert(prefix@ =~= v@.subrange(0, prefix@.len() as int));
    }
    true
}

/// Whether the `$HOME` marker stands at position `i` of `v`.
fn marker_at(v: &Vec<char>, i: usize) -> (r: bool)
    requires
        i <= v@.len(),
    ensures
        r == (v@.skip(i as int).len() >= 5 && v@.skip(i as int).take(5) == home_marker()),
{
    if v.len() - i >= 5 {
        let ok = v[i] == '$' && v[i + 1] == 'H' && v[i + 2] == 'O' && v[i + 3] == 'M' && v[i + 4]
            == 'E';
        proof {
            if ok {
                assert(v@.skip(i as int).take(5) =~= home_marker());
            } else {
                if v@.skip(i as int).take(5) == home_marker() {
                    assert(v@[i as int] == home_marker()[0]);
                    assert(v@[i as int + 1] == home_marker()[1]);
                    assert(v@[i as int + 2] == home_marker()[2]);
                    assert(v@[i as int + 3] == home_marker()[3]);
                    assert(v@[i as int + 4] == home_marker()[4]);
                }
            }
        }
        ok
    } else {
        false
    }
}

/// `v` with every `$HOME` replaced by `home`.
fn replace_home_chars(v: &Vec<char>, home: &Vec<char>) -> (r: Vec<char>)
    ensures
        r@ == replace_home(v@, home@),
{
    let mut out: Vec<char> = Vec::new();
    let n = v.len();
    let mut i: usize = 0;
    proof {
        assert(v@.skip(0) =~= v@);
        assert(out@ + replace_home(v@, home@) =~= replace_home(v@, home@));
    }
    while i < n
        invariant
            i <= n,
            n == v@.len(),
            replace_home(v@, home@) =~= out@ + replace_home(v@.skip(i as int), home@),
        decreases n - i,
    {
        let ghost rest = v@.skip(i as int);
        if marker_at(v, i) {
            push_all(&mut out, home);
            i = i + 5;
            proof {
                assert(rest.skip(5) =~= v@.skip(i as int));
                assert(replace_home(rest, home@) == home@ + replace_home(
                    v@.skip(i as int),
                    home@,
                ));
            }
        } else {
            out.push(v[i]);
            i = i + 1;
            proof {
                assert(rest.len() > 0);
                assert(rest.drop_first() =~= v@.skip(i as int));
                assert(rest.take(1) =~= seq![v@[i - 1]]);
                assert(replace_home(rest, home@) == seq![v@[i - 1]] + replace_home(
                    v@.skip(i as int),
                    home@,
                ));
            }
        }
    }
    proof {
        assert(v@.skip(n as int) =~= Seq::<char>::empty());
        assert(replace_home(Seq::empty(), home@) =~= Seq::<char>::empty());
        assert(out@ =~= replace_home(v@, home@));
    }
    out
}

/// The directory a configuration line sets, if it is the deciding line.
fn line_value_chars(line: &Vec<char>, home: &Vec<char>) -> (r: Option<Vec<char>>)
    ensures
        match r {
            Some(v) => line_value(line@, home@) == Some(v@),
            None => line_value(line@, home@) is None,
        },
{
    let t = trim_chars(line);
    if !starts_with_chars(&t, "XDG_DOWNLOAD_DIR") {
        return None;
    }
    let tn = t.len();
    match find_char(&t, '=') {
        None => None,
        Some(i) => {
            let after = copy_range(&t, i + 1, tn);
            proof {
                assert(after@ =~= t@.skip(i as int + 1));
            }
            let value = trim_chars(&after);
            let bare = unquote_chars(&value);
            Some(replace_home_chars(&bare, home))
        },
    }
}

/// The value of the first deciding line of the configuration, if any.
fn scan_config_chars(config: &Vec<char>, home: &Vec<char>) -> (r: Option<Vec<char>>)
    ensures
        match r {
            Some(v) => scan_config(config@, home@) == Some(v@),
            None => scan_config(config@, home@) is None,
        },
{
    let n = config.len();
    let mut pos: usize = 0;
    proof {
        assert(config@.skip(0) =~= config@);
    }
    while pos < n
        invariant
            pos <= n,
            n == config@.len(),
            scan_config(config@, home@) == scan_config(config@.skip(pos as int), home@),
        decreases n - pos,
    {
        let rest = copy_range(config, pos, n);
        proof {
            assert(rest@ =~= config@.skip(pos as int));
        }
        match find_char(&rest, '\n') {
            Some(k) => {
                let line = copy_range(&rest, 0, k);
                proof {
                    assert(line@ =~= rest@.take(k as int));
                }
                match line_value_chars(&line, home) {
                    Some(v) => {
                        return Some(v);
                    },
                    None => {
                        proof {
                            assert(rest@.skip(k as int + 1) =~= config@.skip(
                                pos as int + k as int + 1,
                            ));
                        }
                        pos = pos + k + 1;
                    },
                }
            },
            None => {
                return line_value_chars(&rest, home);
            },
        }
    }
    proof {
        assert(config@.skip(pos as int) =~= Seq::<char>::empty());
        lemma_first_index_of(Seq::<char>::empty(), '\n');
        assert(trimmed(Seq::<char>::empty()) =~= Seq::<char>::empty());
        reveal_strlit("XDG_DOWNLOAD_DIR");
        assert(!"XDG_DOWNLOAD_DIR"@.is_prefix_of(Seq::<char>::empty()));
    }
    None
}

/// The fallback `<home>/Downloads`.
fn fallback_dir(home: &Vec<char>) -> (r: String)
    ensures
        r@ == home@ + "/Downloads"@,
{
    let mut cs: Vec<char> = Vec::new();
    push_all(&mut cs, home);
    let suffix = str_to_chars("/Downloads");
    push_all(&mut cs, &suffix);
    proof {
        assert(Seq::<char>::empty() + home@ =~= home@);
    }
    chars_to_string(&cs)
}

/// The directory the user-dirs configuration sets, else `<home>/Downloads`.
fn linux_downloads_dir(home: &str, config: Option<&str>) -> (r: String)
    ensures
        r@ == downloads_dir_of(
            home@,
            match config {
                Some(c) => Some(c@),
                None => None,
            },
        ),
{
    let hc = str_to_chars(home);
    match config {
        Some(c) => {
            let cc = str_to_chars(c);
            match scan_config_chars(&cc, &hc) {
                Some(v) => chars_to_string(&v),
                None => fallback_dir(&hc),
            }
        },
        None => fallback_dir(&hc),
    }
}

/// The default downloads directory on Linux: what `XDG_DOWNLOAD_DIR` in the
/// user-dirs configuration sets, with `$HOME` expanded, else
/// `<home>/Downloads`.
pub fn default_downloads_dir(home: &str, config: Option<&str>) -> (r: String)
    ensures
        r@ == downloads_dir_of(
            home@,
            match config {
                Some(c) => Some(c@),
                None => None,
            },
        ),
{
    linux_downloads_dir(home, config)
}

} // verus!
