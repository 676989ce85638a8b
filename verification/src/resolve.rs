//! The destination resolver: computing and preparing the extraction target
//! directory for a source path, including the aside-rename used when the
//! desired directory name is occupied by a file — typically the archive
//! itself, whose sanitized name equals its own.
//!
//! The resolver decides; the caller probes the filesystem and performs the
//! renames and creations it asks for. Each decision is a function of the
//! source path and of what the probes reported, so the exchange is a small
//! state machine: probe the destination; if a directory stands there, reuse
//! it; if nothing does, create it; if a non-directory does, probe alias
//! names `<name>.__extracting__`, `<name>.__extracting__1`, … until a free
//! one is found, rename the source to it, and create the destination.

use vstd::prelude::*;

use crate::chars::{chars_to_string, push_all, str_to_chars};
use crate::paths::{dest_dir_of, file_name_chars, file_name_of, join_chars, join_path,
    parent_chars, parent_of, sanitize_chars, sanitize_name};

verus! {

/// The character for a single decimal digit.
pub open spec fn digit_char(d: int) -> char
    recommends
        0 <= d <= 9,
{
    ('0' as int + d) as char
}

/// The decimal rendering of a natural number, most significant digit first,
/// without leading zeros.
pub open spec fn dec_chars(n: nat) -> Seq<char>
    decreases n,
{
    if n < 10 {
        seq![digit_char(n as int)]
    } else {
        dec_chars(n / 10) + seq![digit_char((n % 10) as int)]
    }
}

/// A decimal rendering is never empty.
pub proof fn lemma_dec_chars_len(n: nat)
    ensures
        dec_chars(n).len() >= 1,
    decreases n,
{
    if n >= 10 {
        lemma_dec_chars_len(n / 10);
    }
}

/// Distinct digits give distinct characters.
pub proof fn lemma_digit_char_injective(a: int, b: int)
    requires
        0 <= a <= 9,
        0 <= b <= 9,
        digit_char(a) == digit_char(b),
    ensures
        a == b,
{
    assert(digit_char(a) as int == 48 + a);
    assert(digit_char(b) as int == 48 + b);
}

/// Distinct numbers render to distinct digit strings.
pub proof fn lemma_dec_chars_injective(m: nat, n: nat)
    requires
        dec_chars(m) == dec_chars(n),
    ensures
        m == n,
    decreases m,
{
    lemma_dec_chars_len(m);
    lemma_dec_chars_len(n);
    if m < 10 && n < 10 {
        assert(dec_chars(m) =~= seq![digit_char(m as int)]);
        assert(dec_chars(n) =~= seq![digit_char(n as int)]);
        assert(dec_chars(m)[0] == digit_char(m as int));
        assert(dec_chars(n)[0] == digit_char(n as int));
        assert(dec_chars(m)[0] == dec_chars(n)[0]);
        lemma_digit_char_injective(m as int, n as int);
    } else if m >= 10 && n >= 10 {
        assert(dec_chars(m) =~= dec_chars(m / 10) + seq![digit_char((m % 10) as int)]);
        assert(dec_chars(n) =~= dec_chars(n / 10) + seq![digit_char((n % 10) as int)]);
        assert(dec_chars(m).last() == digit_char((m % 10) as int));
        assert(dec_chars(n).last() == digit_char((n % 10) as int));
        assert(dec_chars(m).last() == dec_chars(n).last());
        lemma_digit_char_injective((m % 10) as int, (n % 10) as int);
        assert(dec_chars(m).drop_last() =~= dec_chars(m / 10));
        assert(dec_chars(n).drop_last() =~= dec_chars(n / 10));
        lemma_dec_chars_injective(m / 10, n / 10);
        assert(m == 10 * (m / 10) + m % 10);
        assert(n == 10 * (n / 10) + n % 10);
    } else if m < 10 {
        lemma_dec_chars_len(n / 10);
        assert(dec_chars(n) =~= dec_chars(n / 10) + seq![digit_char((n % 10) as int)]);
        assert(dec_chars(m).len() == 1);
        assert(dec_chars(n).len() >= 2);
    } else {
        lemma_dec_chars_len(m / 10);
        assert(dec_chars(m) =~= dec_chars(m / 10) + seq![digit_char((m % 10) as int)]);
        assert(dec_chars(n).len() == 1);
        assert(dec_chars(m).len() >= 2);
    }
}

/// The decimal rendering of `n`, as characters.
pub fn dec_chars_exec(n: u64) -> (r: Vec<char>)
    ensures
        r@ == dec_chars(n as nat),
{
    let mut r: Vec<char> = Vec::new();
    if n == 0 {
        r.push('0');
        proof {
            assert(dec_chars(0) =~= seq!['0']);
        }
        return r;
    }
    let mut m = n;
    proof {
        assert(dec_chars(n as nat) =~= dec_chars(n as nat) + Seq::<char>::empty());
    }
    while m > 0
        invariant
            m > 0 ==> dec_chars(n as nat) =~= dec_chars(m as nat) + r@,
            m == 0 ==> dec_chars(n as nat) =~= r@,
        decreases m,
    {
        let ghost m0 = m as nat;
        let ghost r0 = r@;
        let d = (m % 10) as u8;
        let c = (48u8 + d) as char;
        r.insert(0, c);
        m = m / 10;
        proof {
            assert(c == digit_char((m0 % 10) as int));
            assert(r@ =~= seq![c] + r0);
            if m0 < 10 {
                assert(dec_chars(m0) =~= seq![c]);
                assert(dec_chars(n as nat) =~= r@);
            } else {
                assert(dec_chars(m0) =~= dec_chars(m0 / 10) + seq![c]);
                assert(m as nat == m0 / 10);
                assert(dec_chars(n as nat) =~= dec_chars(m as nat) + r@);
            }
        }
    }
    r
}

/// The alias name for a destination name and an attempt counter: the first
/// attempt appends `.__extracting__` bare, later attempts add the counter.
pub open spec fn alias_name_of(dest_name: Seq<char>, counter: nat) -> Seq<char> {
    if counter == 0 {
        dest_name + ".__extracting__"@
    } else {
        dest_name + ".__extracting__"@ + dec_chars(counter)
    }
}

/// The alias path for a source and an attempt counter: the alias name in the
/// source's parent, beside the destination.
pub open spec fn alias_path_of(source: Seq<char>, counter: nat) -> Seq<char> {
    join_path(parent_of(source), alias_name_of(sanitize_name(file_name_of(source)), counter))
}

/// Alias names from distinct attempts are distinct: probing until one is
/// free can never settle on a name an earlier attempt already rejected.
pub proof fn lemma_alias_names_distinct(dest_name: Seq<char>, c1: nat, c2: nat)
    requires
        c1 != c2,
    ensures
        alias_name_of(dest_name, c1) != alias_name_of(dest_name, c2),
{
    reveal_strlit(".__extracting__");
    lemma_dec_chars_len(c1);
    lemma_dec_chars_len(c2);
    if c1 != 0 && c2 != 0 {
        if alias_name_of(dest_name, c1) == alias_name_of(dest_name, c2) {
            let base = dest_name.len() + ".__extracting__"@.len();
            assert(dec_chars(c1) =~= alias_name_of(dest_name, c1).subrange(
                base as int,
                alias_name_of(dest_name, c1).len() as int,
            ));
            assert(dec_chars(c2) =~= alias_name_of(dest_name, c2).subrange(
                base as int,
                alias_name_of(dest_name, c2).len() as int,
            ));
            lemma_dec_chars_injective(c1, c2);
            assert(false);
        }
    }
}

/// An alias name never equals the destination name it was derived from.
pub proof fn lemma_alias_name_differs(dest_name: Seq<char>, c: nat)
    ensures
        alias_name_of(dest_name, c) != dest_name,
{
    reveal_strlit(".__extracting__");
    lemma_dec_chars_len(c);
}

/// Joining distinct names under one directory gives distinct paths.
pub proof fn lemma_join_right_injective(dir: Seq<char>, a: Seq<char>, b: Seq<char>)
    requires
        join_path(dir, a) == join_path(dir, b),
    ensures
        a == b,
{
    if dir.len() == 0 {
    } else if dir.last() == '/' {
        assert(a =~= (dir + a).subrange(dir.len() as int, (dir + a).len() as int));
        assert(b =~= (dir + b).subrange(dir.len() as int, (dir + b).len() as int));
    } else {
        assert(a =~= (dir + seq!['/'] + a).subrange(
            dir.len() as int + 1,
            (dir + seq!['/'] + a).len() as int,
        ));
        assert(b =~= (dir + seq!['/'] + b).subrange(
            dir.len() as int + 1,
            (dir + seq!['/'] + b).len() as int,
        ));
    }
}

/// Alias paths from distinct attempts are distinct.
pub proof fn lemma_alias_paths_distinct(source: Seq<char>, c1: nat, c2: nat)
    requires
        c1 != c2,
    ensures
        alias_path_of(source, c1) != alias_path_of(source, c2),
{
    lemma_alias_names_distinct(sanitize_name(file_name_of(source)), c1, c2);
    if alias_path_of(source, c1) == alias_path_of(source, c2) {
        lemma_join_right_injective(
            parent_of(source),
            alias_name_of(sanitize_name(file_name_of(source)), c1),
            alias_name_of(sanitize_name(file_name_of(source)), c2),
        );
    }
}

/// An alias path never equals the destination directory: renaming the
/// occupant aside leaves the destination name free.
pub proof fn lemma_alias_path_differs_from_dest(source: Seq<char>, c: nat)
    ensures
        alias_path_of(source, c) != dest_dir_of(source),
{
    lemma_alias_name_differs(sanitize_name(file_name_of(source)), c);
    if alias_path_of(source, c) == dest_dir_of(source) {
        lemma_join_right_injective(
            parent_of(source),
            alias_name_of(sanitize_name(file_name_of(source)), c),
            sanitize_name(file_name_of(source)),
        );
    }
}

/// The alias name for an attempt counter, as characters.
pub fn alias_name_chars(dest_name: &Vec<char>, counter: u64) -> (r: Vec<char>)
    ensures
        r@ == alias_name_of(dest_name@, counter as nat),
{
    let mut r: Vec<char> = Vec::new();
    push_all(&mut r, dest_name);
    let marker = str_to_chars(".__extracting__");
    push_all(&mut r, &marker);
    if counter > 0 {
        let digits = dec_chars_exec(counter);
        push_all(&mut r, &digits);
    }
    proof {
        assert(r@ =~= alias_name_of(dest_name@, counter as nat));
    }
    r
}

/// The alias path for a source and an attempt counter, as characters.
pub fn alias_path_chars(source: &Vec<char>, counter: u64) -> (r: Vec<char>)
    ensures
        r@ == alias_path_of(source@, counter as nat),
{
    let name = file_name_chars(source);
    let clean = sanitize_chars(&name);
    let alias = alias_name_chars(&clean, counter);
    let parent = parent_chars(source);
    join_chars(&parent, &alias)
}

/// What a filesystem probe of a path found.
#[derive(PartialEq, Eq, Structural, Clone, Copy, Debug)]
pub enum ProbeResult {
    /// A directory stands at the path.
    Directory,
    /// Something other than a directory stands at the path.
    NonDirectory,
    /// Nothing stands at the path.
    Missing,
}

/// Where the resolver stands in its exchange of probes.
#[derive(PartialEq, Eq, Structural, Clone, Copy, Debug)]
pub enum ResolvePhase {
    /// Waiting for the probe of the destination directory itself.
    AtDest,
    /// Waiting for the probe of the alias with this attempt counter.
    AtAlias(u64),
    /// A decision was reached; the resolver is done.
    Settled,
}

/// What the resolver asks its caller to do next.
#[derive(Debug, PartialEq, Eq)]
pub enum ResolveAction {
    /// Probe this path and report what stands there.
    Probe(String),
    /// The destination already exists as a directory: use it as it is, and
    /// extract from the source itself.
    Reuse(String),
    /// Nothing occupies the destination name: create the directory, and
    /// extract from the source itself.
    CreateFresh(String),
    /// A non-directory occupies the destination name: rename the source's
    /// occupant aside to `alias`, create `dest`, extract from `alias`, and
    /// delete the alias afterwards.
    RenameThenCreate { alias: String, dest: String },
}

/// The decision a `ResolveAction` stands for, over character sequences.
pub enum ResolveDecision {
    Probe(Seq<char>),
    Reuse(Seq<char>),
    CreateFresh(Seq<char>),
    RenameThenCreate { alias: Seq<char>, dest: Seq<char> },
}

impl View for ResolveAction {
    type V = ResolveDecision;

    open spec fn view(&self) -> ResolveDecision {
        match self {
            ResolveAction::Probe(p) => ResolveDecision::Probe(p@),
            ResolveAction::Reuse(d) => ResolveDecision::Reuse(d@),
            ResolveAction::CreateFresh(d) => ResolveDecision::CreateFresh(d@),
            ResolveAction::RenameThenCreate { alias, dest } => ResolveDecision::RenameThenCreate {
                alias: alias@,
                dest: dest@,
            },
        }
    }
}

/// The resolver's whole behaviour: what one probe report makes of one phase.
pub open spec fn resolve_step(source: Seq<char>, phase: ResolvePhase, found: ProbeResult) -> (
    ResolvePhase,
    ResolveDecision,
) {
    match phase {
        ResolvePhase::AtDest => match found {
            ProbeResult::Directory => (
                ResolvePhase::Settled,
                ResolveDecision::Reuse(dest_dir_of(source)),
            ),
            ProbeResult::Missing => (
                ResolvePhase::Settled,
                ResolveDecision::CreateFresh(dest_dir_of(source)),
            ),
            ProbeResult::NonDirectory => (
                ResolvePhase::AtAlias(0),
                ResolveDecision::Probe(alias_path_of(source, 0)),
            ),
        },
        ResolvePhase::AtAlias(c) => match found {
            ProbeResult::Missing => (
                ResolvePhase::Settled,
                ResolveDecision::RenameThenCreate {
                    alias: alias_path_of(source, c as nat),
                    dest: dest_dir_of(source),
                },
            ),
            _ => (
                ResolvePhase::AtAlias((c + 1) as u64),
                ResolveDecision::Probe(alias_path_of(source, (c + 1) as nat)),
            ),
        },
        ResolvePhase::Settled => (ResolvePhase::Settled, ResolveDecision::Probe(Seq::empty())),
    }
}

/// The destination resolver: holds the source path and the phase of the
/// probe exchange; every decision it hands out follows `resolve_step`.
pub struct DestinationResolver {
    pub source: Vec<char>,
    pub phase: ResolvePhase,
}

impl DestinationResolver {
    /// Starts resolution for a source path. The first action probes the
    /// derived destination directory.
    pub fn begin(source: &str) -> (r: (Self, ResolveAction))
        ensures
            r.0.source@ == source@,
            r.0.phase == ResolvePhase::AtDest,
            r.1@ == ResolveDecision::Probe(dest_dir_of(source@)),
    {
        let cs = str_to_chars(source);
        let resolver = DestinationResolver { source: cs, phase: ResolvePhase::AtDest };
        let dest = resolver.dest_dir();
        let action = ResolveAction::Probe(dest);
        (resolver, action)
    }

    /// The destination directory derived from the source.
    pub fn dest_dir(&self) -> (d: String)
        ensures
            d@ == dest_dir_of(self.source@),
    {
        let name = file_name_chars(&self.source);
        let clean = sanitize_chars(&name);
        let parent = parent_chars(&self.source);
        let joined = join_chars(&parent, &clean);
        chars_to_string(&joined)
    }

    /// Feeds the report of the probe the resolver last asked for; the next
    /// action is exactly what `resolve_step` decides.
    pub fn on_probe(&mut self, found: ProbeResult) -> (a: ResolveAction)
        requires
            !(old(self).phase is Settled),
            old(self).phase matches ResolvePhase::AtAlias(c) ==> c < u64::MAX,
        ensures
            final(self).source@ == old(self).source@,
            (final(self).phase, a@) == resolve_step(old(self).source@, old(self).phase, found),
    {
        match self.phase {
            ResolvePhase::AtDest => match found {
                ProbeResult::Directory => {
                    let d = self.dest_dir();
                    self.phase = ResolvePhase::Settled;
                    ResolveAction::Reuse(d)
                },
                ProbeResult::Missing => {
                    let d = self.dest_dir();
                    self.phase = ResolvePhase::Settled;
                    ResolveAction::CreateFresh(d)
                },
                ProbeResult::NonDirectory => {
                    let alias = alias_path_chars(&self.source, 0);
                    self.phase = ResolvePhase::AtAlias(0);
                    ResolveAction::Probe(chars_to_string(&alias))
                },
            },
            ResolvePhase::AtAlias(c) => match found {
                ProbeResult::Missing => {
                    let alias = alias_path_chars(&self.source, c);
                    let d = self.dest_dir();
                    self.phase = ResolvePhase::Settled;
                    ResolveAction::RenameThenCreate {
                        alias: chars_to_string(&alias),
                        dest: d,
                    }
                },
                _ => {
                    let alias = alias_path_chars(&self.source, c + 1);
                    self.phase = ResolvePhase::AtAlias(c + 1);
                    ResolveAction::Probe(chars_to_string(&alias))
                },
            },
            ResolvePhase::Settled => {
                proof {
                    assert(false);
                }
                ResolveAction::Probe(String::new())
            },
        }
    }
}

/// Resolving a destination whose directory already exists reuses it: the
/// decision is exactly `Reuse` of the derived destination, asking for no
/// rename and no creation; and since the decision is a function of the
/// source alone, resolving the same source a second time in the same
/// circumstances reaches the same directory again, unchanged.
pub proof fn lemma_resolve_existing_dir_idempotent(source: Seq<char>)
    ensures
        resolve_step(source, ResolvePhase::AtDest, ProbeResult::Directory) == (
            ResolvePhase::Settled,
            ResolveDecision::Reuse(dest_dir_of(source)),
        ),
{
}

/// When a non-directory occupies the destination name, the resolver renames
/// it aside, never over the destination: probing starts at the first alias,
/// the first free alias is the rename target, every alias differs from the
/// destination directory, and aliases from distinct attempts differ from
/// each other — so the destination literally named after the candidate is
/// still created.
pub proof fn lemma_collision_renamed_aside(source: Seq<char>, c: u64)
    ensures
        resolve_step(source, ResolvePhase::AtDest, ProbeResult::NonDirectory) == (
            ResolvePhase::AtAlias(0),
            ResolveDecision::Probe(alias_path_of(source, 0)),
        ),
        resolve_step(source, ResolvePhase::AtAlias(c), ProbeResult::Missing) == (
            ResolvePhase::Settled,
            ResolveDecision::RenameThenCreate {
                alias: alias_path_of(source, c as nat),
                dest: dest_dir_of(source),
            },
        ),
        alias_path_of(source, c as nat) != dest_dir_of(source),
{
    lemma_alias_path_differs_from_dest(source, c as nat);
}

} // verus!
