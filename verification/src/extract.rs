//! The extractor contract: each strategy turns an archive's bytes into a
//! plan — the filesystem actions that place every entry inside the
//! destination directory, or the external-tool command that does the same —
//! and no planned action ever reaches outside the destination.
//!
//! The caller executes the plan: it creates the directories, writes the
//! files (parents as needed, overwriting what stands there), or runs the
//! tool. Planning decides everything else: which entries are skipped or
//! rejected for unsafe names, where each entry lands, and with which bytes.

use vstd::prelude::*;

use crate::chars::{chars_to_string, push_all, str_to_chars};
use crate::decode::{gunzip, gunzip_of, sevenz_entries, sevenz_entries_of, tar_entries,
    tar_entries_of, zip_entries, zip_entries_of};
use crate::entries::{check_entry_name, clone_bytes, entries_view, is_safe_entry_name,
    lemma_join_safe_within, path_within, ArchiveEntry};
use crate::paths::{file_name_chars, file_name_of, join_chars, join_path, stem_chars, stem_of};
use crate::variant::{tar_kind_for_name, tar_kind_of, ExtractorVariant, TarKind};

verus! {

/// One filesystem action of a plan.
#[derive(Debug, PartialEq, Eq)]
pub enum FsAction {
    /// Create this directory, with its parents.
    MakeDir(String),
    /// Create this file's parents as needed and write these bytes,
    /// overwriting whatever stands there.
    WriteFile(String, Vec<u8>),
    /// As `WriteFile`, but clear a read-only attribute off an existing file
    /// first, as the 7z strategy does.
    WriteFileForce(String, Vec<u8>),
}

/// The step an `FsAction` stands for, over character and byte sequences.
pub enum FsStep {
    MakeDir(Seq<char>),
    WriteFile(Seq<char>, Seq<u8>),
    WriteFileForce(Seq<char>, Seq<u8>),
}

impl View for FsAction {
    type V = FsStep;

    open spec fn view(&self) -> FsStep {
        match self {
            FsAction::MakeDir(p) => FsStep::MakeDir(p@),
            FsAction::WriteFile(p, d) => FsStep::WriteFile(p@, d@),
            FsAction::WriteFileForce(p, d) => FsStep::WriteFileForce(p@, d@),
        }
    }
}

/// The path a step touches.
pub open spec fn step_path(s: FsStep) -> Seq<char> {
    match s {
        FsStep::MakeDir(p) => p,
        FsStep::WriteFile(p, _) => p,
        FsStep::WriteFileForce(p, _) => p,
    }
}

/// The steps of a sequence of actions.
pub open spec fn actions_view(s: Seq<FsAction>) -> Seq<FsStep> {
    s.map_values(|a: FsAction| a@)
}

/// Why planning an extraction failed.
#[derive(Debug, PartialEq, Eq)]
pub enum ExtractError {
    /// The archive's bytes could not be decoded; carries the decoder's
    /// message.
    BadArchive(String),
    /// An entry's name would escape the destination directory; carries the
    /// name.
    UnsafeEntryPath(String),
}

/// The external command of a `RunTool` plan.
#[derive(Debug, PartialEq, Eq)]
pub struct ToolCommand {
    pub program: String,
    pub args: Vec<String>,
}

/// An extraction plan: filesystem actions to perform, or one external
/// command to run.
#[derive(Debug, PartialEq, Eq)]
pub enum ExtractionPlan {
    Actions(Vec<FsAction>),
    RunTool(ToolCommand),
}

/// What an `ExtractionPlan` stands for.
pub enum PlanModel {
    Actions(Seq<FsStep>),
    RunTool { program: Seq<char>, args: Seq<Seq<char>> },
}

impl View for ExtractionPlan {
    type V = PlanModel;

    open spec fn view(&self) -> PlanModel {
        match self {
            ExtractionPlan::Actions(v) => PlanModel::Actions(actions_view(v@)),
            ExtractionPlan::RunTool(c) => PlanModel::RunTool {
                program: c.program@,
                args: c.args@.map_values(|s: String| s@),
            },
        }
    }
}

/// Every action of the plan stays within `dest`. Of a `RunTool` plan this
/// can say nothing: what the external tool writes is outside this model.
pub open spec fn plan_contained(p: PlanModel, dest: Seq<char>) -> bool {
    match p {
        PlanModel::Actions(steps) => forall|k: int|
            0 <= k < steps.len() ==> path_within(step_path(#[trigger] steps[k]), dest),
        PlanModel::RunTool { .. } => true,
    }
}

/// The steps one entry contributes: nothing when its name is unsafe, a
/// directory creation for a directory entry, a write of exactly its bytes
/// otherwise.
pub open spec fn entry_steps(dest: Seq<char>, e: (Seq<char>, bool, Seq<u8>), force: bool) -> Seq<
    FsStep,
> {
    if !is_safe_entry_name(e.0) {
        Seq::empty()
    } else if e.1 {
        seq![FsStep::MakeDir(join_path(dest, e.0))]
    } else if force {
        seq![FsStep::WriteFileForce(join_path(dest, e.0), e.2)]
    } else {
        seq![FsStep::WriteFile(join_path(dest, e.0), e.2)]
    }
}

/// The plan for a sequence of entries, in order.
pub open spec fn entries_plan(
    dest: Seq<char>,
    entries: Seq<(Seq<char>, bool, Seq<u8>)>,
    force: bool,
) -> Seq<FsStep>
    decreases entries.len(),
{
    if entries.len() == 0 {
        Seq::empty()
    } else {
        entries_plan(dest, entries.drop_last(), force) + entry_steps(dest, entries.last(), force)
    }
}

/// Some entry's name is unsafe.
pub open spec fn has_unsafe_entry(entries: Seq<(Seq<char>, bool, Seq<u8>)>) -> bool {
    exists|k: int| 0 <= k < entries.len() && !is_safe_entry_name((#[trigger] entries[k]).0)
}

/// No step of an entry plan reaches outside the destination, whatever the
/// entries hold — the heart of the containment guarantee.
pub proof fn lemma_entries_plan_contained(
    dest: Seq<char>,
    entries: Seq<(Seq<char>, bool, Seq<u8>)>,
    force: bool,
)
    ensures
        forall|k: int|
            0 <= k < entries_plan(dest, entries, force).len() ==> path_within(
                step_path(#[trigger] entries_plan(dest, entries, force)[k]),
                dest,
            ),
    decreases entries.len(),
{
    if entries.len() > 0 {
        lemma_entries_plan_contained(dest, entries.drop_last(), force);
        let prefix = entries_plan(dest, entries.drop_last(), force);
        let last = entries.last();
        let steps = entry_steps(dest, last, force);
        if is_safe_entry_name(last.0) {
            lemma_join_safe_within(dest, last.0);
        }
        assert forall|k: int| 0 <= k < entries_plan(dest, entries, force).len() implies path_within(
            step_path(#[trigger] entries_plan(dest, entries, force)[k]),
            dest,
        ) by {
            if k < prefix.len() {
                assert(entries_plan(dest, entries, force)[k] == prefix[k]);
            } else {
                assert(entries_plan(dest, entries, force)[k] == steps[k - prefix.len()]);
            }
        }
    }
}

/// Every safe file entry's bytes appear in the plan, byte for byte, at the
/// entry's place under the destination.
pub proof fn lemma_entries_plan_writes_bytes(
    dest: Seq<char>,
    entries: Seq<(Seq<char>, bool, Seq<u8>)>,
    force: bool,
    k: int,
)
    requires
        0 <= k < entries.len(),
        is_safe_entry_name(entries[k].0),
        !entries[k].1,
    ensures
        entries_plan(dest, entries, force).contains(
            if force {
                FsStep::WriteFileForce(join_path(dest, entries[k].0), entries[k].2)
            } else {
                FsStep::WriteFile(join_path(dest, entries[k].0), entries[k].2)
            },
        ),
    decreases entries.len(),
{
    let step = if force {
        FsStep::WriteFileForce(join_path(dest, entries[k].0), entries[k].2)
    } else {
        FsStep::WriteFile(join_path(dest, entries[k].0), entries[k].2)
    };
    let prefix = entries_plan(dest, entries.drop_last(), force);
    let steps = entry_steps(dest, entries.last(), force);
    if k == entries.len() - 1 {
        assert(steps[0] == step);
        assert(entries_plan(dest, entries, force)[prefix.len() as int] == step);
    } else {
        lemma_entries_plan_writes_bytes(dest, entries.drop_last(), force, k);
        let i = choose|i: int| 0 <= i < prefix.len() && prefix[i] == step;
        assert(entries_plan(dest, entries, force)[i] == step);
    }
}

/// Builds the actions for a vector of decoded entries.
fn plan_entries(dest: &Vec<char>, entries: &Vec<ArchiveEntry>, force: bool) -> (r: Vec<FsAction>)
    ensures
        actions_view(r@) == entries_plan(dest@, entries_view(entries@), force),
{
    let mut out: Vec<FsAction> = Vec::new();
    let n = entries.len();
    let mut i: usize = 0;
    proof {
        assert(entries_view(entries@).take(0) =~= Seq::empty());
    }
    while i < n
        invariant
            i <= n,
            n == entries@.len(),
            actions_view(out@) =~= entries_plan(dest@, entries_view(entries@).take(i as int), force),
        decreases n - i,
    {
        let ghost pre = entries_view(entries@).take(i as int);
        let ghost cur = entries_view(entries@).take(i + 1);
        proof {
            assert(cur.drop_last() =~= pre);
            assert(cur.last() == entries@[i as int]@);
        }
        let e = &entries[i];
        let name = str_to_chars(e.name.as_str());
        if check_entry_name(&name) {
            let path = join_chars(dest, &name);
            let ps = chars_to_string(&path);
            if e.is_dir {
                out.push(FsAction::MakeDir(ps));
            } else if force {
                out.push(FsAction::WriteFileForce(ps, clone_bytes(&e.data)));
            } else {
                out.push(FsAction::WriteFile(ps, clone_bytes(&e.data)));
            }
        }
        i = i + 1;
        proof {
            assert(actions_view(out@) =~= entries_plan(dest@, cur, force));
        }
    }
    proof {
        assert(entries_view(entries@).take(n as int) =~= entries_view(entries@));
    }
    out
}

/// The first entry with an unsafe name, if any.
fn find_unsafe_entry(entries: &Vec<ArchiveEntry>) -> (r: Option<usize>)
    ensures
        match r {
            Some(i) => i < entries@.len() && !is_safe_entry_name(entries@[i as int]@.0),
            None => !has_unsafe_entry(entries_view(entries@)),
        },
{
    let n = entries.len();
    let mut i: usize = 0;
    while i < n
        invariant
            i <= n,
            n == entries@.len(),
            forall|j: int| 0 <= j < i ==> is_safe_entry_name((#[trigger] entries@[j])@.0),
        decreases n - i,
    {
        let name = str_to_chars(entries[i].name.as_str());
        if !check_entry_name(&name) {
            return Some(i);
        }
        i = i + 1;
    }
    proof {
        assert forall|k: int| 0 <= k < entries_view(entries@).len() implies is_safe_entry_name(
            (#[trigger] entries_view(entries@)[k]).0,
        ) by {
            assert(entries_view(entries@)[k] == entries@[k]@);
        }
    }
    None
}

/// The arguments the external tool is run with: extract all (`x`),
/// overwrite (`-y`), into the destination (`-o<dest>`), reading the source.
pub open spec fn tool_args_of(source: Seq<char>, dest: Seq<char>) -> Seq<Seq<char>> {
    seq!["x"@, "-y"@, "-o"@ + dest, source]
}

/// What a successful plan for this strategy holds. `source` is the
/// archive's own path, whose name decides the tar/gzip sub-kind and the
/// bare-gzip output name; `file` is where the archive's bytes now lie — the
/// alias after an aside-rename, else the source itself — and is what the
/// external tool is pointed at.
pub open spec fn variant_plan_ok(
    v: ExtractorVariant,
    source: Seq<char>,
    file: Seq<char>,
    dest: Seq<char>,
    data: Seq<u8>,
    p: PlanModel,
) -> bool {
    match v {
        ExtractorVariant::Zip => zip_entries_of(data) matches Some(ents) && !has_unsafe_entry(
            ents,
        ) && p == PlanModel::Actions(entries_plan(dest, ents, false)),
        ExtractorVariant::TarGz => {
            let name = file_name_of(source);
            match tar_kind_of(name) {
                TarKind::GzippedTar => gunzip_of(data) matches Some(t) && tar_entries_of(t)
                    matches Some(ents) && p == PlanModel::Actions(entries_plan(dest, ents, false)),
                TarKind::PlainTar => tar_entries_of(data) matches Some(ents) && p
                    == PlanModel::Actions(entries_plan(dest, ents, false)),
                TarKind::SingleGz => gunzip_of(data) matches Some(b) && is_safe_entry_name(
                    stem_of(name),
                ) && p == PlanModel::Actions(
                    seq![FsStep::WriteFile(join_path(dest, stem_of(name)), b)],
                ),
                TarKind::Other => p == PlanModel::Actions(Seq::empty()),
            }
        },
        ExtractorVariant::SevenZip => sevenz_entries_of(data) matches Some(ents)
            && !has_unsafe_entry(ents) && p == PlanModel::Actions(entries_plan(dest, ents, true)),
        ExtractorVariant::Rar => p == (PlanModel::RunTool {
            program: "7z"@,
            args: tool_args_of(file, dest),
        }),
    }
}

/// What a failed plan for this strategy means.
pub open spec fn variant_plan_err(
    v: ExtractorVariant,
    source: Seq<char>,
    data: Seq<u8>,
    e: ExtractError,
) -> bool {
    match v {
        ExtractorVariant::Zip => (zip_entries_of(data) is None && e matches
            ExtractError::BadArchive(_)) || (zip_entries_of(data) matches Some(ents)
            && has_unsafe_entry(ents) && e matches ExtractError::UnsafeEntryPath(_)),
        ExtractorVariant::TarGz => {
            match tar_kind_of(file_name_of(source)) {
                TarKind::GzippedTar => (gunzip_of(data) is None || (gunzip_of(data) matches Some(t)
                    && tar_entries_of(t) is None)) && e matches ExtractError::BadArchive(_),
                TarKind::PlainTar => tar_entries_of(data) is None && e matches
                    ExtractError::BadArchive(_),
                TarKind::SingleGz => (gunzip_of(data) is None && e matches
                    ExtractError::BadArchive(_)) || (gunzip_of(data) is Some
                    && !is_safe_entry_name(stem_of(file_name_of(source))) && e matches
                    ExtractError::UnsafeEntryPath(_)),
                TarKind::Other => false,
            }
        },
        ExtractorVariant::SevenZip => (sevenz_entries_of(data) is None && e matches
            ExtractError::BadArchive(_)) || (sevenz_entries_of(data) matches Some(ents)
            && has_unsafe_entry(ents) && e matches ExtractError::UnsafeEntryPath(_)),
        ExtractorVariant::Rar => false,
    }
}

/// One per-format extraction strategy: a pure function from the source
/// path, the destination directory and the archive's bytes to a plan. A
/// returned plan's actions all stay within the destination.
///
/// `source` is the archive's original path: its file name alone decides
/// name-derived choices such as the tar/gzip sub-kind. `file` is where the
/// archive now lies — the alias after an aside-rename, else the source —
/// and is what `data` was read from and what an external tool would open.
pub trait ArchiveExtractor {
    /// Plans the extraction of `data`, the bytes of the archive from
    /// `source` now lying at `file`, into `dest`.
    fn extract_plan(&self, source: &str, file: &str, dest: &str, data: &Vec<u8>) -> (r: Result<
        ExtractionPlan,
        ExtractError,
    >)
        ensures
            r matches Ok(p) ==> plan_contained(p@, dest@),
    ;
}

/// The zip strategy: entries by index; an entry whose name would escape the
/// destination fails the task; names ending in a separator create
/// directories; the rest are written byte for byte.
pub struct ZipExtractor;

impl ArchiveExtractor for ZipExtractor {
    fn extract_plan(&self, source: &str, file: &str, dest: &str, data: &Vec<u8>) -> (r: Result<
        ExtractionPlan,
        ExtractError,
    >)
        ensures
            match r {
                Ok(p) => variant_plan_ok(ExtractorVariant::Zip, source@, file@, dest@, data@, p@),
                Err(e) => variant_plan_err(ExtractorVariant::Zip, source@, data@, e),
            },
    {
        let _ = source;
        let _ = file;
        match zip_entries(data) {
            Ok(entries) => {
                match find_unsafe_entry(&entries) {
                    Some(i) => {
                        let name = entries[i].name.clone();
                        proof {
                            assert(entries_view(entries@)[i as int] == entries@[i as int]@);
                        }
                        Err(ExtractError::UnsafeEntryPath(name))
                    },
                    None => {
                        let dc = str_to_chars(dest);
                        let actions = plan_entries(&dc, &entries, false);
                        proof {
                            lemma_entries_plan_contained(dest@, entries_view(entries@), false);
                        }
                        Ok(ExtractionPlan::Actions(actions))
                    },
                }
            },
            Err(m) => Err(ExtractError::BadArchive(m)),
        }
    }
}

/// The tar/gzip family strategy: the sub-kind is read off the source's file
/// name — never off an alias the archive was renamed to — with `.tar.gz`,
/// `.tgz`, `.taz` decompressing then untarring, `.tar` untarring directly,
/// and a bare `.gz` decompressing to one file named after the source's
/// stem. Tar entries whose names would escape the destination are dropped,
/// in the way of a tar reader's own entry-path handling.
pub struct TarGzExtractor;

impl TarGzExtractor {
    /// Plans the entries of a tar stream under `dest`.
    fn plan_tar(dest: &str, entries: &Vec<ArchiveEntry>) -> (r: Vec<FsAction>)
        ensures
            actions_view(r@) == entries_plan(dest@, entries_view(entries@), false),
            forall|k: int|
                0 <= k < actions_view(r@).len() ==> path_within(
                    step_path(#[trigger] actions_view(r@)[k]),
                    dest@,
                ),
    {
        let dc = str_to_chars(dest);
        let actions = plan_entries(&dc, entries, false);
        proof {
            lemma_entries_plan_contained(dest@, entries_view(entries@), false);
        }
        actions
    }
}

impl ArchiveExtractor for TarGzExtractor {
    fn extract_plan(&self, source: &str, file: &str, dest: &str, data: &Vec<u8>) -> (r: Result<
        ExtractionPlan,
        ExtractError,
    >)
        ensures
            match r {
                Ok(p) => variant_plan_ok(ExtractorVariant::TarGz, source@, file@, dest@, data@, p@),
                Err(e) => variant_plan_err(ExtractorVariant::TarGz, source@, data@, e),
            },
    {
        let _ = file;
        let sc = str_to_chars(source);
        let name = file_name_chars(&sc);
        match tar_kind_for_name(&name) {
            TarKind::GzippedTar => {
                let tar_bytes = match gunzip(data) {
                    Ok(b) => b,
                    Err(m) => {
                        return Err(ExtractError::BadArchive(m));
                    },
                };
                match tar_entries(&tar_bytes) {
                    Ok(entries) => Ok(ExtractionPlan::Actions(Self::plan_tar(dest, &entries))),
                    Err(m) => Err(ExtractError::BadArchive(m)),
                }
            },
            TarKind::PlainTar => {
                match tar_entries(data) {
                    Ok(entries) => Ok(ExtractionPlan::Actions(Self::plan_tar(dest, &entries))),
                    Err(m) => Err(ExtractError::BadArchive(m)),
                }
            },
            TarKind::SingleGz => {
                match gunzip(data) {
                    Ok(bytes) => {
                        let stem = stem_chars(&name);
                        if !check_entry_name(&stem) {
                            return Err(ExtractError::UnsafeEntryPath(chars_to_string(&stem)));
                        }
                        let dc = str_to_chars(dest);
                        let path = join_chars(&dc, &stem);
                        let ps = chars_to_string(&path);
                        let mut actions: Vec<FsAction> = Vec::new();
                        actions.push(FsAction::WriteFile(ps, bytes));
                        proof {
                            assert(actions_view(actions@) =~= seq![
                                FsStep::WriteFile(
                                    join_path(dest@, stem_of(file_name_of(source@))),
                                    gunzip_of(data@).unwrap(),
                                ),
                            ]);
                            lemma_join_safe_within(dest@, stem_of(file_name_of(source@)));
                        }
                        Ok(ExtractionPlan::Actions(actions))
                    },
                    Err(m) => Err(ExtractError::BadArchive(m)),
                }
            },
            TarKind::Other => {
                let actions: Vec<FsAction> = Vec::new();
                proof {
                    assert(actions_view(actions@) =~= Seq::<FsStep>::empty());
                }
                Ok(ExtractionPlan::Actions(actions))
            },
        }
    }
}

/// The 7z strategy: streamed entries with the same containment check as
/// zip, but an unsafe name fails the task, and an existing read-only output
/// file is made writable before the overwrite.
pub struct SevenZExtractor;

impl ArchiveExtractor for SevenZExtractor {
    fn extract_plan(&self, source: &str, file: &str, dest: &str, data: &Vec<u8>) -> (r: Result<
        ExtractionPlan,
        ExtractError,
    >)
        ensures
            match r {
                Ok(p) => variant_plan_ok(
                    ExtractorVariant::SevenZip,
                    source@,
                    file@,
                    dest@,
                    data@,
                    p@,
                ),
                Err(e) => variant_plan_err(ExtractorVariant::SevenZip, source@, data@, e),
            },
    {
        let _ = source;
        let _ = file;
        match sevenz_entries(data) {
            Ok(entries) => {
                match find_unsafe_entry(&entries) {
                    Some(i) => {
                        let name = entries[i].name.clone();
                        proof {
                            assert(entries_view(entries@)[i as int] == entries@[i as int]@);
                        }
                        Err(ExtractError::UnsafeEntryPath(name))
                    },
                    None => {
                        let dc = str_to_chars(dest);
                        let actions = plan_entries(&dc, &entries, true);
                        proof {
                            lemma_entries_plan_contained(dest@, entries_view(entries@), true);
                        }
                        Ok(ExtractionPlan::Actions(actions))
                    },
                }
            },
            Err(m) => Err(ExtractError::BadArchive(m)),
        }
    }
}

/// The rar strategy: delegate to the external `7z` tool — extract all,
/// overwrite, output to the destination, reading the file where the archive
/// now lies (its alias after an aside-rename). The caller runs the command;
/// a non-zero exit or a failed launch fails the task.
pub struct RarExtractor;

impl ArchiveExtractor for RarExtractor {
    fn extract_plan(&self, source: &str, file: &str, dest: &str, data: &Vec<u8>) -> (r: Result<
        ExtractionPlan,
        ExtractError,
    >)
        ensures
            match r {
                Ok(p) => variant_plan_ok(ExtractorVariant::Rar, source@, file@, dest@, data@, p@),
                Err(e) => variant_plan_err(ExtractorVariant::Rar, source@, data@, e),
            },
    {
        let _ = source;
        let _ = data;
        let mut o = str_to_chars("-o");
        let dc = str_to_chars(dest);
        push_all(&mut o, &dc);
        let mut args: Vec<String> = Vec::new();
        args.push(String::from_str("x"));
        args.push(String::from_str("-y"));
        args.push(chars_to_string(&o));
        args.push(String::from_str(file));
        let command = ToolCommand { program: String::from_str("7z"), args };
        let plan = ExtractionPlan::RunTool(command);
        proof {
            assert(plan@ matches PlanModel::RunTool { program, args } && args =~= tool_args_of(
                file@,
                dest@,
            ));
        }
        Ok(plan)
    }
}

/// Planning is a function of its inputs alone: two workers handed the same
/// source, destination and archive bytes — a duplicate dispatch of one path
/// — arrive at identical plans, so the second worker re-creates the same
/// directories and re-writes the same files with the same bytes instead of
/// corrupting the first worker's output.
pub proof fn lemma_duplicate_dispatch_plans_agree(
    v: ExtractorVariant,
    source: Seq<char>,
    file: Seq<char>,
    dest: Seq<char>,
    data: Seq<u8>,
    p1: PlanModel,
    p2: PlanModel,
)
    requires
        variant_plan_ok(v, source, file, dest, data, p1),
        variant_plan_ok(v, source, file, dest, data, p2),
    ensures
        p1 == p2,
{
}

/// The one dispatch point of the closed strategy set: plans with the
/// strategy the variant names.
pub fn plan_for_variant(
    v: ExtractorVariant,
    source: &str,
    file: &str,
    dest: &str,
    data: &Vec<u8>,
) -> (r: Result<ExtractionPlan, ExtractError>)
    ensures
        match r {
            Ok(p) => variant_plan_ok(v, source@, file@, dest@, data@, p@) && plan_contained(
                p@,
                dest@,
            ),
            Err(e) => variant_plan_err(v, source@, data@, e),
        },
{
    match v {
        ExtractorVariant::Zip => ZipExtractor.extract_plan(source, file, dest, data),
        ExtractorVariant::TarGz => TarGzExtractor.extract_plan(source, file, dest, data),
        ExtractorVariant::SevenZip => SevenZExtractor.extract_plan(source, file, dest, data),
        ExtractorVariant::Rar => RarExtractor.extract_plan(source, file, dest, data),
    }
}

} // verus!
