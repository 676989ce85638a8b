//! One worker's walk through a task: from a dequeued archive path to the
//! cleanup of the original, as a state machine.
//!
//! The worker decides; the caller performs the filesystem work — polling a
//! size, probing a path, renaming, creating a directory, extracting,
//! deleting — and reports each result as an event. A task moves through:
//! the in-progress-name and extension checks at the start, the first
//! stability gate, the destination resolution, the extraction, the second
//! gate on the file just extracted, and the deletion of the original (or of
//! its alias). Any failed step finishes only its own task.

use vstd::prelude::*;

use crate::chars::{chars_to_string, clone_chars, str_to_chars};
use crate::gate::{GateDecision, StabilityGate};
use crate::names::is_temp_name;
use crate::paths::{dest_dir_of, extension_chars, file_name_chars, file_name_of};
use crate::resolve::{resolve_step, DestinationResolver, ProbeResult, ResolveDecision, ResolvePhase};
use crate::variant::{variant_for_extension, variant_of_path, ExtractorVariant};

verus! {

/// How a task ended.
#[derive(PartialEq, Eq, Structural, Clone, Copy, Debug)]
pub enum TaskOutcome {
    /// The file name carries an in-progress-download suffix: left alone.
    SkippedTempName,
    /// No extractor handles the file's extension: left alone.
    SkippedUnknown,
    /// Preparing the destination (a rename or a directory creation) failed.
    FailedResolve,
    /// The extractor failed; the original is left in place.
    FailedExtract,
    /// Extraction succeeded and the original (or its alias) was deleted.
    Extracted,
    /// Extraction succeeded but deleting the original failed; logged, not
    /// retried.
    CleanupFailed,
}

/// What the worker asks its caller to do next.
#[derive(Debug, PartialEq, Eq)]
pub enum TaskAction {
    /// Read the length of the file at this path, wait the poll delay, and
    /// report `SizeRead` (`None` when the read failed).
    PollSize(String),
    /// Probe what stands at this path and report `Probed`.
    ProbePath(String),
    /// Rename `from` to `to` and report `Renamed`.
    Rename { from: String, to: String },
    /// Create this directory, with parents, and report `DirCreated`.
    CreateDir(String),
    /// Extract the archive from `source`, now lying at `file` (its alias
    /// after an aside-rename, else the source itself), into `dest` with
    /// this strategy, and report `Extracted`.
    Extract { variant: ExtractorVariant, source: String, file: String, dest: String },
    /// Delete this file and report `Deleted`.
    Delete(String),
    /// The task is over; nothing more to do for this path.
    Done(TaskOutcome),
}

/// What a `TaskAction` stands for, over character sequences.
pub enum TaskActionModel {
    PollSize(Seq<char>),
    ProbePath(Seq<char>),
    Rename { from: Seq<char>, to: Seq<char> },
    CreateDir(Seq<char>),
    Extract { variant: ExtractorVariant, source: Seq<char>, file: Seq<char>, dest: Seq<char> },
    Delete(Seq<char>),
    Done(TaskOutcome),
}

impl View for TaskAction {
    type V = TaskActionModel;

    open spec fn view(&self) -> TaskActionModel {
        match self {
            TaskAction::PollSize(p) => TaskActionModel::PollSize(p@),
            TaskAction::ProbePath(p) => TaskActionModel::ProbePath(p@),
            TaskAction::Rename { from, to } => TaskActionModel::Rename { from: from@, to: to@ },
            TaskAction::CreateDir(p) => TaskActionModel::CreateDir(p@),
            TaskAction::Extract { variant, source, file, dest } => TaskActionModel::Extract {
                variant: *variant,
                source: source@,
                file: file@,
                dest: dest@,
            },
            TaskAction::Delete(p) => TaskActionModel::Delete(p@),
            TaskAction::Done(o) => TaskActionModel::Done(*o),
        }
    }
}

/// What the caller reports back after performing an action.
pub enum TaskEvent {
    /// The polled length, `None` when the read failed this round.
    SizeRead(Option<u64>),
    /// What stands at the probed path.
    Probed(ProbeResult),
    /// Whether the rename succeeded.
    Renamed(bool),
    /// Whether the directory creation succeeded.
    DirCreated(bool),
    /// Whether the extraction succeeded.
    Extracted(bool),
    /// Whether the deletion succeeded.
    Deleted(bool),
}

/// Where a task stands.
pub enum TaskState {
    /// Waiting for size polls of the source before anything is touched.
    /// The strategy is selected only after the source holds still.
    FirstGate { gate: StabilityGate },
    /// Waiting for the probes of the destination resolution.
    Resolving { variant: ExtractorVariant, resolver: DestinationResolver },
    /// Waiting for the aside-rename of the destination name's occupant.
    AwaitRename { variant: ExtractorVariant, alias: Vec<char>, dest: Vec<char> },
    /// Waiting for the creation of the destination directory; `file` is
    /// what will be extracted (the alias after a rename, else the source).
    PreparingDest { variant: ExtractorVariant, dest: Vec<char>, file: Vec<char> },
    /// Waiting for the extractor to finish on `file`.
    Extracting { file: Vec<char> },
    /// Waiting for size polls of the file just extracted, before deleting.
    SecondGate { file: Vec<char>, gate: StabilityGate },
    /// Waiting for the deletion of the extracted file.
    Deleting { file: Vec<char> },
    /// The task is over.
    Finished(TaskOutcome),
}

/// One task: the dequeued path, the attempt budget each stability wait gets,
/// and where the task stands.
pub struct Task {
    pub path: Vec<char>,
    pub attempts: usize,
    pub state: TaskState,
}

/// The events a state is waiting for.
pub open spec fn event_fits(state: TaskState, e: TaskEvent) -> bool {
    match (state, e) {
        (TaskState::FirstGate { .. }, TaskEvent::SizeRead(_)) => true,
        (TaskState::Resolving { .. }, TaskEvent::Probed(_)) => true,
        (TaskState::AwaitRename { .. }, TaskEvent::Renamed(_)) => true,
        (TaskState::PreparingDest { .. }, TaskEvent::DirCreated(_)) => true,
        (TaskState::Extracting { .. }, TaskEvent::Extracted(_)) => true,
        (TaskState::SecondGate { .. }, TaskEvent::SizeRead(_)) => true,
        (TaskState::Deleting { .. }, TaskEvent::Deleted(_)) => true,
        _ => false,
    }
}

/// The task's pieces agree with each other.
pub open spec fn task_wf(t: Task) -> bool {
    match t.state {
        TaskState::Resolving { resolver, .. } => resolver.source@ == t.path@ && !(resolver.phase
            is Settled),
        _ => true,
    }
}

impl Task {
    /// Takes up a dequeued path. A name with an in-progress-download suffix
    /// is skipped outright; anything else starts at the first stability
    /// gate, and only a source that held still gets a strategy selected.
    pub fn begin(path: &str, attempts: usize) -> (r: (Task, TaskAction))
        ensures
            r.0.path@ == path@,
            r.0.attempts == attempts,
            task_wf(r.0),
            is_temp_name(file_name_of(path@)) ==> r.0.state == TaskState::Finished(
                TaskOutcome::SkippedTempName,
            ) && r.1@ == TaskActionModel::Done(TaskOutcome::SkippedTempName),
            !is_temp_name(file_name_of(path@)) ==> r.0.state == (TaskState::FirstGate {
                gate: StabilityGate { attempts_left: attempts, prev: None },
            }) && r.1@ == TaskActionModel::PollSize(path@),
    {
        let cs = str_to_chars(path);
        let name = file_name_chars(&cs);
        if crate::names::is_temp_file_name(chars_to_string(&name).as_str()) {
            return (
                Task {
                    path: cs,
                    attempts,
                    state: TaskState::Finished(TaskOutcome::SkippedTempName),
                },
                TaskAction::Done(TaskOutcome::SkippedTempName),
            );
        }
        let action = TaskAction::PollSize(chars_to_string(&cs));
        (
            Task {
                path: cs,
                attempts,
                state: TaskState::FirstGate { gate: StabilityGate::new(attempts) },
            },
            action,
        )
    }

    /// Feeds the report of the action the task last asked for; returns the
    /// next action.
    pub fn on_event(&mut self, e: TaskEvent) -> (a: TaskAction)
        requires
            task_wf(*old(self)),
            event_fits(old(self).state, e),
            old(self).state matches TaskState::Resolving { resolver, .. } ==> (resolver.phase
                matches ResolvePhase::AtAlias(c) ==> c < u64::MAX),
        ensures
            final(self).path@ == old(self).path@,
            final(self).attempts == old(self).attempts,
            task_wf(*final(self)),
            task_step_holds(*old(self), e, *final(self), a@),
    {
        let path_string = chars_to_string(&self.path);
        let attempts = self.attempts;
        let mut state = TaskState::Finished(TaskOutcome::Extracted);
        core::mem::swap(&mut state, &mut self.state);
        match state {
            TaskState::FirstGate { mut gate } => {
                let size = match e {
                    TaskEvent::SizeRead(s) => s,
                    _ => None,
                };
                match gate.observe(size) {
                    GateDecision::Again => {
                        self.state = TaskState::FirstGate { gate };
                        TaskAction::PollSize(path_string)
                    },
                    _ => {
                        let name = file_name_chars(&self.path);
                        let variant = match extension_chars(&name) {
                            Some(ext) => variant_for_extension(chars_to_string(&ext).as_str()),
                            None => None,
                        };
                        match variant {
                            None => {
                                self.state = TaskState::Finished(TaskOutcome::SkippedUnknown);
                                TaskAction::Done(TaskOutcome::SkippedUnknown)
                            },
                            Some(variant) => {
                                let (resolver, action) = DestinationResolver::begin(
                                    path_string.as_str(),
                                );
                                self.state = TaskState::Resolving { variant, resolver };
                                match action {
                                    crate::resolve::ResolveAction::Probe(p) => TaskAction::ProbePath(
                                        p,
                                    ),
                                    _ => TaskAction::ProbePath(String::new()),
                                }
                            },
                        }
                    },
                }
            },
            TaskState::Resolving { variant, mut resolver } => {
                let found = match e {
                    TaskEvent::Probed(p) => p,
                    _ => ProbeResult::Missing,
                };
                let action = resolver.on_probe(found);
                match action {
                    crate::resolve::ResolveAction::Probe(p) => {
                        self.state = TaskState::Resolving { variant, resolver };
                        TaskAction::ProbePath(p)
                    },
                    crate::resolve::ResolveAction::Reuse(d) => {
                        let file = clone_chars(&self.path);
                        self.state = TaskState::Extracting { file };
                        TaskAction::Extract {
                            variant,
                            source: chars_to_string(&self.path),
                            file: path_string,
                            dest: d,
                        }
                    },
                    crate::resolve::ResolveAction::CreateFresh(d) => {
                        let dest = str_to_chars(d.as_str());
                        let file = clone_chars(&self.path);
                        self.state = TaskState::PreparingDest { variant, dest, file };
                        TaskAction::CreateDir(d)
                    },
                    crate::resolve::ResolveAction::RenameThenCreate { alias, dest } => {
                        let ac = str_to_chars(alias.as_str());
                        let dc = str_to_chars(dest.as_str());
                        self.state = TaskState::AwaitRename { variant, alias: ac, dest: dc };
                        TaskAction::Rename { from: path_string, to: alias }
                    },
                }
            },
            TaskState::AwaitRename { variant, alias, dest } => {
                let ok = match e {
                    TaskEvent::Renamed(b) => b,
                    _ => false,
                };
                if ok {
                    let d = chars_to_string(&dest);
                    self.state = TaskState::PreparingDest { variant, dest, file: alias };
                    TaskAction::CreateDir(d)
                } else {
                    self.state = TaskState::Finished(TaskOutcome::FailedResolve);
                    TaskAction::Done(TaskOutcome::FailedResolve)
                }
            },
            TaskState::PreparingDest { variant, dest, file } => {
                let ok = match e {
                    TaskEvent::DirCreated(b) => b,
                    _ => false,
                };
                if ok {
                    let fs = chars_to_string(&file);
                    let ds = chars_to_string(&dest);
                    self.state = TaskState::Extracting { file };
                    TaskAction::Extract { variant, source: path_string, file: fs, dest: ds }
                } else {
                    self.state = TaskState::Finished(TaskOutcome::FailedResolve);
                    TaskAction::Done(TaskOutcome::FailedResolve)
                }
            },
            TaskState::Extracting { file } => {
                let ok = match e {
                    TaskEvent::Extracted(b) => b,
                    _ => false,
                };
                if ok {
                    let fs = chars_to_string(&file);
                    self.state = TaskState::SecondGate { file, gate: StabilityGate::new(attempts) };
                    TaskAction::PollSize(fs)
                } else {
                    self.state = TaskState::Finished(TaskOutcome::FailedExtract);
                    TaskAction::Done(TaskOutcome::FailedExtract)
                }
            },
            TaskState::SecondGate { file, mut gate } => {
                let size = match e {
                    TaskEvent::SizeRead(s) => s,
                    _ => None,
                };
                let fs = chars_to_string(&file);
                match gate.observe(size) {
                    GateDecision::Again => {
                        self.state = TaskState::SecondGate { file, gate };
                        TaskAction::PollSize(fs)
                    },
                    _ => {
                        self.state = TaskState::Deleting { file };
                        TaskAction::Delete(fs)
                    },
                }
            },
            TaskState::Deleting { file: _ } => {
                let ok = match e {
                    TaskEvent::Deleted(b) => b,
                    _ => false,
                };
                if ok {
                    self.state = TaskState::Finished(TaskOutcome::Extracted);
                    TaskAction::Done(TaskOutcome::Extracted)
                } else {
                    self.state = TaskState::Finished(TaskOutcome::CleanupFailed);
                    TaskAction::Done(TaskOutcome::CleanupFailed)
                }
            },
            TaskState::Finished(_) => {
                proof {
                    assert(false);
                }
                TaskAction::Done(TaskOutcome::Extracted)
            },
        }
    }
}

/// The task machine's whole transition relation: what one event makes of
/// one state — the next state and the action handed back.
pub open spec fn task_step_holds(pre: Task, e: TaskEvent, post: Task, a: TaskActionModel) -> bool {
    match pre.state {
        TaskState::FirstGate { gate } => e matches TaskEvent::SizeRead(size) && {
            let (g2, d) = gate.observe_spec(size);
            if d is Again {
                post.state == (TaskState::FirstGate { gate: g2 }) && a
                    == TaskActionModel::PollSize(pre.path@)
            } else {
                match variant_of_path(pre.path@) {
                    None => post.state == TaskState::Finished(TaskOutcome::SkippedUnknown) && a
                        == TaskActionModel::Done(TaskOutcome::SkippedUnknown),
                    Some(v) => post.state matches TaskState::Resolving { variant: v2, resolver }
                        && v2 == v && resolver.source@ == pre.path@ && resolver.phase
                        == ResolvePhase::AtDest && a == TaskActionModel::ProbePath(
                        dest_dir_of(pre.path@),
                    ),
                }
            }
        },
        TaskState::Resolving { variant, resolver } => e matches TaskEvent::Probed(found) && {
            let (phase2, decision) = resolve_step(resolver.source@, resolver.phase, found);
            match decision {
                ResolveDecision::Probe(p) => post.state matches TaskState::Resolving {
                    variant: v2,
                    resolver: r2,
                } && v2 == variant && r2.source@ == pre.path@ && r2.phase == phase2 && a
                    == TaskActionModel::ProbePath(p),
                ResolveDecision::Reuse(d) => post.state matches TaskState::Extracting { file }
                    && file@ == pre.path@ && a == (TaskActionModel::Extract {
                    variant,
                    source: pre.path@,
                    file: pre.path@,
                    dest: d,
                }),
                ResolveDecision::CreateFresh(d) => post.state matches TaskState::PreparingDest {
                    variant: v2,
                    dest,
                    file,
                } && v2 == variant && dest@ == d && file@ == pre.path@ && a
                    == TaskActionModel::CreateDir(d),
                ResolveDecision::RenameThenCreate { alias, dest } => post.state matches
                    TaskState::AwaitRename { variant: v2, alias: a2, dest: d2 } && v2 == variant
                    && a2@ == alias && d2@ == dest && a == (TaskActionModel::Rename {
                    from: pre.path@,
                    to: alias,
                }),
            }
        },
        TaskState::AwaitRename { variant, alias, dest } => e matches TaskEvent::Renamed(ok) && if ok {
            post.state matches TaskState::PreparingDest { variant: v2, dest: d2, file } && v2
                == variant && d2@ == dest@ && file@ == alias@ && a == TaskActionModel::CreateDir(
                dest@,
            )
        } else {
            post.state == TaskState::Finished(TaskOutcome::FailedResolve) && a
                == TaskActionModel::Done(TaskOutcome::FailedResolve)
        },
        TaskState::PreparingDest { variant, dest, file } => e matches TaskEvent::DirCreated(ok)
            && if ok {
            post.state matches TaskState::Extracting { file: f2 } && f2@ == file@ && a == (
            TaskActionModel::Extract { variant, source: pre.path@, file: file@, dest: dest@ })
        } else {
            post.state == TaskState::Finished(TaskOutcome::FailedResolve) && a
                == TaskActionModel::Done(TaskOutcome::FailedResolve)
        },
        TaskState::Extracting { file } => e matches TaskEvent::Extracted(ok) && if ok {
            post.state matches TaskState::SecondGate { file: f2, gate } && f2@ == file@ && gate
                == (StabilityGate { attempts_left: pre.attempts, prev: None::<u64> }) && a
                == TaskActionModel::PollSize(file@)
        } else {
            post.state == TaskState::Finished(TaskOutcome::FailedExtract) && a
                == TaskActionModel::Done(TaskOutcome::FailedExtract)
        },
        TaskState::SecondGate { file, gate } => e matches TaskEvent::SizeRead(size) && {
            let (g2, d) = gate.observe_spec(size);
            if d is Again {
                post.state matches TaskState::SecondGate { file: f2, gate: g3 } && f2@ == file@
                    && g3 == g2 && a == TaskActionModel::PollSize(file@)
            } else {
                post.state matches TaskState::Deleting { file: f2 } && f2@ == file@ && a
                    == TaskActionModel::Delete(file@)
            }
        },
        TaskState::Deleting { file } => e matches TaskEvent::Deleted(ok) && if ok {
            post.state == TaskState::Finished(TaskOutcome::Extracted) && a
                == TaskActionModel::Done(TaskOutcome::Extracted)
        } else {
            post.state == TaskState::Finished(TaskOutcome::CleanupFailed) && a
                == TaskActionModel::Done(TaskOutcome::CleanupFailed)
        },
        TaskState::Finished(_) => false,
    }
}

/// The original is deleted only after the extractor reported success: a
/// `Delete` action only ever leaves the second stability wait, and that
/// wait is entered only by a successful extraction (or stays put while it
/// polls). A task that fails at any earlier step never reaches a delete.
pub proof fn lemma_delete_only_after_success(
    pre: Task,
    e: TaskEvent,
    post: Task,
    a: TaskActionModel,
)
    requires
        task_step_holds(pre, e, post, a),
    ensures
        (a matches TaskActionModel::Delete(_)) ==> pre.state matches TaskState::SecondGate { .. },
        (post.state matches TaskState::SecondGate { .. }) ==> (pre.state matches
            TaskState::Extracting { .. } && e == TaskEvent::Extracted(true)) || pre.state matches
            TaskState::SecondGate { .. },
{
}

} // verus!
