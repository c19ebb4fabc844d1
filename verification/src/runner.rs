use vstd::prelude::*;
use crate::datefmt::{common_era_secs, date_format_ok, format_utc_timestamp, formatted_date};
use crate::datefmt::date_format_valid;
use crate::job::{JobError, Mode, TransferJob};
use crate::paths::{join_path, join_spec};
use crate::report::{FailureStage, OutcomeKind, TransferOutcome, TransferReport};
use crate::resolve::resolved_flat_dest;
use vstd::string::StringExecFns;

verus! {

/// What a directory listing says one entry is. A symlink to a regular file
/// counts as a file; a symlink to a directory is kept apart so that the walk
/// never follows it (following symlinked directories could loop forever).
#[derive(Clone, Copy, Debug, PartialEq, Eq, Structural)]
pub enum EntryKind {
    File,
    Dir,
    SymlinkDir,
    Other,
}

/// One entry of a directory listing, by bare name.
#[derive(Clone, Debug)]
pub struct DirEntry {
    pub name: String,
    pub kind: EntryKind,
}

/// A discovered source file: its full path and its bare name.
#[derive(Clone, Debug)]
pub struct FileEntry {
    pub path: String,
    pub name: String,
}

/// The next filesystem operation the caller has to perform for the runner.
#[derive(Clone, Debug)]
pub enum Action {
    ListDir { path: String },
    StatFile { path: String },
    CreateDirAll { path: String },
    CopyFile { source: String, destination: String },
    RenameFile { source: String, destination: String },
    RemoveSourceFile { path: String },
    Finish,
}

/// What the caller reports back about the action it performed.
#[derive(Clone, Debug)]
pub enum Event {
    DirListed { entries: Vec<DirEntry> },
    DirListFailed { reason: String },
    StatOk { created_secs: i64 },
    StatFailed { reason: String },
    DirCreated,
    DirCreateFailed { reason: String },
    CopyOk,
    CopyFailed { reason: String },
    RenameOk,
    RenameFailed { reason: String },
    RemoveOk,
    RemoveFailed { reason: String },
}

/// Where the runner stands within one job.
#[derive(Clone, Copy, Debug, PartialEq, Eq, Structural)]
pub enum Phase {
    Walking,
    Resolving,
    CreatingDir,
    Transferring,
    CopyFallback,
    Cleanup,
    Done,
}

/// The bare names of the regular files among `entries`, in listing order.
pub open spec fn file_names(entries: Seq<DirEntry>) -> Seq<Seq<char>>
    decreases entries.len(),
{
    if entries.len() == 0 {
        Seq::empty()
    } else {
        file_names(entries.drop_last()) + if entries.last().kind is File {
            seq![entries.last().name@]
        } else {
            Seq::empty()
        }
    }
}

/// The paths of the regular files among `entries`, joined under `dir`.
pub open spec fn file_paths(dir: Seq<char>, entries: Seq<DirEntry>) -> Seq<Seq<char>>
    decreases entries.len(),
{
    if entries.len() == 0 {
        Seq::empty()
    } else {
        file_paths(dir, entries.drop_last()) + if entries.last().kind is File {
            seq![join_spec(dir, entries.last().name@)]
        } else {
            Seq::empty()
        }
    }
}

/// The paths of the subdirectories among `entries`, joined under `dir`.
/// Symlinked directories and other entries are left out, so the walk never
/// descends into them.
pub open spec fn subdir_paths(dir: Seq<char>, entries: Seq<DirEntry>) -> Seq<Seq<char>>
    decreases entries.len(),
{
    if entries.len() == 0 {
        Seq::empty()
    } else {
        subdir_paths(dir, entries.drop_last()) + if entries.last().kind is Dir {
            seq![join_spec(dir, entries.last().name@)]
        } else {
            Seq::empty()
        }
    }
}

pub open spec fn names_of(files: Seq<FileEntry>) -> Seq<Seq<char>> {
    files.map_values(|f: FileEntry| f.name@)
}

pub open spec fn paths_of(files: Seq<FileEntry>) -> Seq<Seq<char>> {
    files.map_values(|f: FileEntry| f.path@)
}

pub open spec fn string_views(v: Seq<String>) -> Seq<Seq<char>> {
    v.map_values(|s: String| s@)
}

pub open spec fn group_present(groups: Seq<String>, g: Seq<char>) -> bool {
    exists|i: int| 0 <= i < groups.len() && groups[i]@ == g
}

pub open spec fn groups_unique(groups: Seq<String>) -> bool {
    forall|i: int, j: int| 0 <= i < j < groups.len() ==> groups[i]@ != groups[j]@
}

/// `k` failed at `stage` with the given reason and destination flag.
pub open spec fn failed_kind(
    k: OutcomeKind,
    stage: FailureStage,
    reason: Seq<char>,
    destination_written: bool,
) -> bool {
    k matches OutcomeKind::Failed { reason: r, stage: st, destination_written: dw } && r@
        == reason && st == stage && dw == destination_written
}

/// `k` failed at `stage` with the given destination flag.
pub open spec fn failed_stage(k: OutcomeKind, stage: FailureStage, destination_written: bool) -> bool {
    k matches OutcomeKind::Failed { stage: st, destination_written: dw, .. } && st == stage && dw
        == destination_written
}

/// Drives one transfer job: it hands out filesystem actions one at a time and
/// consumes their results, so that a caller owning the filesystem can run the
/// job as a plain loop.
pub struct TransferRunner {
    pub job: TransferJob,
    pub phase: Phase,
    /// The directory whose listing is awaited (`Walking`).
    pub current_dir: String,
    /// The grouping directory name awaiting creation (`CreatingDir`).
    pub pending_group: String,
    /// The grouping directory path awaiting creation (`CreatingDir`).
    pub pending_dir: String,
    /// The resolved destination of the file being processed.
    pub pending_destination: String,
    /// Directories discovered but not yet listed.
    pub dirs_pending: Vec<String>,
    /// Files discovered by the walk, in discovery order.
    pub files: Vec<FileEntry>,
    /// How many of `files` already have an outcome.
    pub next_file: usize,
    /// Grouping directory names already created during this job.
    pub created_groups: Vec<String>,
    pub report: TransferReport,
    pub job_error: Option<JobError>,
}

impl TransferRunner {
    pub open spec fn in_file_phase(&self) -> bool {
        self.phase is Resolving || self.phase is CreatingDir || self.phase is Transferring
            || self.phase is CopyFallback || self.phase is Cleanup
    }

    /// The phase-independent invariant: the counts agree, every processed file
    /// has exactly one outcome in order, a non-recursive job discovers only
    /// direct children of the source root, and created group names are unique.
    pub open spec fn core_inv(&self) -> bool {
        &&& self.report.wf()
        &&& self.next_file <= self.files@.len()
        &&& self.next_file <= self.report.outcomes@.len()
        &&& (forall|i: int|
            0 <= i < self.next_file ==> (#[trigger] self.report.outcomes@[self.report.outcomes@.len()
                - self.next_file + i]).path@ == self.files@[i].path@)
        &&& (!self.job.recursive ==> self.dirs_pending@.len() == 0)
        &&& (!self.job.recursive ==> forall|i: int|
            0 <= i < self.files@.len() ==> (#[trigger] self.files@[i]).path@ == join_spec(
                self.job.source_root@,
                self.files@[i].name@,
            ))
        &&& groups_unique(self.created_groups@)
    }

    /// The phase-dependent invariant.
    pub open spec fn phase_inv(&self) -> bool {
        &&& (self.phase is Walking ==> self.job_error is None && self.next_file == 0 && (
        !self.job.recursive ==> self.current_dir@ == self.job.source_root@))
        &&& (self.in_file_phase() ==> self.job_error is None && self.next_file < self.files@.len()
            && self.dirs_pending@.len() == 0)
        &&& (self.job.mode is Copy ==> !(self.phase is CopyFallback) && !(self.phase is Cleanup))
        &&& (self.phase is CreatingDir ==> self.pending_dir@ == join_spec(
            self.job.destination_root@,
            self.pending_group@,
        ) && self.pending_destination@ == join_spec(
            self.pending_dir@,
            self.files@[self.next_file as int].name@,
        ) && !group_present(self.created_groups@, self.pending_group@))
        &&& (self.phase is Done ==> self.next_file == self.files@.len())
        &&& (self.job_error is Some ==> self.phase is Done && self.report.outcomes@.len() == 0
            && self.files@.len() == 0)
    }

    pub open spec fn wf(&self) -> bool {
        self.core_inv() && self.phase_inv()
    }
}

/// The action the runner owes the caller in state `s`.
pub open spec fn expected_action(s: TransferRunner, a: Action) -> bool {
    match s.phase {
        Phase::Walking => a matches Action::ListDir { path } && path@ == s.current_dir@,
        Phase::Resolving => a matches Action::StatFile { path } && path@ == s.files@[
            s.next_file as int
        ].path@,
        Phase::CreatingDir => a matches Action::CreateDirAll { path } && path@ == s.pending_dir@,
        Phase::Transferring => match s.job.mode {
            Mode::Copy => a matches Action::CopyFile { source, destination } && source@
                == s.files@[s.next_file as int].path@ && destination@ == s.pending_destination@,
            Mode::Move => a matches Action::RenameFile { source, destination } && source@
                == s.files@[s.next_file as int].path@ && destination@ == s.pending_destination@,
        },
        Phase::CopyFallback => a matches Action::CopyFile { source, destination } && source@
            == s.files@[s.next_file as int].path@ && destination@ == s.pending_destination@,
        Phase::Cleanup => a matches Action::RemoveSourceFile { path } && path@ == s.files@[
            s.next_file as int
        ].path@,
        Phase::Done => a is Finish,
    }
}

/// The events that belong to the current phase; any other event leaves the
/// runner unchanged.
pub open spec fn event_expected(s: TransferRunner, event: Event) -> bool {
    match s.phase {
        Phase::Walking => event is DirListed || event is DirListFailed,
        Phase::Resolving => event is StatOk || event is StatFailed,
        Phase::CreatingDir => event is DirCreated || event is DirCreateFailed,
        Phase::Transferring => match s.job.mode {
            Mode::Copy => event is CopyOk || event is CopyFailed,
            Mode::Move => event is RenameOk || event is RenameFailed,
        },
        Phase::CopyFallback => event is CopyOk || event is CopyFailed,
        Phase::Cleanup => event is RemoveOk || event is RemoveFailed,
        Phase::Done => false,
    }
}

/// The runner stands at file `post.next_file`: about to resolve it, about to
/// transfer it (ungrouped), or done when every file is handled.
pub open spec fn at_next_file(post: TransferRunner) -> bool {
    if post.next_file == post.files@.len() {
        post.phase is Done
    } else if post.job.group_by_creation_date {
        post.phase is Resolving
    } else {
        post.phase is Transferring && post.pending_destination@ == resolved_flat_dest(
            post.job,
            post.files@[post.next_file as int].name@,
        )
    }
}

/// Exactly one outcome was recorded, for the file that was being processed,
/// and the runner moved on to the next file.
pub open spec fn finishes_file(pre: TransferRunner, post: TransferRunner) -> bool {
    &&& post.job == pre.job
    &&& post.files == pre.files
    &&& post.dirs_pending == pre.dirs_pending
    &&& post.created_groups == pre.created_groups
    &&& post.job_error == pre.job_error
    &&& post.next_file == pre.next_file + 1
    &&& post.report.outcomes@.len() == pre.report.outcomes@.len() + 1
    &&& post.report.outcomes@.drop_last() == pre.report.outcomes@
    &&& post.report.outcomes@.last().path@ == pre.files@[pre.next_file as int].path@
    &&& at_next_file(post)
}

/// Nothing changed but the phase.
pub open spec fn same_but_phase(pre: TransferRunner, post: TransferRunner) -> bool {
    post == (TransferRunner { phase: post.phase, ..pre })
}

/// The walker consumed one directory listing: every regular file of the
/// listing was discovered exactly once, in listing order, as a child path of
/// the listed directory; subdirectories were queued exactly when the job is
/// recursive; symlinked directories and all other entries were ignored; and
/// the walk moved on to the next pending directory or, when none is left, to
/// the transfers.
pub open spec fn listed_dir(pre: TransferRunner, post: TransferRunner, entries: Seq<DirEntry>) -> bool {
    &&& post.job == pre.job
    &&& post.report == pre.report
    &&& post.created_groups == pre.created_groups
    &&& post.job_error == pre.job_error
    &&& post.next_file == 0
    &&& pre.files@.len() <= post.files@.len()
    &&& (forall|i: int| 0 <= i < pre.files@.len() ==> post.files@[i] == pre.files@[i])
    &&& names_of(post.files@) == names_of(pre.files@) + file_names(entries)
    &&& paths_of(post.files@) == paths_of(pre.files@) + file_paths(pre.current_dir@, entries)
    &&& ({
        let queued = if pre.job.recursive {
            string_views(pre.dirs_pending@) + subdir_paths(pre.current_dir@, entries)
        } else {
            Seq::<Seq<char>>::empty()
        };
        if queued.len() > 0 {
            &&& post.phase is Walking
            &&& post.current_dir@ == queued.last()
            &&& string_views(post.dirs_pending@) == queued.drop_last()
        } else {
            &&& post.dirs_pending@.len() == 0
            &&& at_next_file(post)
        }
    })
}

/// An unlistable directory got its own failed outcome and the walk went on
/// with the remaining pending directories.
pub open spec fn walk_dir_failed(pre: TransferRunner, post: TransferRunner, reason: Seq<char>) -> bool {
    &&& post.job == pre.job
    &&& post.files == pre.files
    &&& post.created_groups == pre.created_groups
    &&& post.job_error == pre.job_error
    &&& post.next_file == 0
    &&& post.report.outcomes@.len() == pre.report.outcomes@.len() + 1
    &&& post.report.outcomes@.drop_last() == pre.report.outcomes@
    &&& post.report.outcomes@.last().path@ == pre.current_dir@
    &&& failed_kind(post.report.outcomes@.last().kind, FailureStage::Stat, reason, false)
    &&& ({
        let queued = string_views(pre.dirs_pending@);
        if queued.len() > 0 {
            &&& post.phase is Walking
            &&& post.current_dir@ == queued.last()
            &&& string_views(post.dirs_pending@) == queued.drop_last()
        } else {
            &&& post.dirs_pending@.len() == 0
            &&& at_next_file(post)
        }
    })
}

/// The creation timestamp of the file being processed resolved to the
/// grouping directory named `folder`: the destination is
/// `destinationRoot/<folder>/<name>`, and the runner either awaits the
/// creation of that directory (first use of the name in this job) or goes
/// straight to the transfer.
pub open spec fn resolved_with_folder(
    pre: TransferRunner,
    post: TransferRunner,
    folder: Seq<char>,
) -> bool {
    &&& post.job == pre.job
    &&& post.files == pre.files
    &&& post.report == pre.report
    &&& post.next_file == pre.next_file
    &&& post.dirs_pending == pre.dirs_pending
    &&& post.created_groups == pre.created_groups
    &&& post.job_error == pre.job_error
    &&& post.pending_destination@ == join_spec(
        join_spec(pre.job.destination_root@, folder),
        pre.files@[pre.next_file as int].name@,
    )
    &&& (if group_present(pre.created_groups@, folder) {
        post.phase is Transferring
    } else {
        post.phase is CreatingDir && post.pending_group@ == folder && post.pending_dir@
            == join_spec(pre.job.destination_root@, folder)
    })
}

impl TransferRunner {
    /// Validates the job and starts the run. `source_root_is_dir` is the
    /// caller's answer to whether the source root exists and is a directory —
    /// the one filesystem fact needed before anything is walked; the date
    /// format is checked here, so a bad format aborts before any file is
    /// touched.
    pub fn new(job: TransferJob, source_root_is_dir: bool) -> (r: (TransferRunner, Action))
        ensures
            r.0.wf(),
            r.0.job == job,
            expected_action(r.0, r.1),
            r.0.report.outcomes@.len() == 0,
            r.0.files@.len() == 0,
            r.0.next_file == 0,
            r.0.created_groups@.len() == 0,
            (r.0.job_error == Some(JobError::SourceRootInvalid)) == !source_root_is_dir,
            (r.0.job_error == Some(JobError::InvalidDateFormat)) == (source_root_is_dir
                && job.group_by_creation_date && !date_format_ok(job.date_format@)),
            (r.0.job_error is None) == (source_root_is_dir && (job.group_by_creation_date
                ==> date_format_ok(job.date_format@))),
            (r.0.phase is Done) == (r.0.job_error is Some),
            r.0.job_error is None ==> r.0.phase is Walking && r.0.current_dir@ == job.source_root@
                && r.0.dirs_pending@.len() == 0,
    {
        let current_dir = job.source_root.clone();
        let mut runner = TransferRunner {
            job,
            phase: Phase::Walking,
            current_dir,
            pending_group: String::new(),
            pending_dir: String::new(),
            pending_destination: String::new(),
            dirs_pending: Vec::new(),
            files: Vec::new(),
            next_file: 0,
            created_groups: Vec::new(),
            report: TransferReport::new(),
            job_error: None,
        };
        if !source_root_is_dir {
            runner.phase = Phase::Done;
            runner.job_error = Some(JobError::SourceRootInvalid);
            return (runner, Action::Finish);
        }
        if runner.job.group_by_creation_date && !date_format_valid(runner.job.date_format.as_str()) {
            runner.phase = Phase::Done;
            runner.job_error = Some(JobError::InvalidDateFormat);
            return (runner, Action::Finish);
        }
        let path = runner.current_dir.clone();
        (runner, Action::ListDir { path })
    }

    /// True once the run has finished and the report is complete.
    pub fn is_done(&self) -> (r: bool)
        ensures
            r == (self.phase is Done),
    {
        match self.phase {
            Phase::Done => true,
            _ => false,
        }
    }

    /// The completed run: the report, or the job-level error that aborted it
    /// before any file was touched.
    pub fn into_result(self) -> (r: Result<TransferReport, JobError>)
        requires
            self.wf(),
            self.phase is Done,
        ensures
            (r is Err) == (self.job_error is Some),
            r matches Err(e) ==> Some(e) == self.job_error,
            r matches Ok(rep) ==> rep == self.report && rep.wf(),
    {
        match self.job_error {
            Some(e) => Err(e),
            None => Ok(self.report),
        }
    }

    /// The action the runner is waiting on in its current phase.
    pub fn pending_action(&self) -> (a: Action)
        requires
            self.wf(),
        ensures
            expected_action(*self, a),
    {
        match self.phase {
            Phase::Walking => Action::ListDir { path: self.current_dir.clone() },
            Phase::Resolving => Action::StatFile { path: self.files[self.next_file].path.clone() },
            Phase::CreatingDir => Action::CreateDirAll { path: self.pending_dir.clone() },
            Phase::Transferring => self.transfer_action(),
            Phase::CopyFallback => Action::CopyFile {
                source: self.files[self.next_file].path.clone(),
                destination: self.pending_destination.clone(),
            },
            Phase::Cleanup => Action::RemoveSourceFile {
                path: self.files[self.next_file].path.clone(),
            },
            Phase::Done => Action::Finish,
        }
    }

    /// The copy or rename that transfers the current file, by the job's mode.
    fn transfer_action(&self) -> (a: Action)
        requires
            self.next_file < self.files@.len(),
        ensures
            (match self.job.mode {
                Mode::Copy => a matches Action::CopyFile { source, destination } && source@
                    == self.files@[self.next_file as int].path@ && destination@
                    == self.pending_destination@,
                Mode::Move => a matches Action::RenameFile { source, destination } && source@
                    == self.files@[self.next_file as int].path@ && destination@
                    == self.pending_destination@,
            }),
    {
        let source = self.files[self.next_file].path.clone();
        let destination = self.pending_destination.clone();
        match self.job.mode {
            Mode::Copy => Action::CopyFile { source, destination },
            Mode::Move => Action::RenameFile { source, destination },
        }
    }

    /// Whether a grouping directory of this name was already created during
    /// this job.
    fn group_created(&self, folder: &String) -> (r: bool)
        ensures
            r == group_present(self.created_groups@, folder@),
    {
        let n = self.created_groups.len();
        let mut k: usize = 0;
        while k < n
            invariant
                k <= n == self.created_groups@.len(),
                forall|i: int| 0 <= i < k ==> self.created_groups@[i]@ != folder@,
            decreases n - k,
        {
            if self.created_groups[k].eq(folder) {
                proof {
                    assert(self.created_groups@[k as int]@ == folder@);
                }
                return true;
            }
            k = k + 1;
        }
        false
    }

    /// Moves to the next unprocessed file, or finishes the run.
    fn begin_current_file(&mut self) -> (a: Action)
        requires
            old(self).core_inv(),
            old(self).job_error is None,
            old(self).dirs_pending@.len() == 0,
        ensures
            final(self).wf(),
            expected_action(*final(self), a),
            final(self).job == old(self).job,
            final(self).files == old(self).files,
            final(self).report == old(self).report,
            final(self).next_file == old(self).next_file,
            final(self).dirs_pending == old(self).dirs_pending,
            final(self).created_groups == old(self).created_groups,
            final(self).job_error == old(self).job_error,
            at_next_file(*final(self)),
    {
        if self.next_file == self.files.len() {
            self.phase = Phase::Done;
            Action::Finish
        } else if self.job.group_by_creation_date {
            self.phase = Phase::Resolving;
            Action::StatFile { path: self.files[self.next_file].path.clone() }
        } else {
            self.pending_destination = join_path(
                &self.job.destination_root,
                self.files[self.next_file].name.as_str(),
            );
            self.phase = Phase::Transferring;
            self.transfer_action()
        }
    }

    /// Records the outcome of the file being processed and moves on.
    fn advance_with_outcome(&mut self, kind: OutcomeKind) -> (a: Action)
        requires
            old(self).wf(),
            old(self).in_file_phase(),
        ensures
            final(self).wf(),
            expected_action(*final(self), a),
            finishes_file(*old(self), *final(self)),
            final(self).report.outcomes@.last().kind == kind,
    {
        let total = self.files.len();
        let path = self.files[self.next_file].path.clone();
        self.report.record(TransferOutcome { path, kind });
        proof {
            assert(self.next_file < total);
        }
        self.next_file = self.next_file + 1;
        proof {
            assert(self.report.outcomes@.drop_last() =~= old(self).report.outcomes@);
            assert forall|i: int| 0 <= i < self.next_file implies (#[trigger] self.report.outcomes@[
                self.report.outcomes@.len() - self.next_file + i
            ]).path@ == self.files@[i].path@ by {
                if i < self.next_file - 1 {
                    assert(self.report.outcomes@[self.report.outcomes@.len() - self.next_file + i]
                        == old(self).report.outcomes@[old(self).report.outcomes@.len() - old(self).next_file + i]);
                }
            }
        }
        self.begin_current_file()
    }

    /// Consumes one directory listing: discovers the regular files, queues
    /// the subdirectories when the job is recursive, and moves on.
    fn handle_dir_listed(&mut self, entries: Vec<DirEntry>) -> (a: Action)
        requires
            old(self).wf(),
            old(self).phase is Walking,
        ensures
            final(self).wf(),
            expected_action(*final(self), a),
            listed_dir(*old(self), *final(self), entries@),
    {
        let ghost pre_files = self.files@;
        let ghost pre_dirs = self.dirs_pending@;
        let ghost dirv = self.current_dir@;
        let n = entries.len();
        let mut k: usize = 0;
        while k < n
            invariant
                k <= n == entries@.len(),
                self.job == old(self).job,
                self.phase == old(self).phase,
                self.report == old(self).report,
                self.next_file == old(self).next_file,
                self.created_groups == old(self).created_groups,
                self.job_error == old(self).job_error,
                self.current_dir == old(self).current_dir,
                self.pending_group == old(self).pending_group,
                self.pending_dir == old(self).pending_dir,
                self.pending_destination == old(self).pending_destination,
                old(self).wf(),
                old(self).phase is Walking,
                dirv == old(self).current_dir@,
                pre_files == old(self).files@,
                pre_dirs == old(self).dirs_pending@,
                pre_files.len() <= self.files@.len(),
                forall|i: int| 0 <= i < pre_files.len() ==> self.files@[i] == pre_files[i],
                forall|i: int|
                    pre_files.len() <= i < self.files@.len() ==> (#[trigger] self.files@[i]).path@
                        == join_spec(dirv, self.files@[i].name@),
                names_of(self.files@) == names_of(pre_files) + file_names(entries@.take(k as int)),
                paths_of(self.files@) == paths_of(pre_files) + file_paths(
                    dirv,
                    entries@.take(k as int),
                ),
                self.job.recursive ==> string_views(self.dirs_pending@) == string_views(pre_dirs)
                    + subdir_paths(dirv, entries@.take(k as int)),
                !self.job.recursive ==> self.dirs_pending@.len() == 0,
            decreases n - k,
        {
            proof {
                lemma_scan_step(dirv, entries@, k as int);
                assert(entries@.take(k as int + 1).drop_last() =~= entries@.take(k as int));
            }
            let ghost fs0 = self.files@;
            let ghost ds0 = self.dirs_pending@;
            let entry = &entries[k];
            match entry.kind {
                EntryKind::File => {
                    let name = entry.name.clone();
                    let path = join_path(&self.current_dir, name.as_str());
                    self.files.push(FileEntry { path, name });
                    proof {
                        assert(names_of(self.files@) =~= names_of(fs0).push(
                            entries@[k as int].name@,
                        ));
                        assert(paths_of(self.files@) =~= paths_of(fs0).push(
                            join_spec(dirv, entries@[k as int].name@),
                        ));
                        assert(names_of(self.files@) =~= names_of(pre_files) + file_names(
                            entries@.take(k as int + 1),
                        ));
                        assert(paths_of(self.files@) =~= paths_of(pre_files) + file_paths(
                            dirv,
                            entries@.take(k as int + 1),
                        ));
                    }
                },
                EntryKind::Dir => {
                    if self.job.recursive {
                        let path = join_path(&self.current_dir, entry.name.as_str());
                        self.dirs_pending.push(path);
                        proof {
                            assert(string_views(self.dirs_pending@) =~= string_views(ds0).push(
                                join_spec(dirv, entries@[k as int].name@),
                            ));
                            assert(string_views(self.dirs_pending@) =~= string_views(pre_dirs)
                                + subdir_paths(dirv, entries@.take(k as int + 1)));
                        }
                    }
                },
                EntryKind::SymlinkDir => {},
                EntryKind::Other => {},
            }
            proof {
                if !(entries@[k as int].kind is File) {
                    assert(names_of(self.files@) =~= names_of(pre_files) + file_names(
                        entries@.take(k as int + 1),
                    ));
                    assert(paths_of(self.files@) =~= paths_of(pre_files) + file_paths(
                        dirv,
                        entries@.take(k as int + 1),
                    ));
                }
                if self.job.recursive && !(entries@[k as int].kind is Dir) {
                    assert(string_views(self.dirs_pending@) =~= string_views(pre_dirs)
                        + subdir_paths(dirv, entries@.take(k as int + 1)));
                }
            }
            k = k + 1;
        }
        proof {
            assert(entries@.take(n as int) =~= entries@);
            if !self.job.recursive {
                assert forall|i: int| 0 <= i < self.files@.len() implies (
                #[trigger] self.files@[i]).path@ == join_spec(
                    self.job.source_root@,
                    self.files@[i].name@,
                ) by {
                    if i < pre_files.len() {
                        assert(self.files@[i] == pre_files[i]);
                        assert((old(self).files@[i]).path@ == join_spec(
                            old(self).job.source_root@,
                            old(self).files@[i].name@,
                        ));
                    } else {
                        assert(self.files@[i].path@ == join_spec(dirv, self.files@[i].name@));
                        assert(dirv == self.job.source_root@);
                    }
                }
            }
        }
        let popped = self.dirs_pending.pop();
        match popped {
            Some(d) => {
                self.current_dir = d;
                proof {
                    let ghost mid = string_views(pre_dirs) + subdir_paths(dirv, entries@);
                    assert(string_views(self.dirs_pending@) =~= mid.drop_last());
                }
                Action::ListDir { path: self.current_dir.clone() }
            },
            None => self.begin_current_file(),
        }
    }

    /// Consumes the failure of one directory listing: the directory gets its
    /// own failed outcome and the walk goes on with its siblings.
    fn handle_dir_list_failed(&mut self, reason: String) -> (a: Action)
        requires
            old(self).wf(),
            old(self).phase is Walking,
        ensures
            final(self).wf(),
            expected_action(*final(self), a),
            walk_dir_failed(*old(self), *final(self), reason@),
    {
        let path = self.current_dir.clone();
        self.report.record(
            TransferOutcome {
                path,
                kind: OutcomeKind::Failed {
                    reason,
                    stage: FailureStage::Stat,
                    destination_written: false,
                },
            },
        );
        proof {
            assert(self.report.outcomes@.drop_last() =~= old(self).report.outcomes@);
        }
        let popped = self.dirs_pending.pop();
        match popped {
            Some(d) => {
                self.current_dir = d;
                proof {
                    assert(string_views(self.dirs_pending@) =~= string_views(
                        old(self).dirs_pending@,
                    ).drop_last());
                }
                Action::ListDir { path: self.current_dir.clone() }
            },
            None => self.begin_current_file(),
        }
    }

    /// Consumes the creation timestamp of the file being processed: formats
    /// it into the grouping directory name and resolves the destination.
    fn handle_stat_ok(&mut self, secs: i64) -> (a: Action)
        requires
            old(self).wf(),
            old(self).phase is Resolving,
        ensures
            final(self).wf(),
            expected_action(*final(self), a),
            resolved_with_folder(
                *old(self),
                *final(self),
                formatted_date(secs as int, old(self).job.date_format@),
            ) || (finishes_file(*old(self), *final(self)) && failed_stage(
                final(self).report.outcomes@.last().kind,
                FailureStage::Stat,
                false,
            )),
            date_format_ok(old(self).job.date_format@) && common_era_secs(secs as int)
                ==> resolved_with_folder(
                *old(self),
                *final(self),
                formatted_date(secs as int, old(self).job.date_format@),
            ),
    {
        let folder_opt = format_utc_timestamp(secs, self.job.date_format.as_str());
        match folder_opt {
            None => self.advance_with_outcome(
                OutcomeKind::Failed {
                    reason: String::from_str("creation time not representable in the date format"),
                    stage: FailureStage::Stat,
                    destination_written: false,
                },
            ),
            Some(folder) => {
                let dir = join_path(&self.job.destination_root, folder.as_str());
                let dest = join_path(&dir, self.files[self.next_file].name.as_str());
                self.pending_destination = dest;
                if self.group_created(&folder) {
                    self.phase = Phase::Transferring;
                    self.transfer_action()
                } else {
                    self.pending_dir = dir;
                    self.pending_group = folder;
                    self.phase = Phase::CreatingDir;
                    Action::CreateDirAll { path: self.pending_dir.clone() }
                }
            },
        }
    }

    /// Feeds back the result of the last action and returns the next one.
    /// An event that cannot belong to the current phase leaves the runner
    /// unchanged and returns the awaited action again.
    pub fn step(&mut self, event: Event) -> (a: Action)
        requires
            old(self).wf(),
        ensures
            final(self).wf(),
            final(self).job == old(self).job,
            expected_action(*final(self), a),
            old(self).next_file <= final(self).next_file,
            // With recursion off, nothing but the source root is ever listed.
            !old(self).job.recursive ==> (a matches Action::ListDir { path: p } ==> p@ == old(self).job.source_root@),
            // In copy mode the runner never asks to rename or remove anything,
            // so the sources are left untouched.
            old(self).job.mode is Copy ==> !(a is RenameFile) && !(a is RemoveSourceFile),
            // A source file is removed only while its destination copy is in
            // place.
            a is RemoveSourceFile ==> old(self).job.mode is Move && final(self).phase is Cleanup,
            // A grouping directory is created at most once per distinct name.
            a is CreateDirAll ==> final(self).phase is CreatingDir
                && !group_present(final(self).created_groups@, final(self).pending_group@),
            !event_expected(*old(self), event) ==> *final(self) == *old(self),
            old(self).phase is Walking ==> (event matches Event::DirListed { entries }
                ==> listed_dir(*old(self), *final(self), entries@)),
            old(self).phase is Walking ==> (event matches Event::DirListFailed { reason }
                ==> walk_dir_failed(*old(self), *final(self), reason@)),
            old(self).phase is Resolving ==> (event matches Event::StatOk { created_secs } ==> ({
                ||| resolved_with_folder(
                    *old(self),
                    *final(self),
                    formatted_date(created_secs as int, old(self).job.date_format@),
                )
                ||| (finishes_file(*old(self), *final(self)) && failed_stage(
                    final(self).report.outcomes@.last().kind,
                    FailureStage::Stat,
                    false,
                ))
            }) && (date_format_ok(old(self).job.date_format@) && common_era_secs(
                created_secs as int,
            ) ==> resolved_with_folder(
                *old(self),
                *final(self),
                formatted_date(created_secs as int, old(self).job.date_format@),
            ))),
            old(self).phase is Resolving ==> (event matches Event::StatFailed { reason } ==> (
            finishes_file(*old(self), *final(self)) && failed_kind(
                final(self).report.outcomes@.last().kind,
                FailureStage::Stat,
                reason@,
                false,
            ))),
            (old(self).phase is CreatingDir && event is DirCreated) ==> ({
                &&& final(self).phase is Transferring
                &&& final(self).report == old(self).report
                &&& final(self).files == old(self).files
                &&& final(self).next_file == old(self).next_file
                &&& final(self).pending_destination == old(self).pending_destination
                &&& final(self).created_groups@ == old(self).created_groups@.push(
                    old(self).pending_group,
                )
            }),
            old(self).phase is CreatingDir ==> (event matches Event::DirCreateFailed { reason }
                ==> (finishes_file(*old(self), *final(self)) && failed_kind(
                final(self).report.outcomes@.last().kind,
                FailureStage::DirectoryCreate,
                reason@,
                false,
            ))),
            (old(self).phase is Transferring && ((old(self).job.mode is Copy && event is CopyOk)
                || (old(self).job.mode is Move && event is RenameOk))) ==> (finishes_file(
                *old(self),
                *final(self),
            ) && final(self).report.outcomes@.last().kind is Succeeded),
            (old(self).phase is Transferring && old(self).job.mode is Copy) ==> (
            event matches Event::CopyFailed { reason } ==> (finishes_file(
                *old(self),
                *final(self),
            ) && failed_kind(
                final(self).report.outcomes@.last().kind,
                FailureStage::Transfer,
                reason@,
                false,
            ))),
            (old(self).phase is Transferring && old(self).job.mode is Move
                && event is RenameFailed) ==> (same_but_phase(*old(self), *final(self)) && final(self).phase is CopyFallback),
            (old(self).phase is CopyFallback && event is CopyOk) ==> (same_but_phase(
                *old(self),
                *final(self),
            ) && final(self).phase is Cleanup),
            old(self).phase is CopyFallback ==> (event matches Event::CopyFailed { reason } ==> (
            finishes_file(*old(self), *final(self)) && failed_kind(
                final(self).report.outcomes@.last().kind,
                FailureStage::Transfer,
                reason@,
                false,
            ))),
            (old(self).phase is Cleanup && event is RemoveOk) ==> (finishes_file(
                *old(self),
                *final(self),
            ) && final(self).report.outcomes@.last().kind is Succeeded),
            old(self).phase is Cleanup ==> (event matches Event::RemoveFailed { reason } ==> (
            finishes_file(*old(self), *final(self)) && failed_kind(
                final(self).report.outcomes@.last().kind,
                FailureStage::SourceCleanup,
                reason@,
                true,
            ))),
    {
        match self.phase {
            Phase::Walking => match event {
                Event::DirListed { entries } => self.handle_dir_listed(entries),
                Event::DirListFailed { reason } => self.handle_dir_list_failed(reason),
                _ => self.pending_action(),
            },
            Phase::Resolving => match event {
                Event::StatOk { created_secs } => self.handle_stat_ok(created_secs),
                Event::StatFailed { reason } => self.advance_with_outcome(
                    OutcomeKind::Failed {
                        reason,
                        stage: FailureStage::Stat,
                        destination_written: false,
                    },
                ),
                _ => self.pending_action(),
            },
            Phase::CreatingDir => match event {
                Event::DirCreated => {
                    let g = self.pending_group.clone();
                    self.created_groups.push(g);
                    proof {
                        assert forall|i: int, j: int|
                            0 <= i < j < self.created_groups@.len() implies (
                        #[trigger] self.created_groups@[i])@ != (#[trigger] self.created_groups@[
                            j
                        ])@ by {
                            if j == self.created_groups@.len() - 1 {
                                assert(!group_present(
                                    old(self).created_groups@,
                                    old(self).pending_group@,
                                ));
                                assert(old(self).created_groups@[i]@ != old(self).pending_group@);
                            }
                        }
                    }
                    self.phase = Phase::Transferring;
                    self.transfer_action()
                },
                Event::DirCreateFailed { reason } => self.advance_with_outcome(
                    OutcomeKind::Failed {
                        reason,
                        stage: FailureStage::DirectoryCreate,
                        destination_written: false,
                    },
                ),
                _ => self.pending_action(),
            },
            Phase::Transferring => match self.job.mode {
                Mode::Copy => match event {
                    Event::CopyOk => self.advance_with_outcome(OutcomeKind::Succeeded),
                    Event::CopyFailed { reason } => self.advance_with_outcome(
                        OutcomeKind::Failed {
                            reason,
                            stage: FailureStage::Transfer,
                            destination_written: false,
                        },
                    ),
                    _ => self.pending_action(),
                },
                Mode::Move => match event {
                    Event::RenameOk => self.advance_with_outcome(OutcomeKind::Succeeded),
                    Event::RenameFailed { .. } => {
                        self.phase = Phase::CopyFallback;
                        Action::CopyFile {
                            source: self.files[self.next_file].path.clone(),
                            destination: self.pending_destination.clone(),
                        }
                    },
                    _ => self.pending_action(),
                },
            },
            Phase::CopyFallback => match event {
                Event::CopyOk => {
                    self.phase = Phase::Cleanup;
                    Action::RemoveSourceFile { path: self.files[self.next_file].path.clone() }
                },
                Event::CopyFailed { reason } => self.advance_with_outcome(
                    OutcomeKind::Failed {
                        reason,
                        stage: FailureStage::Transfer,
                        destination_written: false,
                    },
                ),
                _ => self.pending_action(),
            },
            Phase::Cleanup => match event {
                Event::RemoveOk => self.advance_with_outcome(OutcomeKind::Succeeded),
                Event::RemoveFailed { reason } => self.advance_with_outcome(
                    OutcomeKind::Failed {
                        reason,
                        stage: FailureStage::SourceCleanup,
                        destination_written: true,
                    },
                ),
                _ => self.pending_action(),
            },
            Phase::Done => Action::Finish,
        }
    }
}

/// Unfolds the three listing scans by one entry.
proof fn lemma_scan_step(dir: Seq<char>, entries: Seq<DirEntry>, k: int)
    requires
        0 <= k < entries.len(),
    ensures
        file_names(entries.take(k + 1)) == file_names(entries.take(k)) + (
        if entries[k].kind is File {
            seq![entries[k].name@]
        } else {
            Seq::<Seq<char>>::empty()
        }),
        file_paths(dir, entries.take(k + 1)) == file_paths(dir, entries.take(k)) + (
        if entries[k].kind is File {
            seq![join_spec(dir, entries[k].name@)]
        } else {
            Seq::<Seq<char>>::empty()
        }),
        subdir_paths(dir, entries.take(k + 1)) == subdir_paths(dir, entries.take(k)) + (
        if entries[k].kind is Dir {
            seq![join_spec(dir, entries[k].name@)]
        } else {
            Seq::<Seq<char>>::empty()
        }),
{
    assert(entries.take(k + 1).drop_last() =~= entries.take(k));
    assert(entries.take(k + 1).last() == entries[k]);
}

/// Law: no file is silently dropped. When a run finished without a job-level
/// error, the report holds exactly one outcome for every discovered file, in
/// discovery order, after the outcomes of the unlistable directories.
pub proof fn lemma_report_covers_all_files(s: TransferRunner)
    requires
        s.wf(),
        s.phase is Done,
        s.job_error is None,
    ensures
        s.files@.len() <= s.report.outcomes@.len(),
        forall|i: int|
            0 <= i < s.files@.len() ==> (#[trigger] s.report.outcomes@[s.report.outcomes@.len()
                - s.files@.len() + i]).path@ == s.files@[i].path@,
{
}

/// Law: a job-level precondition failure aborts the run before any file is
/// touched — nothing was discovered and the report is empty.
pub proof fn lemma_precondition_failure_is_empty(s: TransferRunner)
    requires
        s.wf(),
        s.job_error is Some,
    ensures
        s.phase is Done,
        s.report.outcomes@.len() == 0,
        s.files@.len() == 0,
{
}

} // verus!
