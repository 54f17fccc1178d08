//! The steps of saving one commit to its diary file.
//!
//! A save checks whether the diary file exists; when it does not, it creates the parent
//! directories and writes the skeleton; then it appends the row. The library decides
//! each step; the caller performs the file operation that a step names and reports how
//! it went.

use vstd::prelude::*;

use crate::datetime::{utc_formatted, within_common_era};
use crate::path::parent_of;
use crate::vim_commit::{
    diary_path_result, get_parent_from_full_path, row_spec, skeleton_spec, tags_spec,
    CommitSaver, DiaryError,
};

verus! {

/// Where a save stands.
#[derive(Debug)]
pub enum SavePhase {
    /// Waiting to learn whether the diary file exists.
    Checking,
    /// The file is absent; waiting for its parent directories to be created.
    CreatingDirs,
    /// Waiting for the skeleton to be written.
    WritingSkeleton,
    /// Waiting for the row to be appended.
    Appending,
    /// The row was appended.
    Finished,
    /// The save stopped on this error.
    Failed(DiaryError),
}

/// What happened to the last file operation.
#[derive(Debug)]
pub enum SaveEvent {
    /// The diary file exists.
    Present,
    /// The diary file does not exist.
    Absent,
    /// The parent directories exist now.
    DirsCreated,
    /// The skeleton was written.
    SkeletonWritten,
    /// The row was appended and flushed.
    RowAppended,
    /// The operation failed; the text says how.
    IoFailed(String),
}

/// The file operation to perform next.
#[derive(Debug)]
pub enum SaveAction {
    /// Find out whether a file exists at this path.
    CheckExists(String),
    /// Create this directory and its missing ancestors.
    CreateDirs(String),
    /// Write the whole file at the path (first) with the text (second).
    WriteSkeleton(String, String),
    /// Append the row (second) to the file at the path (first).
    AppendRow(String, String),
    /// Nothing is left to do.
    Done,
    /// The save failed with this error.
    Fail(DiaryError),
}

/// One save of one commit: its diary path, the texts it may write, and where it stands.
#[derive(Debug)]
pub struct CommitSave {
    pub path: String,
    pub skeleton: String,
    pub row: String,
    pub phase: SavePhase,
}

impl DiaryError {
    /// A copy of this error.
    pub fn duplicate(&self) -> (r: DiaryError)
        ensures
            r == *self,
    {
        match self {
            DiaryError::PathMissing => DiaryError::PathMissing,
            DiaryError::NoParentDirectory => DiaryError::NoParentDirectory,
            DiaryError::PathFormat => DiaryError::PathFormat,
            DiaryError::Io { message } => DiaryError::Io { message: message.clone() },
        }
    }
}

/// The phase that follows `phase` on `event`, for a save of the diary at `path`. A failed
/// operation ends the save; an event that does not answer the pending operation leaves
/// the phase as it is.
pub open spec fn next_phase(path: Seq<char>, phase: SavePhase, event: SaveEvent) -> SavePhase {
    match phase {
        SavePhase::Finished => phase,
        SavePhase::Failed(_) => phase,
        _ => match event {
            SaveEvent::IoFailed(message) => SavePhase::Failed(DiaryError::Io { message }),
            SaveEvent::Present => if phase is Checking {
                SavePhase::Appending
            } else {
                phase
            },
            SaveEvent::Absent => if phase is Checking {
                if parent_of(path) is Some {
                    SavePhase::CreatingDirs
                } else {
                    SavePhase::Failed(DiaryError::NoParentDirectory)
                }
            } else {
                phase
            },
            SaveEvent::DirsCreated => if phase is CreatingDirs {
                SavePhase::WritingSkeleton
            } else {
                phase
            },
            SaveEvent::SkeletonWritten => if phase is WritingSkeleton {
                SavePhase::Appending
            } else {
                phase
            },
            SaveEvent::RowAppended => if phase is Appending {
                SavePhase::Finished
            } else {
                phase
            },
        },
    }
}

/// The save after `event`.
pub open spec fn step_spec(s: CommitSave, event: SaveEvent) -> CommitSave {
    CommitSave { phase: next_phase(s.path@, s.phase, event), ..s }
}

/// `a` is the operation that the save `s` waits for.
pub open spec fn is_pending_action(s: CommitSave, a: SaveAction) -> bool {
    match s.phase {
        SavePhase::Checking => a is CheckExists && a->CheckExists_0@ == s.path@,
        SavePhase::CreatingDirs => a is CreateDirs && parent_of(s.path@) == Some(
            a->CreateDirs_0@,
        ),
        SavePhase::WritingSkeleton => a is WriteSkeleton && a->WriteSkeleton_0@ == s.path@
            && a->WriteSkeleton_1@ == s.skeleton@,
        SavePhase::Appending => a is AppendRow && a->AppendRow_0@ == s.path@ && a->AppendRow_1@
            == s.row@,
        SavePhase::Finished => a is Done,
        SavePhase::Failed(e) => a is Fail && a->Fail_0 == e,
    }
}

impl CommitSave {
    /// The save stands in a phase it can reach: it creates directories only for a path
    /// that has a parent.
    pub open spec fn wf(&self) -> bool {
        self.phase is CreatingDirs ==> parent_of(self.path@) is Some
    }

    /// Starts the save of `record` under the vault at `vault_root`, its diaries in
    /// `commit_subpath` and named by `date_template`, for a program run from
    /// `working_directory`. Fails when the commit time cannot be rendered; it can be for
    /// any commit of the years 1 to 9999 whose date template renders.
    pub fn new(
        record: &CommitSaver,
        vault_root: &str,
        commit_subpath: &str,
        date_template: &str,
        working_directory: &str,
    ) -> (r: Result<CommitSave, DiaryError>)
        ensures
            match (
                diary_path_result(vault_root@, commit_subpath@, date_template@, record.commit_datetime),
                utc_formatted(record.commit_datetime, "%V"@),
                utc_formatted(record.commit_datetime, "%A"@),
                utc_formatted(record.commit_datetime, "%Y-%m-%d"@),
                utc_formatted(record.commit_datetime, "%H:%M:%S"@),
            ) {
                (Some(p), Some(w), Some(d), Some(date), Some(t)) => r is Ok && r->Ok_0.wf() && r->Ok_0.phase is Checking
                    && r->Ok_0.path@ == p && r->Ok_0.skeleton@ == skeleton_spec(tags_spec(w, d), date)
                    && r->Ok_0.row@ == row_spec(
                    working_directory@,
                    t,
                    record.commit_msg@,
                    record.repository_url@,
                    record.commit_branch_name@,
                    record.commit_hash@,
                ),
                _ => r is Err && r->Err_0 is PathFormat,
            },
            within_common_era(record.commit_datetime) && utc_formatted(
                record.commit_datetime,
                date_template@,
            ) is Some ==> r is Ok,
    {
        let path = match record.compute_diary_path(vault_root, commit_subpath, date_template) {
            Ok(p) => p,
            Err(e) => {
                return Err(e);
            },
        };
        let skeleton = match record.render_new_diary() {
            Some(s) => s,
            None => {
                return Err(DiaryError::PathFormat);
            },
        };
        let row = match record.prepare_commit_entry_as_string(working_directory) {
            Some(r) => r,
            None => {
                return Err(DiaryError::PathFormat);
            },
        };
        Ok(CommitSave { path, skeleton, row, phase: SavePhase::Checking })
    }

    /// The file operation that the save waits for.
    pub fn next_action(&self) -> (a: SaveAction)
        requires
            self.wf(),
        ensures
            is_pending_action(*self, a),
    {
        match &self.phase {
            SavePhase::Checking => SaveAction::CheckExists(self.path.clone()),
            SavePhase::CreatingDirs => match get_parent_from_full_path(self.path.as_str()) {
                Ok(dir) => SaveAction::CreateDirs(dir),
                Err(e) => SaveAction::Fail(e),
            },
            SavePhase::WritingSkeleton => SaveAction::WriteSkeleton(
                self.path.clone(),
                self.skeleton.clone(),
            ),
            SavePhase::Appending => SaveAction::AppendRow(self.path.clone(), self.row.clone()),
            SavePhase::Finished => SaveAction::Done,
            SavePhase::Failed(e) => SaveAction::Fail(e.duplicate()),
        }
    }
}

/// Runs the save one step: takes the outcome of the pending file operation, moves the
/// save on, and returns the operation to perform next.
pub fn run_commit_saver(save: &mut CommitSave, event: SaveEvent) -> (a: SaveAction)
    requires
        old(save).wf(),
    ensures
        *final(save) == step_spec(*old(save), event),
        final(save).wf(),
        is_pending_action(*final(save), a),
{
    let next = match (&save.phase, event) {
        (SavePhase::Finished, _) => SavePhase::Finished,
        (SavePhase::Failed(e), _) => SavePhase::Failed(e.duplicate()),
        (_, SaveEvent::IoFailed(message)) => SavePhase::Failed(DiaryError::Io { message }),
        (SavePhase::Checking, SaveEvent::Present) => SavePhase::Appending,
        (SavePhase::Checking, SaveEvent::Absent) => match get_parent_from_full_path(
            save.path.as_str(),
        ) {
            Ok(_) => SavePhase::CreatingDirs,
            Err(_) => SavePhase::Failed(DiaryError::NoParentDirectory),
        },
        (SavePhase::CreatingDirs, SaveEvent::DirsCreated) => SavePhase::WritingSkeleton,
        (SavePhase::WritingSkeleton, SaveEvent::SkeletonWritten) => SavePhase::Appending,
        (SavePhase::Appending, SaveEvent::RowAppended) => SavePhase::Finished,
        (SavePhase::Checking, _) => SavePhase::Checking,
        (SavePhase::CreatingDirs, _) => SavePhase::CreatingDirs,
        (SavePhase::WritingSkeleton, _) => SavePhase::WritingSkeleton,
        (SavePhase::Appending, _) => SavePhase::Appending,
    };
    save.phase = next;
    save.next_action()
}


/// The diary file after the pending operation of `s` succeeds, where `file` is its text
/// before (`None`: absent).
pub open spec fn effect(s: CommitSave, file: Option<Seq<char>>) -> Option<Seq<char>> {
    match s.phase {
        SavePhase::WritingSkeleton => Some(s.skeleton@),
        SavePhase::Appending => match file {
            Some(f) => Some(f + s.row@),
            None => None,
        },
        _ => file,
    }
}

/// The diary file after the operation `a` succeeds, where `file` is its text before.
pub open spec fn performed(file: Option<Seq<char>>, a: SaveAction) -> Option<Seq<char>> {
    match a {
        SaveAction::WriteSkeleton(_, content) => Some(content@),
        SaveAction::AppendRow(_, row) => match file {
            Some(f) => Some(f + row@),
            None => None,
        },
        _ => file,
    }
}

/// Performing the operation that a save waits for changes the diary file as `effect` says.
pub proof fn lemma_pending_action_effect(s: CommitSave, a: SaveAction, file: Option<Seq<char>>)
    requires
        is_pending_action(s, a),
    ensures
        performed(file, a) == effect(s, file),
{
}

/// The report of a successful pending operation of `s`, where `file` is the diary file's
/// text before it.
pub open spec fn answer(s: CommitSave, file: Option<Seq<char>>) -> SaveEvent {
    match s.phase {
        SavePhase::Checking => if file is Some {
            SaveEvent::Present
        } else {
            SaveEvent::Absent
        },
        SavePhase::CreatingDirs => SaveEvent::DirsCreated,
        SavePhase::WritingSkeleton => SaveEvent::SkeletonWritten,
        _ => SaveEvent::RowAppended,
    }
}

/// The save and the diary file after at most `fuel` operations, each performed
/// successfully and reported with `run_commit_saver`'s step.
pub open spec fn run_spec(s: CommitSave, file: Option<Seq<char>>, fuel: nat) -> (
    CommitSave,
    Option<Seq<char>>,
)
    decreases fuel,
{
    if fuel == 0 || s.phase is Finished || s.phase is Failed {
        (s, file)
    } else {
        run_spec(step_spec(s, answer(s, file)), effect(s, file), (fuel - 1) as nat)
    }
}

/// The number of operations that a save performs at most.
pub open spec fn save_steps() -> nat {
    4
}

/// A save of a commit whose diary file exists appends the row and changes nothing else.
pub proof fn lemma_save_appends_to_existing(s: CommitSave, file: Seq<char>)
    requires
        s.phase is Checking,
    ensures
        run_spec(s, Some(file), save_steps()).0.phase is Finished,
        run_spec(s, Some(file), save_steps()).1 == Some(file + s.row@),
{
    let s1 = step_spec(s, SaveEvent::Present);
    assert(s1.phase is Appending);
    let s2 = step_spec(s1, SaveEvent::RowAppended);
    assert(s2.phase is Finished);
    assert(run_spec(s2, Some(file + s.row@), 2) == (s2, Some(file + s.row@)));
    assert(run_spec(s1, Some(file), 3) == run_spec(s2, Some(file + s.row@), 2));
}

/// A save of a commit whose diary file is absent writes the skeleton, then the row.
pub proof fn lemma_save_creates_missing(s: CommitSave)
    requires
        s.phase is Checking,
        parent_of(s.path@) is Some,
    ensures
        run_spec(s, None, save_steps()).0.phase is Finished,
        run_spec(s, None, save_steps()).1 == Some(s.skeleton@ + s.row@),
{
    let s1 = step_spec(s, SaveEvent::Absent);
    assert(s1.phase is CreatingDirs);
    let s2 = step_spec(s1, SaveEvent::DirsCreated);
    assert(s2.phase is WritingSkeleton);
    let s3 = step_spec(s2, SaveEvent::SkeletonWritten);
    assert(s3.phase is Appending);
    let s4 = step_spec(s3, SaveEvent::RowAppended);
    assert(s4.phase is Finished);
    let done = Some(s.skeleton@ + s.row@);
    assert(run_spec(s4, done, 0) == (s4, done));
    assert(run_spec(s3, Some(s.skeleton@), 1) == run_spec(s4, done, 0));
    assert(run_spec(s2, None, 2) == run_spec(s3, Some(s.skeleton@), 1));
    assert(run_spec(s1, None, 3) == run_spec(s2, None, 2));
}

/// Two saves to the same diary path, starting with no file there, leave the skeleton of
/// the first once, then the row of the first, then the row of the second.
pub proof fn lemma_two_saves_initialize_once(first: CommitSave, second: CommitSave)
    requires
        first.phase is Checking,
        second.phase is Checking,
        first.path@ == second.path@,
        parent_of(first.path@) is Some,
    ensures
        run_spec(first, None, save_steps()).0.phase is Finished,
        run_spec(second, run_spec(first, None, save_steps()).1, save_steps()).0.phase is Finished,
        run_spec(second, run_spec(first, None, save_steps()).1, save_steps()).1 == Some(
            first.skeleton@ + first.row@ + second.row@,
        ),
{
    lemma_save_creates_missing(first);
    lemma_save_appends_to_existing(second, first.skeleton@ + first.row@);
}

} // verus!
