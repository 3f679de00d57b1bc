//! The rollback-capable replacement of one path by a link.
//!
//! Replacing `target` by a link to `source` is a two-phase commit over the
//! filesystem's non-transactional rename and link primitives: rename the
//! target aside to a backup, create the link, then either discard the
//! backup (success) or rename it back (link failure).  The protocol is an
//! explicit state machine; the caller performs each filesystem action it
//! asks for and reports whether the action succeeded, so every transition
//! — failure paths included — can be driven deterministically.
//!
//! A ghost model of the two touched paths shows the protocol safe: as long
//! as no outside process interferes, the target's original content survives
//! at the target or the backup path in every state unless the target has
//! already become the link.

use vstd::prelude::*;
use vstd::string::StringExecFns;
use crate::policy::LinkKind;

verus! {

/// The distinguishing suffix of the transient backup name.
pub open spec fn backup_suffix() -> Seq<char> {
    ".rdup"@
}

/// The backup path for a target: the target's own name with the
/// distinguishing suffix appended, so the backup stays in the target's
/// directory.
pub fn backup_path_for(target: &str) -> (r: String)
    ensures
        r@ == target@ + backup_suffix(),
{
    let mut b = target.to_owned();
    b.append(".rdup");
    b
}

/// Where the protocol for one target stands.
#[derive(Clone, Copy, PartialEq, Eq, Structural, Debug)]
pub enum ReplaceState {
    /// Nothing done yet; the target is untouched.
    Original,
    /// The rename of the target to its backup was attempted (best-effort:
    /// the protocol goes on whether or not it succeeded).
    BackedUp,
    /// The link was created; the backup is to be discarded (best-effort:
    /// a stray backup is undesirable but not destructive).
    CleaningUp,
    /// The link could not be created; the backup is to be renamed back.
    Restoring,
    /// Terminal: the target is now a link to the source.
    Linked,
    /// Terminal: the link failed and the target was restored; the failure
    /// is reported and the run continues.
    RestoredOriginal,
    /// Terminal: the link failed and restoring the backup failed too; the
    /// target may be gone — true data loss, to be reported loudly.
    Lost,
}

/// One filesystem action the caller must perform on the protocol's behalf.
#[derive(Clone, Copy, PartialEq, Eq, Structural, Debug)]
pub enum FsAction {
    /// Rename the target to the backup path.
    RenameTargetToBackup,
    /// Create a link of the chosen kind at the target path, pointing at
    /// the source.
    CreateLink,
    /// Delete the backup file.
    RemoveBackup,
    /// Rename the backup path back to the target.
    RestoreBackup,
}

/// The action owed in a state; terminal states owe none.
pub open spec fn action_for(s: ReplaceState) -> Option<FsAction> {
    match s {
        ReplaceState::Original => Some(FsAction::RenameTargetToBackup),
        ReplaceState::BackedUp => Some(FsAction::CreateLink),
        ReplaceState::CleaningUp => Some(FsAction::RemoveBackup),
        ReplaceState::Restoring => Some(FsAction::RestoreBackup),
        ReplaceState::Linked => None,
        ReplaceState::RestoredOriginal => None,
        ReplaceState::Lost => None,
    }
}

/// A state with no action left to perform.
pub open spec fn is_terminal(s: ReplaceState) -> bool {
    action_for(s) is None
}

/// The next state once the owed action was attempted with the given
/// outcome.  The initial backup rename and the backup removal are
/// best-effort: their outcome does not branch.
pub open spec fn step(s: ReplaceState, ok: bool) -> ReplaceState {
    match s {
        ReplaceState::Original => ReplaceState::BackedUp,
        ReplaceState::BackedUp => if ok {
            ReplaceState::CleaningUp
        } else {
            ReplaceState::Restoring
        },
        ReplaceState::CleaningUp => ReplaceState::Linked,
        ReplaceState::Restoring => if ok {
            ReplaceState::RestoredOriginal
        } else {
            ReplaceState::Lost
        },
        _ => s,
    }
}

/// How one terminal state is reported.
#[derive(Clone, Copy, PartialEq, Eq, Structural, Debug)]
pub enum ReplaceError {
    /// The link could not be created; the original was restored.
    /// Non-fatal: the run continues with the remaining files.
    LinkCreation,
    /// Restoring the backup failed after a failed link: the target may be
    /// missing.  Higher severity — never to be swallowed.
    BackupRestore,
}

/// The error owed in a terminal state: none when the target became the
/// link, one of the two taxonomy entries otherwise.
pub open spec fn error_for(s: ReplaceState) -> Option<ReplaceError> {
    match s {
        ReplaceState::RestoredOriginal => Some(ReplaceError::LinkCreation),
        ReplaceState::Lost => Some(ReplaceError::BackupRestore),
        _ => None,
    }
}

/// The replacement protocol for one (source, target) pair.
///
/// The caller asks `next_action` what to do, performs it, and reports the
/// outcome through `on_outcome`, until the state is terminal.
pub struct SafeReplace {
    source: String,
    target: String,
    backup: String,
    kind: LinkKind,
    state: ReplaceState,
}

impl SafeReplace {
    /// The canonical source path the link will point at.
    pub closed spec fn src(&self) -> Seq<char> {
        self.source@
    }

    /// The redundant path being replaced.
    pub closed spec fn tgt(&self) -> Seq<char> {
        self.target@
    }

    /// The transient backup path.
    pub closed spec fn bak(&self) -> Seq<char> {
        self.backup@
    }

    /// The kind of link being created.
    pub closed spec fn link_kind(&self) -> LinkKind {
        self.kind
    }

    /// Where the protocol stands.
    pub closed spec fn state(&self) -> ReplaceState {
        self.state
    }

    /// A fresh protocol for one pair, nothing attempted yet.
    pub fn new(source: String, target: String, kind: LinkKind) -> (r: SafeReplace)
        ensures
            r.state() == ReplaceState::Original,
            r.src() == source@,
            r.tgt() == target@,
            r.bak() == target@ + backup_suffix(),
            r.link_kind() == kind,
    {
        let backup = backup_path_for(target.as_str());
        SafeReplace { source, target, backup, kind, state: ReplaceState::Original }
    }

    /// The filesystem action owed now, if any.
    pub fn next_action(&self) -> (r: Option<FsAction>)
        ensures
            r == action_for(self.state()),
    {
        match self.state {
            ReplaceState::Original => Some(FsAction::RenameTargetToBackup),
            ReplaceState::BackedUp => Some(FsAction::CreateLink),
            ReplaceState::CleaningUp => Some(FsAction::RemoveBackup),
            ReplaceState::Restoring => Some(FsAction::RestoreBackup),
            _ => None,
        }
    }

    /// Advance the protocol: the owed action was attempted and either
    /// succeeded (`ok`) or failed.  Paths and link kind never change.
    pub fn on_outcome(&mut self, ok: bool)
        requires
            !is_terminal(old(self).state()),
        ensures
            final(self).state() == step(old(self).state(), ok),
            final(self).src() == old(self).src(),
            final(self).tgt() == old(self).tgt(),
            final(self).bak() == old(self).bak(),
            final(self).link_kind() == old(self).link_kind(),
    {
        let next = match self.state {
            ReplaceState::Original => ReplaceState::BackedUp,
            ReplaceState::BackedUp => if ok {
                ReplaceState::CleaningUp
            } else {
                ReplaceState::Restoring
            },
            ReplaceState::CleaningUp => ReplaceState::Linked,
            ReplaceState::Restoring => if ok {
                ReplaceState::RestoredOriginal
            } else {
                ReplaceState::Lost
            },
            _ => self.state,
        };
        self.state = next;
    }

    /// Where the protocol stands, for observation and reporting.
    pub fn current_state(&self) -> (r: ReplaceState)
        ensures
            r == self.state(),
    {
        self.state
    }

    /// Whether the protocol is finished.
    pub fn is_done(&self) -> (r: bool)
        ensures
            r == is_terminal(self.state()),
    {
        match self.state {
            ReplaceState::Linked => true,
            ReplaceState::RestoredOriginal => true,
            ReplaceState::Lost => true,
            _ => false,
        }
    }

    /// The error owed once terminal: none on success, the taxonomy entry
    /// of the failure otherwise.
    pub fn error(&self) -> (r: Option<ReplaceError>)
        ensures
            r == error_for(self.state()),
    {
        match self.state {
            ReplaceState::RestoredOriginal => Some(ReplaceError::LinkCreation),
            ReplaceState::Lost => Some(ReplaceError::BackupRestore),
            _ => None,
        }
    }

    /// The source path, for performing `CreateLink`.
    pub fn source(&self) -> (r: &String)
        ensures
            r@ == self.src(),
    {
        &self.source
    }

    /// The target path, for performing the rename and link actions.
    pub fn target(&self) -> (r: &String)
        ensures
            r@ == self.tgt(),
    {
        &self.target
    }

    /// The backup path, for performing the backup actions.
    pub fn backup(&self) -> (r: &String)
        ensures
            r@ == self.bak(),
    {
        &self.backup
    }

    /// The kind of link to create.
    pub fn link_kind_exec(&self) -> (r: LinkKind)
        ensures
            r == self.link_kind(),
    {
        self.kind
    }
}

// ---------------------------------------------------------------------------
// A ghost model of the two paths the protocol touches, and the proof that
// the protocol never destroys the target's content.
// ---------------------------------------------------------------------------

/// What one of the two paths holds in the model.
#[derive(Clone, Copy, PartialEq, Eq, Structural, Debug)]
pub enum PathContent {
    /// The target's original regular file.
    OriginalFile,
    /// A link of the chosen kind pointing at the source.
    LinkToSource,
    /// No directory entry.
    Absent,
}

/// The target path and its backup path, as the protocol sees them.  The
/// model excludes outside interference: only the protocol's own actions
/// move content between the two paths.
pub struct FsModel {
    pub target: PathContent,
    pub backup: PathContent,
}

/// Before the protocol runs: the target is a regular file and the backup
/// name is free (the suffix convention must not collide with user data).
pub open spec fn fs_init() -> FsModel {
    FsModel { target: PathContent::OriginalFile, backup: PathContent::Absent }
}

/// What a successful action does to the two paths; a failed action leaves
/// them unchanged.  Renames move content (overwriting their destination);
/// link creation makes the target the link; removal clears the backup.
pub open spec fn apply_action(fs: FsModel, a: FsAction, ok: bool) -> FsModel {
    if !ok {
        fs
    } else {
        match a {
            FsAction::RenameTargetToBackup => FsModel {
                target: PathContent::Absent,
                backup: fs.target,
            },
            FsAction::CreateLink => FsModel { target: PathContent::LinkToSource, backup: fs.backup },
            FsAction::RemoveBackup => FsModel { target: fs.target, backup: PathContent::Absent },
            FsAction::RestoreBackup => FsModel { target: fs.backup, backup: PathContent::Absent },
        }
    }
}

/// Which outcomes the filesystem can give.  Failure is always possible
/// (permissions, cross-device links, a full disk); success needs the
/// action's source material present, and link creation needs the target
/// entry free.
pub open spec fn outcome_possible(fs: FsModel, a: FsAction, ok: bool) -> bool {
    !ok || (match a {
        FsAction::RenameTargetToBackup => fs.target != PathContent::Absent,
        FsAction::CreateLink => fs.target == PathContent::Absent,
        FsAction::RemoveBackup => fs.backup != PathContent::Absent,
        FsAction::RestoreBackup => fs.backup != PathContent::Absent,
    })
}

/// The coupling of protocol state and filesystem: what the two paths can
/// hold in each state.
pub open spec fn inv(s: ReplaceState, fs: FsModel) -> bool {
    match s {
        ReplaceState::Original => fs == fs_init(),
        ReplaceState::BackedUp | ReplaceState::Restoring | ReplaceState::Lost => (fs.target
            == PathContent::Absent && fs.backup == PathContent::OriginalFile) || fs == fs_init(),
        ReplaceState::CleaningUp => fs.target == PathContent::LinkToSource && fs.backup
            == PathContent::OriginalFile,
        ReplaceState::Linked => fs.target == PathContent::LinkToSource,
        ReplaceState::RestoredOriginal => fs.target == PathContent::OriginalFile,
    }
}

/// The coupling holds before anything was attempted.
pub proof fn lemma_inv_init()
    ensures
        inv(ReplaceState::Original, fs_init()),
{
}

/// Each step of the protocol preserves the coupling: whatever action the
/// state owes, and whichever outcome the filesystem can give it, the next
/// state describes the two paths again.
pub proof fn lemma_inv_step(s: ReplaceState, fs: FsModel, ok: bool)
    requires
        inv(s, fs),
        action_for(s) is Some,
        outcome_possible(fs, action_for(s)->Some_0, ok),
    ensures
        inv(step(s, ok), apply_action(fs, action_for(s)->Some_0, ok)),
{
}

/// Nothing the protocol does destroys the target's content: in every
/// reachable configuration the target is already the link, or the original
/// file survives at the target or at the backup path.
pub proof fn lemma_content_never_destroyed(s: ReplaceState, fs: FsModel)
    requires
        inv(s, fs),
    ensures
        fs.target == PathContent::LinkToSource || fs.target == PathContent::OriginalFile
            || fs.backup == PathContent::OriginalFile,
{
}

/// The configuration a run of outcomes ends in: from a state and a
/// filesystem, attempt the owed action with each outcome in turn until
/// the outcomes run out or the state is terminal.
pub open spec fn run(s: ReplaceState, fs: FsModel, outcomes: Seq<bool>) -> (ReplaceState, FsModel)
    decreases outcomes.len(),
{
    if outcomes.len() == 0 || is_terminal(s) {
        (s, fs)
    } else {
        let a = action_for(s)->Some_0;
        run(step(s, outcomes[0]), apply_action(fs, a, outcomes[0]), outcomes.drop_first())
    }
}

/// Every outcome of the run was one the filesystem it met could give.
pub open spec fn run_possible(s: ReplaceState, fs: FsModel, outcomes: Seq<bool>) -> bool
    decreases outcomes.len(),
{
    outcomes.len() == 0 || is_terminal(s) || {
        let a = action_for(s)->Some_0;
        &&& outcome_possible(fs, a, outcomes[0])
        &&& run_possible(step(s, outcomes[0]), apply_action(fs, a, outcomes[0]), outcomes.drop_first())
    }
}

/// A possible run from a coupled configuration ends in a coupled one.
pub proof fn lemma_run_inv(s: ReplaceState, fs: FsModel, outcomes: Seq<bool>)
    requires
        inv(s, fs),
        run_possible(s, fs, outcomes),
    ensures
        inv(run(s, fs, outcomes).0, run(s, fs, outcomes).1),
    decreases outcomes.len(),
{
    if outcomes.len() == 0 || is_terminal(s) {
    } else {
        let a = action_for(s)->Some_0;
        lemma_inv_step(s, fs, outcomes[0]);
        lemma_run_inv(step(s, outcomes[0]), apply_action(fs, a, outcomes[0]), outcomes.drop_first());
    }
}

/// Link-failure rollback, end to end: however a possible run from a fresh
/// target turns out, ending restored means the target holds its original
/// content again, ending linked means the target is the link, and even a
/// run cut short leaves the original recoverable at the target or the
/// backup path unless the target already became the link.
pub proof fn lemma_rollback(outcomes: Seq<bool>)
    requires
        run_possible(ReplaceState::Original, fs_init(), outcomes),
    ensures
        ({
            let end = run(ReplaceState::Original, fs_init(), outcomes);
            &&& (end.0 == ReplaceState::RestoredOriginal ==> end.1.target
                == PathContent::OriginalFile)
            &&& (end.0 == ReplaceState::Linked ==> end.1.target == PathContent::LinkToSource)
            &&& (end.1.target == PathContent::LinkToSource || end.1.target
                == PathContent::OriginalFile || end.1.backup == PathContent::OriginalFile)
        }),
{
    lemma_run_inv(ReplaceState::Original, fs_init(), outcomes);
    let end = run(ReplaceState::Original, fs_init(), outcomes);
    lemma_content_never_destroyed(end.0, end.1);
}

/// What each terminal state means on disk: success left the link at the
/// target; a rolled-back failure left the original at the target; even the
/// loud failure state leaves the original at the target or the backup —
/// within this model, true loss needs outside interference with the
/// backup.
pub proof fn lemma_terminal_meaning(s: ReplaceState, fs: FsModel)
    requires
        inv(s, fs),
        is_terminal(s),
    ensures
        s == ReplaceState::Linked ==> fs.target == PathContent::LinkToSource,
        s == ReplaceState::RestoredOriginal ==> fs.target == PathContent::OriginalFile,
        s == ReplaceState::Lost ==> fs.target == PathContent::OriginalFile || fs.backup
            == PathContent::OriginalFile,
{
}

} // verus!
