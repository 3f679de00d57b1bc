use rdup::policy::LinkKind;
use rdup::replace::FsAction;
use rdup::replace::ReplaceError;
use rdup::replace::ReplaceState;
use rdup::replace::SafeReplace;
use rdup::replace::backup_path_for;

fn fresh() -> SafeReplace {
    SafeReplace::new(String::from("/a/x.txt"), String::from("/a/y.txt"), LinkKind::Hard)
}

#[test]
fn backup_name_appends_suffix() {
    assert_eq!(backup_path_for("/a/y.txt"), "/a/y.txt.rdup");
    assert_eq!(backup_path_for("noext"), "noext.rdup");
}

#[test]
fn new_protocol_exposes_paths() {
    let sr = fresh();
    assert_eq!(sr.current_state(), ReplaceState::Original);
    assert_eq!(sr.source(), "/a/x.txt");
    assert_eq!(sr.target(), "/a/y.txt");
    assert_eq!(sr.backup(), "/a/y.txt.rdup");
    assert_eq!(sr.link_kind_exec(), LinkKind::Hard);
    assert!(!sr.is_done());
    assert_eq!(sr.error(), None);
}

#[test]
fn success_path_runs_backup_link_cleanup() {
    let mut sr = fresh();
    assert_eq!(sr.next_action(), Some(FsAction::RenameTargetToBackup));
    sr.on_outcome(true);
    assert_eq!(sr.current_state(), ReplaceState::BackedUp);
    assert_eq!(sr.next_action(), Some(FsAction::CreateLink));
    sr.on_outcome(true);
    assert_eq!(sr.current_state(), ReplaceState::CleaningUp);
    assert_eq!(sr.next_action(), Some(FsAction::RemoveBackup));
    sr.on_outcome(true);
    assert_eq!(sr.current_state(), ReplaceState::Linked);
    assert_eq!(sr.next_action(), None);
    assert!(sr.is_done());
    assert_eq!(sr.error(), None);
}

#[test]
fn failed_cleanup_still_succeeds() {
    // A stray backup is undesirable but not destructive: the link stands.
    let mut sr = fresh();
    sr.on_outcome(true);
    sr.on_outcome(true);
    sr.on_outcome(false);
    assert_eq!(sr.current_state(), ReplaceState::Linked);
    assert_eq!(sr.error(), None);
}

#[test]
fn link_failure_rolls_back() {
    // Inject a link-creation failure (a cross-device or permission error):
    // the protocol restores the backup and reports a non-fatal error.
    let mut sr = fresh();
    sr.on_outcome(true);
    assert_eq!(sr.next_action(), Some(FsAction::CreateLink));
    sr.on_outcome(false);
    assert_eq!(sr.current_state(), ReplaceState::Restoring);
    assert_eq!(sr.next_action(), Some(FsAction::RestoreBackup));
    sr.on_outcome(true);
    assert_eq!(sr.current_state(), ReplaceState::RestoredOriginal);
    assert!(sr.is_done());
    assert_eq!(sr.error(), Some(ReplaceError::LinkCreation));
}

#[test]
fn failed_restore_is_loud_loss() {
    let mut sr = fresh();
    sr.on_outcome(true);
    sr.on_outcome(false);
    sr.on_outcome(false);
    assert_eq!(sr.current_state(), ReplaceState::Lost);
    assert!(sr.is_done());
    assert_eq!(sr.error(), Some(ReplaceError::BackupRestore));
}

#[test]
fn best_effort_backup_failure_continues() {
    // The initial rename is best-effort: its failure does not stop the
    // protocol from attempting the link.
    let mut sr = fresh();
    sr.on_outcome(false);
    assert_eq!(sr.current_state(), ReplaceState::BackedUp);
    assert_eq!(sr.next_action(), Some(FsAction::CreateLink));
}
