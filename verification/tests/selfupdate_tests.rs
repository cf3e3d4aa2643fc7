use karate_cli::selfupdate::SwapLayout;
use karate_cli::selfupdate::UpdateEvent;
use karate_cli::selfupdate::UpdateState;
use karate_cli::selfupdate::rollback;
use karate_cli::selfupdate::update_step;

fn fresh_layout() -> SwapLayout {
    SwapLayout { live: Some(1), backup: None, staged: None, archive: None }
}

#[test]
fn test_no_newer_version_is_a_noop() {
    let l = fresh_layout();
    let (s, l1) = update_step(UpdateState::Idle, l, UpdateEvent::ResolveChecked { newer: false });
    assert_eq!(s, UpdateState::Idle);
    assert_eq!(l1, l);
}

#[test]
fn test_successful_update_run() {
    let l0 = fresh_layout();
    let (s1, l1) = update_step(UpdateState::Idle, l0, UpdateEvent::ResolveChecked { newer: true });
    assert_eq!(s1, UpdateState::Download);
    let (s2, l2) = update_step(s1, l1, UpdateEvent::Downloaded { archive: Some(10) });
    assert_eq!(s2, UpdateState::ExtractToStaging);
    assert_eq!(l2.archive, Some(10));
    let (s3, l3) = update_step(s2, l2, UpdateEvent::Staged { binary: Some(2) });
    assert_eq!(s3, UpdateState::BackupCurrent);
    assert_eq!(l3.staged, Some(2));
    // nothing has touched the live binary yet
    assert_eq!(l3.live, Some(1));
    let (s4, l4) = update_step(s3, l3, UpdateEvent::BackedUp { ok: true });
    assert_eq!(s4, UpdateState::SwapIn);
    assert_eq!(l4.backup, Some(1));
    let (s5, l5) = update_step(s4, l4, UpdateEvent::Swapped { ok: true });
    assert_eq!(s5, UpdateState::Cleanup);
    assert_eq!(l5.live, Some(2));
    let (s6, l6) = update_step(s5, l5, UpdateEvent::Cleaned { keep_backup: false });
    assert_eq!(s6, UpdateState::Done);
    assert_eq!(l6.live, Some(2));
    assert_eq!(l6.backup, None);
    assert_eq!(l6.archive, None);
    assert_eq!(l6.staged, None);
}

#[test]
fn test_swap_failure_rolls_back() {
    // backup succeeded, then the swap (rename and copy) fails
    let l0 = SwapLayout { live: Some(1), backup: None, staged: Some(2), archive: Some(10) };
    let (s1, l1) = update_step(UpdateState::BackupCurrent, l0, UpdateEvent::BackedUp { ok: true });
    assert_eq!(s1, UpdateState::SwapIn);
    assert_eq!(l1.live, None);
    assert_eq!(l1.backup, Some(1));
    let (s2, l2) = update_step(s1, l1, UpdateEvent::Swapped { ok: false });
    assert_eq!(s2, UpdateState::Rollback);
    let l3 = rollback(l2);
    // the live path holds the original binary again
    assert_eq!(l3.live, Some(1));
    // and the stale backup is gone
    assert_eq!(l3.backup, None);
}

#[test]
fn test_failures_before_backup_leave_live_untouched() {
    let l0 = fresh_layout();
    let (s, l) = update_step(UpdateState::Download, l0, UpdateEvent::Downloaded { archive: None });
    assert_eq!(s, UpdateState::Failed);
    assert_eq!(l.live, Some(1));
    let (s2, l2) = update_step(
        UpdateState::ExtractToStaging,
        l0,
        UpdateEvent::Staged { binary: None },
    );
    assert_eq!(s2, UpdateState::Failed);
    assert_eq!(l2, l0);
    let (s3, l3) = update_step(UpdateState::BackupCurrent, l0, UpdateEvent::BackedUp { ok: false });
    assert_eq!(s3, UpdateState::Failed);
    assert_eq!(l3, l0);
}

#[test]
fn test_cleanup_keeps_backup_when_os_locks_binaries() {
    let l0 = SwapLayout { live: Some(2), backup: Some(1), staged: None, archive: Some(10) };
    let (s, l) = update_step(UpdateState::Cleanup, l0, UpdateEvent::Cleaned { keep_backup: true });
    assert_eq!(s, UpdateState::Done);
    assert_eq!(l.backup, Some(1));
    assert_eq!(l.archive, None);
}
