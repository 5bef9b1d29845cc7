use process_ctl::stop::{resolve_delivery, stop_step, StopAction, StopState};
use process_ctl::ProcessControlError;
use process_ctl::UninstallMode;

#[test]
fn a_term_resistant_process_is_killed_once_the_timeout_elapses() {
    // A spawned process ignores the shutdown signal; the timeout is two
    // seconds. The caller observes liveness at each step.
    let (s1, a1) = stop_step(StopState::Running, true, false);
    assert_eq!((StopState::Stopping, StopAction::SendShutdownSignal), (s1, a1));
    // Still alive, timeout not yet elapsed: keep polling.
    let (s2, a2) = stop_step(s1, true, false);
    assert_eq!((StopState::Stopping, StopAction::Poll), (s2, a2));
    // Two seconds have passed and it still lives: the kill goes out.
    let (s3, a3) = stop_step(s2, true, true);
    assert_eq!((StopState::Overdue, StopAction::ForceKill), (s3, a3));
    // Within the grace period the kill takes effect.
    let (s4, a4) = stop_step(s3, false, true);
    assert_eq!((StopState::Stopped, StopAction::Done), (s4, a4));
}

#[test]
fn an_already_dead_process_stops_immediately() {
    for state in [
        StopState::Running,
        StopState::Stopping,
        StopState::Overdue,
        StopState::Stopped,
    ] {
        assert_eq!(
            (StopState::Stopped, StopAction::Done),
            stop_step(state, false, false)
        );
    }
}

#[test]
fn stopped_is_terminal() {
    for alive in [false, true] {
        for timed_out in [false, true] {
            assert_eq!(
                (StopState::Stopped, StopAction::Done),
                stop_step(StopState::Stopped, alive, timed_out)
            );
        }
    }
}

#[test]
fn a_cooperative_process_is_never_killed() {
    let (s1, a1) = stop_step(StopState::Running, true, false);
    assert_eq!((StopState::Stopping, StopAction::SendShutdownSignal), (s1, a1));
    let (s2, a2) = stop_step(s1, false, false);
    assert_eq!((StopState::Stopped, StopAction::Done), (s2, a2));
}

#[test]
fn an_already_exited_process_is_a_benign_delivery_outcome() {
    assert_eq!(Ok(()), resolve_delivery(Ok(())));
    assert_eq!(
        Ok(()),
        resolve_delivery(Err(ProcessControlError::NoSuchProcess))
    );
    assert_eq!(
        Err(ProcessControlError::PermissionDenied),
        resolve_delivery(Err(ProcessControlError::PermissionDenied))
    );
    assert_eq!(
        Err(ProcessControlError::OsError(13)),
        resolve_delivery(Err(ProcessControlError::OsError(13)))
    );
}

#[test]
fn keep_latest_text_selects_the_uninstall_mode() {
    assert_eq!(UninstallMode::Single, UninstallMode::from_keep_latest(None));
    assert_eq!(
        UninstallMode::KeepLatest(3),
        UninstallMode::from_keep_latest(Some("3"))
    );
    assert_eq!(
        UninstallMode::KeepLatest(0),
        UninstallMode::from_keep_latest(Some("0"))
    );
    assert_eq!(
        UninstallMode::Single,
        UninstallMode::from_keep_latest(Some("three"))
    );
    assert_eq!(
        UninstallMode::Single,
        UninstallMode::from_keep_latest(Some(""))
    );
    assert_eq!(
        UninstallMode::Single,
        UninstallMode::from_keep_latest(Some("18446744073709551616"))
    );
}
