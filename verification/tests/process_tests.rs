use process_ctl::process;
use process_ctl::process::{
    classify_delivery, current_pid, is_alive, liveness_from_probe, CODE_NO_SUCH_PROCESS,
    CODE_PERMISSION_DENIED,
};
use process_ctl::ProcessControlError;
use process_ctl::Signal;

// A pid far above any default pid ceiling: nothing runs under it here, so
// it stands for a process that has already exited.
const ABSENT_PID: i32 = 2_000_000_000;

#[test]
fn the_calling_process_is_alive() {
    assert!(is_alive(current_pid()));
}

#[test]
fn an_absent_pid_reports_dead_not_an_error() {
    assert!(!is_alive(ABSENT_PID));
}

#[test]
fn signalling_an_absent_pid_reports_no_such_process() {
    assert_eq!(
        Err(ProcessControlError::NoSuchProcess),
        process::signal(ABSENT_PID, Signal::TERM)
    );
}

#[test]
fn a_harmless_signal_to_the_calling_process_succeeds() {
    // CHLD is ignored by default, so delivering it proves the path without
    // disturbing the process.
    assert_eq!(Ok(()), process::signal(current_pid(), Signal::CHLD));
    assert!(is_alive(current_pid()));
}

#[test]
fn liveness_decision_covers_every_probe_outcome() {
    assert!(liveness_from_probe(Ok(())));
    assert!(liveness_from_probe(Err(CODE_PERMISSION_DENIED)));
    assert!(!liveness_from_probe(Err(CODE_NO_SUCH_PROCESS)));
    assert!(!liveness_from_probe(Err(13)));
}

#[test]
fn delivery_outcomes_classify_exactly() {
    assert_eq!(Ok(()), classify_delivery(Ok(())));
    assert_eq!(
        Err(ProcessControlError::NoSuchProcess),
        classify_delivery(Err(CODE_NO_SUCH_PROCESS))
    );
    assert_eq!(
        Err(ProcessControlError::PermissionDenied),
        classify_delivery(Err(CODE_PERMISSION_DENIED))
    );
    assert_eq!(
        Err(ProcessControlError::OsError(13)),
        classify_delivery(Err(13))
    );
}
