//! The POSIX process-control adapter: process identity, a non-blocking
//! liveness probe, and signal delivery. The OS calls go through trusted
//! wrappers; every decision on their outcomes is verified.
use vstd::prelude::*;

use crate::error::ProcessControlError;
use crate::signal::Signal;

verus! {

/// A platform-native process identifier, borrowed from whatever spawned
/// the process; the OS may reuse it once that process has exited.
pub type Pid = i32;

/// The OS error code for an operation the caller lacks rights to
/// (`EPERM`; this value on every POSIX platform this adapter backs).
pub const CODE_PERMISSION_DENIED: i32 = 1;

/// The OS error code for a process that does not currently exist
/// (`ESRCH`; this value on every POSIX platform this adapter backs).
pub const CODE_NO_SUCH_PROCESS: i32 = 3;

/// The numeric code the OS knows each signal by, on this backend.
/// Private to the adapter: the closed name set cannot be bypassed by
/// numeric input.
pub(crate) open spec fn signal_code_spec(s: Signal) -> i32 {
    match s {
        Signal::HUP => 1,
        Signal::INT => 2,
        Signal::QUIT => 3,
        Signal::ILL => 4,
        Signal::ABRT => 6,
        Signal::FPE => 8,
        Signal::KILL => 9,
        Signal::USR1 => 10,
        Signal::SEGV => 11,
        Signal::USR2 => 12,
        Signal::ALRM => 14,
        Signal::TERM => 15,
        Signal::CHLD => 17,
    }
}

/// The exhaustive signal-name-to-code lookup of this backend.
pub(crate) fn signal_code(s: Signal) -> (c: i32)
    ensures
        c == signal_code_spec(s),
{
    match s {
        Signal::HUP => 1,
        Signal::INT => 2,
        Signal::QUIT => 3,
        Signal::ILL => 4,
        Signal::ABRT => 6,
        Signal::FPE => 8,
        Signal::KILL => 9,
        Signal::USR1 => 10,
        Signal::SEGV => 11,
        Signal::USR2 => 12,
        Signal::ALRM => 14,
        Signal::TERM => 15,
        Signal::CHLD => 17,
    }
}

/// Relies on nix::unistd::getpid (getpid(2)): the identity of the calling
/// process; the call always succeeds.
#[verifier::external_body]
pub fn current_pid() -> (pid: Pid) {
    nix::unistd::getpid().as_raw()
}

/// Relies on nix::sys::signal::kill (kill(2)): delivers the signal named
/// by `code` to the process; on failure hands back the raw OS error code.
/// Which outcome comes back depends on the state of the process table.
#[verifier::external_body]
fn kill_raw(pid: Pid, code: i32) -> (r: Result<(), i32>)
    requires
        exists|s: Signal| signal_code_spec(s) == code,
{
    let sig = match nix::sys::signal::Signal::try_from(code) {
        Ok(s) => s,
        Err(e) => return Err(e as i32),
    };
    match nix::sys::signal::kill(nix::unistd::Pid::from_raw(pid), sig) {
        Ok(()) => Ok(()),
        Err(e) => Err(e as i32),
    }
}

/// Relies on nix::sys::signal::kill (kill(2)) with no signal: performs
/// the existence and permission checks without delivering anything; on
/// failure hands back the raw OS error code. Which outcome comes back
/// depends on the state of the process table.
#[verifier::external_body]
fn kill_probe_raw(pid: Pid) -> (r: Result<(), i32>) {
    match nix::sys::signal::kill(
        nix::unistd::Pid::from_raw(pid),
        None::<nix::sys::signal::Signal>,
    ) {
        Ok(()) => Ok(()),
        Err(e) => Err(e as i32),
    }
}

/// Whether a probe outcome means the process exists: it does if the probe
/// succeeded, and also if it failed only for lack of rights.
pub open spec fn probe_means_alive(probe: Result<(), i32>) -> bool {
    probe is Ok || probe == Err::<(), i32>(CODE_PERMISSION_DENIED)
}

/// The liveness decision for one probe outcome.
pub fn liveness_from_probe(probe: Result<(), i32>) -> (alive: bool)
    ensures
        alive == probe_means_alive(probe),
{
    match probe {
        Ok(_) => true,
        Err(code) => code == CODE_PERMISSION_DENIED,
    }
}

/// Non-blocking liveness probe: `true` only while the pid names a running
/// process. A pid that never existed or has already exited reports
/// `false`, never an error; nothing is cached between calls.
pub fn is_alive(pid: Pid) -> (alive: bool) {
    let probe = kill_probe_raw(pid);
    liveness_from_probe(probe)
}

/// The error each OS code classifies as.
pub open spec fn error_of_code(code: i32) -> ProcessControlError {
    if code == CODE_NO_SUCH_PROCESS {
        ProcessControlError::NoSuchProcess
    } else if code == CODE_PERMISSION_DENIED {
        ProcessControlError::PermissionDenied
    } else {
        ProcessControlError::OsError(code)
    }
}

/// Classifies one delivery outcome: success stays success, and every
/// failure keeps its OS error code, either under its own name or attached.
pub fn classify_delivery(raw: Result<(), i32>) -> (r: Result<(), ProcessControlError>)
    ensures
        r is Ok <==> raw is Ok,
        raw matches Err(code) ==> r == Err::<(), ProcessControlError>(error_of_code(code)),
{
    match raw {
        Ok(_) => Ok(()),
        Err(code) => {
            if code == CODE_NO_SUCH_PROCESS {
                Err(ProcessControlError::NoSuchProcess)
            } else if code == CODE_PERMISSION_DENIED {
                Err(ProcessControlError::PermissionDenied)
            } else {
                Err(ProcessControlError::OsError(code))
            }
        },
    }
}

/// Delivers the named signal to the process. Whatever the OS reports
/// comes back classified and never swallowed: `NoSuchProcess` when the
/// pid no longer exists, `PermissionDenied` when the caller lacks rights,
/// any other failure with its code attached.
pub fn signal(pid: Pid, sig: Signal) -> (r: Result<(), ProcessControlError>)
    ensures
        r matches Err(e) ==> !(e is ExecFailed),
{
    let code = signal_code(sig);
    let raw = kill_raw(pid, code);
    classify_delivery(raw)
}

} // verus!
