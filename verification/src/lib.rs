//! Process-lifecycle control: a signal vocabulary shared across platforms,
//! shutdown-policy types with a defined text form, and a POSIX
//! process-control adapter (identity, liveness, signal delivery).
pub mod error;
pub mod process;
pub mod shutdown;
pub mod signal;
pub mod stop;
pub mod text;
pub mod uninstall;

pub use error::Error;
pub use error::ProcessControlError;
pub use process::current_pid;
pub use process::is_alive;
pub use process::Pid;
pub use shutdown::ShutdownSignal;
pub use shutdown::ShutdownTimeout;
pub use signal::Signal;
pub use uninstall::UninstallMode;
