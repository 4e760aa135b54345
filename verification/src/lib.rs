//! An actor-supervision library: a supervisor spawns independently executing
//! actors, each with a private ordered mailbox, addresses them by opaque
//! 128-bit identifiers, and tears them down through a blocking join that
//! reports the actor body's outcome as a typed error instead of a crash.

pub mod pid;
pub use pid::Pid;

pub mod actor;
pub use actor::Actor;

pub mod error;
pub use error::WashedUpError;

pub mod execution;
pub use execution::ExecutionHandle;

pub mod supervisor;
pub use supervisor::Supervisor;

mod mailbox;
