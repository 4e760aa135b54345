//! The error taxonomy: every public supervisor operation returns one of these
//! typed kinds instead of panicking across its boundary.

use rustc_serialize::json::Json;

use vstd::prelude::*;

use crate::pid::Pid;

verus! {

/// Which kind of registry access a failed holder was taking when it left the
/// registry poisoned: the shared (read) side or the exclusive (write) side.
#[derive(Clone, Copy, PartialEq, Eq, Structural, Debug)]
pub enum LockDirection {
    Shared,
    Exclusive,
}

/// One typed error kind per way a supervisor operation can fail.
///
/// In this registry design, exclusive access is Rust's `&mut` borrow and the
/// scheduling model is preemptive, so `RegistryLockPoisoned`, `ResumeFailed`
/// and `ExecutionUnitFailure` are never produced by the operations here; they
/// complete the taxonomy for callers that report errors uniformly.
#[derive(Debug)]
pub enum WashedUpError {
    /// The identifier maps to no live actor: it was never issued, or its
    /// actor has already been joined.
    InvalidPid(Pid),
    /// The target's mailbox closed before the message could be enqueued; the
    /// undelivered message is handed back as the cause.
    SendFailed(Json),
    /// A cooperative scheduling step failed to resume the target actor.
    ResumeFailed(String),
    /// A prior holder of registry access failed mid-mutation and poisoned the
    /// registry for every later operation.
    RegistryLockPoisoned(LockDirection),
    /// The actor's body terminated abnormally; the payload carries the
    /// captured description, or a generic fallback when none is recoverable.
    ActorPanic(String),
    /// The execution unit reported a failure that was not a body panic.
    ExecutionUnitFailure(String),
}

impl WashedUpError {
    /// What `description` returns for each kind.
    pub open spec fn description_spec(&self) -> Seq<char> {
        match self {
            WashedUpError::InvalidPid(_) => "PID does not map to a spawned actor"@,
            WashedUpError::SendFailed(_) => "Message could not be enqueued: the actor's mailbox has closed"@,
            WashedUpError::ResumeFailed(cause) => cause@,
            WashedUpError::RegistryLockPoisoned(direction) => match direction {
                LockDirection::Shared => "Supervisor's actor read lock poisoned"@,
                LockDirection::Exclusive => "Supervisor's actor write lock poisoned"@,
            },
            WashedUpError::ActorPanic(payload) => payload@,
            WashedUpError::ExecutionUnitFailure(cause) => cause@,
        }
    }

    /// A short report of what went wrong: a fixed sentence per kind, or the
    /// carried cause where one was captured.
    pub fn description(&self) -> (r: &str)
        ensures
            r@ == self.description_spec(),
    {
        match self {
            WashedUpError::InvalidPid(_) => "PID does not map to a spawned actor",
            WashedUpError::SendFailed(_) => "Message could not be enqueued: the actor's mailbox has closed",
            WashedUpError::ResumeFailed(cause) => cause.as_str(),
            WashedUpError::RegistryLockPoisoned(direction) => match direction {
                LockDirection::Shared => "Supervisor's actor read lock poisoned",
                LockDirection::Exclusive => "Supervisor's actor write lock poisoned",
            },
            WashedUpError::ActorPanic(payload) => payload.as_str(),
            WashedUpError::ExecutionUnitFailure(cause) => cause.as_str(),
        }
    }
}

impl From<Pid> for WashedUpError {
    /// An identifier that maps to no live actor converts into the error it
    /// always causes.
    fn from(invalid_pid: Pid) -> (r: WashedUpError) {
        WashedUpError::InvalidPid(invalid_pid)
    }
}

impl vstd::std_specs::convert::FromSpecImpl<Pid> for WashedUpError {
    open spec fn obeys_from_spec() -> bool {
        true
    }

    open spec fn from_spec(invalid_pid: Pid) -> WashedUpError {
        WashedUpError::InvalidPid(invalid_pid)
    }
}

} // verus!
