//! The actor record: what the registry holds for one live actor — its
//! identifier, display name, mailbox sender handle and execution handle.

use std::sync::mpsc::Sender;

use rustc_serialize::json::Json;

use vstd::prelude::*;

use crate::execution::ExecutionHandle;
use crate::pid::Pid;

verus! {

/// One registry entry. The execution handle is the join side of the
/// execution unit running the actor's body; the mailbox is the sending half
/// of that body's private queue. The record is owned exclusively by the
/// supervisor's registry from insertion until a successful join removes it.
pub struct Actor {
    pub join_handle: ExecutionHandle,
    pub mailbox: Sender<Json>,
    pub name: String,
    pub uuid: Pid,
}

impl Actor {
    /// Bundles the parts of a freshly spawned actor into its record.
    pub fn new(join_handle: ExecutionHandle, mailbox: Sender<Json>, name: String, uuid: Pid) -> (r: Actor)
        ensures
            r.join_handle == join_handle,
            r.mailbox == mailbox,
            r.name == name,
            r.uuid == uuid,
    {
        Actor { join_handle, mailbox, name, uuid }
    }
}

} // verus!
