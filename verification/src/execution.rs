//! The execution unit: what actually runs an actor body to completion,
//! concurrently with the caller, and lets the supervisor wait for and
//! classify its outcome.
//!
//! Each actor gets a dedicated single-worker pool from the threadpool crate
//! plus a completion channel. The worker runs the body and then signals
//! completion; a body that panics unwinds past the signal, so the signalling
//! half is dropped unsent and the waiting side reports abnormal termination.
//! The panic stays inside the worker thread: it reaches neither the caller
//! nor the registry.

use std::sync::mpsc::Receiver;
use std::sync::mpsc::Sender;

use rustc_serialize::json::Json;
use threadpool::ThreadPool;

use vstd::prelude::*;

use crate::mailbox::channel_pair;
use crate::mailbox::channel_recv;
use crate::mailbox::channel_send;

verus! {

#[verifier::external_type_specification]
#[verifier::external_body]
pub struct ExThreadPool(ThreadPool);

/// The handle through which the supervisor waits for one actor's outcome:
/// the pool whose single worker runs the body, and the receiving half of
/// that body's completion signal.
pub struct ExecutionHandle {
    pool: ThreadPool,
    done: Receiver<()>,
}

/// Runs one actor body to completion against the receiving half of its
/// mailbox, then signals completion. A body that panics unwinds out of this
/// function before the signal is sent, leaving the signalling half to be
/// dropped unsent.
fn run_actor_body<F>(body: F, inbox: Receiver<Json>, done: Sender<()>) where
    F: FnOnce(Receiver<Json>),

    requires
        call_requires(body, (inbox,)),
{
    body(inbox);
    let _ = channel_send(&done, ());
}

/// Relies on threadpool::ThreadPool::with_name: builds a pool of `workers`
/// threads, each named `name`. It panics when `workers` is zero, which the
/// precondition rules out.
#[verifier::external_body]
fn new_worker_pool(name: &str, workers: usize) -> ThreadPool
    requires
        workers >= 1,
{
    ThreadPool::with_name(String::from(name), workers)
}

/// Relies on threadpool::ThreadPool::execute: hands the job to the pool,
/// which runs it on a worker thread, concurrently with the caller. A job
/// that panics unwinds only its own worker, which the pool replaces.
#[verifier::external_body]
fn pool_execute<F>(pool: &ThreadPool, body: F, inbox: Receiver<Json>, done: Sender<()>) where
    F: FnOnce(Receiver<Json>) + Send + 'static,

    requires
        call_requires(body, (inbox,)),
{
    pool.execute(move || run_actor_body(body, inbox, done));
}

impl ExecutionHandle {
    /// Starts an execution unit running `body` against `inbox`: a dedicated
    /// single-worker pool whose one job is the body, wired to a fresh
    /// completion channel. The body begins executing concurrently with the
    /// caller; the returned handle is the only way to observe its outcome.
    pub fn start<F>(name: &str, body: F, inbox: Receiver<Json>) -> ExecutionHandle where
        F: FnOnce(Receiver<Json>) + Send + 'static,

        requires
            call_requires(body, (inbox,)),
    {
        let (done_sender, done_receiver) = channel_pair::<()>();
        let pool = new_worker_pool(name, 1);
        pool_execute(&pool, body, inbox, done_sender);
        ExecutionHandle { pool, done: done_receiver }
    }

    /// Blocks until the body has finished running, then classifies its
    /// outcome: `Ok` when the body ran to completion and signalled, `Err`
    /// when the signalling half was dropped unsent, that is, when the body
    /// terminated abnormally.
    pub fn join(self) -> Result<(), ()> {
        match channel_recv(&self.done) {
            Some(u) => Ok(u),
            None => Err(()),
        }
    }
}

} // verus!
