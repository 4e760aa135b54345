//! The library's stated properties exercised on concrete runs: distinct
//! identifiers, delivery and ordering, blocking joins, panic reporting, and
//! the error taxonomy's descriptions.

use std::sync::mpsc::channel;
use std::sync::mpsc::Receiver;
use std::sync::mpsc::Sender;
use std::time::Duration;
use std::time::Instant;

use rustc_serialize::json::Json;
use rustc_serialize::json::ToJson;

use washed_up::error::LockDirection;
use washed_up::error::WashedUpError;
use washed_up::pid::Pid;
use washed_up::supervisor::Supervisor;

#[test]
fn spawned_pids_are_pairwise_distinct() {
    let mut supervisor = Supervisor::new("folks");
    let a: Pid = supervisor.spawn("a", |_r: Receiver<Json>| ()).unwrap();
    let b: Pid = supervisor.spawn("b", |_r: Receiver<Json>| ()).unwrap();
    let c: Pid = supervisor.spawn("c", |_r: Receiver<Json>| ()).unwrap();

    assert!(a != b);
    assert!(a != c);
    assert!(b != c);
}

#[test]
fn body_observes_first_message() {
    let mut supervisor = Supervisor::new("folks");
    let (sink, sink_reader): (Sender<Json>, Receiver<Json>) = channel();
    let message = "{\"hi\": \"friend\"}".to_json();
    let expected = message.clone();

    let pid: Pid = supervisor
        .spawn("Bob", move |r: Receiver<Json>| {
            let first = r.recv().unwrap();
            sink.send(first).unwrap();
        })
        .unwrap();

    supervisor.send_message(pid, message).unwrap();
    supervisor.join(pid).unwrap();

    assert_eq!(sink_reader.recv().unwrap(), expected);
}

#[test]
fn messages_from_one_sender_arrive_in_send_order() {
    let mut supervisor = Supervisor::new("folks");
    let (sink, sink_reader): (Sender<Json>, Receiver<Json>) = channel();
    let first = "{\"hi\": \"friend\"}".to_json();
    let second = "{\"imnot\": \"yourfriend\"}".to_json();
    let expected_first = first.clone();
    let expected_second = second.clone();

    let pid: Pid = supervisor
        .spawn("steve", move |r: Receiver<Json>| {
            sink.send(r.recv().unwrap()).unwrap();
            sink.send(r.recv().unwrap()).unwrap();
        })
        .unwrap();

    supervisor.send_message(pid, first).unwrap();
    supervisor.send_message(pid, second).unwrap();
    supervisor.join(pid).unwrap();

    assert_eq!(sink_reader.recv().unwrap(), expected_first);
    assert_eq!(sink_reader.recv().unwrap(), expected_second);
}

#[test]
fn join_waits_for_body_completion() {
    let mut supervisor = Supervisor::new("folks");
    let (sink, sink_reader): (Sender<bool>, Receiver<bool>) = channel();

    let pid: Pid = supervisor
        .spawn("Bob", move |_r: Receiver<Json>| {
            let start = Instant::now();
            while start.elapsed() < Duration::from_millis(300) {}
            sink.send(true).unwrap();
        })
        .unwrap();

    let start = Instant::now();
    supervisor.join(pid).unwrap();

    assert!(start.elapsed() >= Duration::from_millis(250));
    assert_eq!(sink_reader.recv().unwrap(), true);
}

#[test]
fn joining_twice_returns_invalid_pid() {
    let mut supervisor = Supervisor::new("folks");
    let pid: Pid = supervisor.spawn("Bob", |_r: Receiver<Json>| ()).unwrap();

    supervisor.join(pid).unwrap();

    match supervisor.join(pid) {
        Ok(_) => panic!("Actor joined twice"),
        Err(e) => assert_eq!(e.description(), "PID does not map to a spawned actor"),
    }
}

#[test]
fn panicking_body_reports_actor_panic() {
    let mut supervisor = Supervisor::new("folks");
    let pid: Pid = supervisor
        .spawn("Bob", |_r: Receiver<Json>| {
            panic!("boom!");
        })
        .unwrap();

    match supervisor.join(pid) {
        Ok(_) => panic!("A panicking body joined cleanly"),
        Err(WashedUpError::ActorPanic(payload)) => {
            assert_eq!(payload, "Unknown panic in actor");
        },
        Err(_) => panic!("A panicking body reported some other error"),
    }

    // The supervisor stays fully usable after reporting the panic.
    let survivor: Pid = supervisor
        .spawn("Carol", |r: Receiver<Json>| {
            r.recv().unwrap();
        })
        .unwrap();
    supervisor.send_message(survivor, "{}".to_json()).unwrap();
    supervisor.join(survivor).unwrap();
}

#[test]
fn spawned_ids_remain_reachable_until_joined() {
    let mut supervisor = Supervisor::new("folks");
    let a: Pid = supervisor
        .spawn("a", |r: Receiver<Json>| {
            r.recv().unwrap();
        })
        .unwrap();
    let b: Pid = supervisor
        .spawn("b", |_r: Receiver<Json>| ())
        .unwrap();
    let c: Pid = supervisor
        .spawn("c", |r: Receiver<Json>| {
            r.recv().unwrap();
        })
        .unwrap();

    supervisor.join(b).unwrap();

    supervisor.send_message(a, "{}".to_json()).unwrap();
    supervisor.send_message(c, "{}".to_json()).unwrap();
    match supervisor.send_message(b, "{}".to_json()) {
        Ok(_) => panic!("Message sent to a joined actor"),
        Err(e) => assert_eq!(e.description(), "PID does not map to a spawned actor"),
    }

    supervisor.join(a).unwrap();
    supervisor.join(c).unwrap();
}

#[test]
fn send_failed_when_mailbox_closed() {
    let mut supervisor = Supervisor::new("folks");
    let (sink, sink_reader): (Sender<bool>, Receiver<bool>) = channel();
    let pid: Pid = supervisor
        .spawn("Bob", move |r: Receiver<Json>| {
            drop(r);
            sink.send(true).unwrap();
        })
        .unwrap();

    // Wait until the body has dropped the receiving half of its mailbox.
    sink_reader.recv().unwrap();

    match supervisor.send_message(pid, "{}".to_json()) {
        Ok(_) => panic!("Message sent into a closed mailbox"),
        Err(WashedUpError::SendFailed(returned)) => assert_eq!(returned, "{}".to_json()),
        Err(_) => panic!("A closed mailbox reported some other error"),
    }

    supervisor.join(pid).unwrap();
}

#[test]
fn descriptions_cover_every_error_kind() {
    let invalid = WashedUpError::InvalidPid(Pid::from_bits(9));
    assert_eq!(invalid.description(), "PID does not map to a spawned actor");

    let send_failed = WashedUpError::SendFailed("{}".to_json());
    assert_eq!(
        send_failed.description(),
        "Message could not be enqueued: the actor's mailbox has closed"
    );

    let resume_failed = WashedUpError::ResumeFailed(String::from("no scheduling slice"));
    assert_eq!(resume_failed.description(), "no scheduling slice");

    let read_poisoned = WashedUpError::RegistryLockPoisoned(LockDirection::Shared);
    assert_eq!(read_poisoned.description(), "Supervisor's actor read lock poisoned");

    let write_poisoned = WashedUpError::RegistryLockPoisoned(LockDirection::Exclusive);
    assert_eq!(write_poisoned.description(), "Supervisor's actor write lock poisoned");

    let actor_panic = WashedUpError::ActorPanic(String::from("boom!"));
    assert_eq!(actor_panic.description(), "boom!");

    let unit_failure = WashedUpError::ExecutionUnitFailure(String::from("worker lost"));
    assert_eq!(unit_failure.description(), "worker lost");
}

#[test]
fn invalid_pid_converts_from_identifier() {
    let pid = Pid::from_bits(11);
    let e = WashedUpError::from(pid);
    match e {
        WashedUpError::InvalidPid(p) => assert!(p == pid),
        _ => panic!("conversion produced some other error kind"),
    }
}

#[test]
fn pid_round_trips_through_bits() {
    let pid = Pid::from_bits(170141183460469231731687303715884105727);
    assert_eq!(pid.bits(), 170141183460469231731687303715884105727);
    let same = Pid::from_bits(pid.bits());
    assert!(pid == same);
}
