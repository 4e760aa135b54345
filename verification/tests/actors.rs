//! Supervisor behaviour at its public surface: spawn, send and join against
//! live actor bodies running on real execution units.

use std::sync::mpsc::Receiver;

use rustc_serialize::json::Json;
use rustc_serialize::json::ToJson;
use uuid::Uuid;

use washed_up::error::WashedUpError;
use washed_up::pid::Pid;
use washed_up::supervisor::Supervisor;

// send_message tests
#[test]
fn error_is_returned_if_message_sent_for_pid_that_does_not_exist() {
    let supervisor = Supervisor::new("folks");
    let pid = Pid::from_bits(Uuid::new_v4().as_u128());

    let send_result = supervisor.send_message(pid, "{}".to_json());

    match send_result {
        Ok(_) => panic!("Message sent to non-existent PID"),
        Err(e) => assert_eq!(e.description(), "PID does not map to a spawned actor"),
    }
}

#[test]
fn pid_can_be_used_to_send_message() {
    let mut supervisor = Supervisor::new("folks");
    let pid: Pid = supervisor
        .spawn("Bob", |r: Receiver<Json>| {
            r.recv().unwrap();
        })
        .unwrap();

    supervisor.send_message(pid, "{Hi:\"friend\"}".to_json()).unwrap();
    supervisor.join(pid).unwrap();
}

// join tests
#[test]
fn joining_actor_makes_it_unreachable() {
    let mut supervisor = Supervisor::new("folks");
    let pid: Pid = supervisor.spawn("Bob", |_r: Receiver<Json>| ()).unwrap();

    supervisor.join(pid).unwrap();

    let send_result = supervisor.send_message(pid, "{}".to_json());

    match send_result {
        Ok(_) => panic!("Message sent to non-existent PID"),
        Err(e) => assert_eq!(e.description(), "PID does not map to a spawned actor"),
    }
}

#[test]
fn error_is_returned_if_joining_actor_that_does_not_exist() {
    let mut supervisor = Supervisor::new("folks");
    let pid = Pid::from_bits(Uuid::new_v4().as_u128());

    let join_result: Result<(), WashedUpError> = supervisor.join(pid);

    match join_result {
        Ok(_) => panic!("Actor joined for non-existent PID"),
        Err(e) => assert_eq!(e.description(), "PID does not map to a spawned actor"),
    }
}

#[test]
fn actors_trap_panics() {
    let mut supervisor = Supervisor::new("folks");
    supervisor
        .spawn("Bob", |_r: Receiver<Json>| {
            panic!("boom!");
        })
        .unwrap();
}
