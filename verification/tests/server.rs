//! Tests of the controller lifecycle and of real fan-out delivery through
//! the tokio broadcast channel the controller manages.

use fanout_server::controller::Controller;
use fanout_server::controller::ServerError;
use tokio::sync::broadcast::error::TryRecvError;

#[test]
fn start_rejects_second_start() {
    let mut c = Controller::new();
    assert!(!c.is_running());
    let first = c.start(4000);
    assert!(first.is_ok());
    assert_eq!(first.unwrap().port, 4000);
    assert!(c.is_running());
    let second = c.start(4001);
    assert!(matches!(second, Err(ServerError::AlreadyRunning)));
    let same_port = c.start(4000);
    assert!(matches!(same_port, Err(ServerError::AlreadyRunning)));
    assert!(c.is_running());
}

#[test]
fn broadcast_before_start_is_a_noop() {
    let mut c = Controller::new();
    c.broadcast(vec![1, 2, 3]);
    assert!(!c.is_running());
    let task = c.start(4002).unwrap();
    let mut rx = task.sender.subscribe();
    assert!(matches!(rx.try_recv(), Err(TryRecvError::Empty)));
}

#[test]
fn stop_twice_is_harmless() {
    let mut c = Controller::new();
    c.stop();
    c.stop();
    assert!(!c.is_running());
    let _task = c.start(4003).unwrap();
    c.stop();
    assert!(!c.is_running());
    c.stop();
    assert!(!c.is_running());
    assert!(c.start(4004).is_ok());
}

#[test]
fn client_observes_broadcasts_in_publish_order() {
    let mut c = Controller::new();
    let task = c.start(4005).unwrap();
    let mut rx = task.sender.subscribe();
    c.broadcast(b"m1".to_vec());
    c.broadcast(b"m2".to_vec());
    c.broadcast(b"m3".to_vec());
    assert_eq!(rx.try_recv().unwrap(), b"m1".to_vec());
    assert_eq!(rx.try_recv().unwrap(), b"m2".to_vec());
    assert_eq!(rx.try_recv().unwrap(), b"m3".to_vec());
    assert!(matches!(rx.try_recv(), Err(TryRecvError::Empty)));
}

#[test]
fn subscriber_joining_later_sees_only_later_payloads() {
    let mut c = Controller::new();
    let task = c.start(4006).unwrap();
    let mut early = task.sender.subscribe();
    c.broadcast(b"before".to_vec());
    let mut late = task.sender.subscribe();
    c.broadcast(b"after".to_vec());
    assert_eq!(early.try_recv().unwrap(), b"before".to_vec());
    assert_eq!(early.try_recv().unwrap(), b"after".to_vec());
    assert_eq!(late.try_recv().unwrap(), b"after".to_vec());
    assert!(matches!(late.try_recv(), Err(TryRecvError::Empty)));
}

#[test]
fn stop_closes_connected_subscribers() {
    let mut c = Controller::new();
    let task = c.start(4007).unwrap();
    let mut rx = task.sender.subscribe();
    c.stop();
    drop(task);
    assert!(matches!(rx.try_recv(), Err(TryRecvError::Closed)));
}

#[test]
fn slow_subscriber_is_evicted_not_waited_for() {
    let mut c = Controller::new();
    let task = c.start(4008).unwrap();
    let mut slow = task.sender.subscribe();
    for i in 0..300u16 {
        // Every call completes at once: the publisher is never blocked by a
        // subscriber that reads nothing.
        c.broadcast(vec![(i % 251) as u8]);
    }
    assert!(matches!(slow.try_recv(), Err(TryRecvError::Lagged(_))));
}

#[test]
fn no_payload_leaks_across_restart_cycles() {
    let mut c = Controller::new();
    let first_task = c.start(4009).unwrap();
    let mut first_client = first_task.sender.subscribe();
    c.broadcast(b"x".to_vec());
    c.stop();
    drop(first_task);
    let second_task = c.start(4009).unwrap();
    let mut second_client = second_task.sender.subscribe();
    c.broadcast(b"y".to_vec());
    assert_eq!(second_client.try_recv().unwrap(), b"y".to_vec());
    assert!(matches!(second_client.try_recv(), Err(TryRecvError::Empty)));
    // The first-cycle client drains what its own cycle published, then
    // observes closure; the second cycle's payload never reaches it.
    assert_eq!(first_client.try_recv().unwrap(), b"x".to_vec());
    assert!(matches!(first_client.try_recv(), Err(TryRecvError::Closed)));
}

#[test]
fn interleaved_broadcasts_reach_a_subscriber_in_completion_order() {
    let mut c = Controller::new();
    let task = c.start(4010).unwrap();
    let mut rx = task.sender.subscribe();
    // Two callers' calls complete in this interleaving; the subscriber's
    // stream matches it exactly, with no reordering.
    c.broadcast(b"a1".to_vec());
    c.broadcast(b"b1".to_vec());
    c.broadcast(b"a2".to_vec());
    c.broadcast(b"b2".to_vec());
    assert_eq!(rx.try_recv().unwrap(), b"a1".to_vec());
    assert_eq!(rx.try_recv().unwrap(), b"b1".to_vec());
    assert_eq!(rx.try_recv().unwrap(), b"a2".to_vec());
    assert_eq!(rx.try_recv().unwrap(), b"b2".to_vec());
}

#[test]
fn restart_reuses_the_cleared_state() {
    let mut c = Controller::new();
    let _ = c.start(4011).unwrap();
    c.stop();
    let task = c.start(4012).unwrap();
    assert_eq!(task.port, 4012);
    let mut rx = task.sender.subscribe();
    c.broadcast(b"fresh".to_vec());
    assert_eq!(rx.try_recv().unwrap(), b"fresh".to_vec());
}
