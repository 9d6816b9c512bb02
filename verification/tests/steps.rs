//! Tests of the two verified decision functions: the per-client session
//! policy and the listener loop's state machine.

use fanout_server::listener::ListenerCommand;
use fanout_server::listener::ListenerEvent;
use fanout_server::listener::ListenerPhase;
use fanout_server::listener::listener_step;
use fanout_server::session::SessionCommand;
use fanout_server::session::SessionEvent;
use fanout_server::session::session_step;

#[test]
fn session_relays_each_delivered_payload() {
    let cmd = session_step(SessionEvent::Received(b"payload".to_vec()));
    assert_eq!(cmd, SessionCommand::Write(b"payload".to_vec()));
}

#[test]
fn session_waits_again_after_a_complete_write() {
    assert_eq!(session_step(SessionEvent::WriteFinished), SessionCommand::AwaitNext);
}

#[test]
fn session_ends_on_closure_lag_and_write_failure() {
    assert_eq!(session_step(SessionEvent::ChannelClosed), SessionCommand::Shutdown);
    assert_eq!(session_step(SessionEvent::LagOverrun), SessionCommand::Shutdown);
    assert_eq!(session_step(SessionEvent::WriteFailed), SessionCommand::Shutdown);
}

#[test]
fn listener_binds_then_listens() {
    let (phase, cmd) = listener_step(ListenerPhase::Binding, ListenerEvent::BindSucceeded);
    assert_eq!(phase, ListenerPhase::Listening);
    assert_eq!(cmd, ListenerCommand::AwaitEvent);
}

#[test]
fn listener_gives_up_after_a_failed_bind() {
    let (phase, cmd) = listener_step(ListenerPhase::Binding, ListenerEvent::BindFailed);
    assert_eq!(phase, ListenerPhase::Terminated);
    assert_eq!(cmd, ListenerCommand::Exit);
}

#[test]
fn listener_spawns_a_session_per_accepted_connection() {
    let (phase, cmd) = listener_step(ListenerPhase::Listening, ListenerEvent::ConnectionAccepted);
    assert_eq!(phase, ListenerPhase::Listening);
    assert_eq!(cmd, ListenerCommand::SpawnSession);
}

#[test]
fn listener_survives_accept_errors() {
    let (phase, cmd) = listener_step(ListenerPhase::Listening, ListenerEvent::AcceptFailed);
    assert_eq!(phase, ListenerPhase::Listening);
    assert_eq!(cmd, ListenerCommand::AwaitEvent);
}

#[test]
fn listener_terminates_on_the_stop_signal() {
    for phase in [ListenerPhase::Binding, ListenerPhase::Listening, ListenerPhase::Terminated] {
        let (next, cmd) = listener_step(phase, ListenerEvent::StopRequested);
        assert_eq!(next, ListenerPhase::Terminated);
        assert_eq!(cmd, ListenerCommand::Exit);
    }
}

#[test]
fn terminated_listener_stays_terminated() {
    for event in [
        ListenerEvent::BindSucceeded,
        ListenerEvent::BindFailed,
        ListenerEvent::ConnectionAccepted,
        ListenerEvent::AcceptFailed,
        ListenerEvent::StopRequested,
    ] {
        let (next, cmd) = listener_step(ListenerPhase::Terminated, event);
        assert_eq!(next, ListenerPhase::Terminated);
        assert_eq!(cmd, ListenerCommand::Exit);
    }
}
