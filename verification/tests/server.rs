use crusty_core::codec::encode;
use crusty_core::command::CarCommand;
use crusty_core::motion::{Car, PwmConfig};
use crusty_core::server::{ack, is_ack, reenter, step, ServerEvent, ServerState};

fn test_car() -> Car {
    Car::new(PwmConfig::new(125_000_000))
}

#[test]
fn ack_is_the_three_ascii_bytes() {
    assert_eq!(ack(), b"ACK".to_vec());
    assert!(is_ack(b"ACK"));
    assert!(!is_ack(b"ACk"));
    assert!(!is_ack(b""));
    assert!(!is_ack(&[0xFF, 0x01]));
}

#[test]
fn scenario_basic_motion() {
    let mut car = test_car();
    let (state, reply) = step(ServerState::Listening, ServerEvent::AcceptOk, &mut car);
    assert_eq!(state, ServerState::Serving);
    assert!(reply.is_none());

    let frame = encode(&CarCommand::Forward(50));
    let (state, reply) = step(state, ServerEvent::Received(frame), &mut car);
    assert_eq!(state, ServerState::Serving);
    assert_eq!(reply.unwrap(), b"ACK".to_vec());
    for w in [car.front_left, car.front_right, car.rear_left, car.rear_right] {
        assert_eq!(w.forward_line, 50);
        assert_eq!(w.reverse_line, 0);
    }
}

#[test]
fn scenario_turning() {
    let mut car = test_car();
    let frame = encode(&CarCommand::TurnLeft(30));
    let (state, reply) = step(ServerState::Serving, ServerEvent::Received(frame), &mut car);
    assert_eq!(state, ServerState::Serving);
    assert_eq!(reply.unwrap(), b"ACK".to_vec());
    assert_eq!(car.front_left.reverse_line, 30);
    assert_eq!(car.rear_left.reverse_line, 30);
    assert_eq!(car.front_right.forward_line, 30);
    assert_eq!(car.rear_right.forward_line, 30);
}

#[test]
fn scenario_echo_fallback() {
    let mut car = test_car();
    let (state, reply) = step(
        ServerState::Serving,
        ServerEvent::Received(vec![0xFF, 0x01]),
        &mut car,
    );
    assert_eq!(state, ServerState::Serving);
    assert_eq!(reply.unwrap(), vec![0xFF, 0x01]);

    // The connection stayed open: a follow-up valid command is handled.
    let frame = encode(&CarCommand::Forward(10));
    let (state, reply) = step(state, ServerEvent::Received(frame), &mut car);
    assert_eq!(state, ServerState::Serving);
    assert_eq!(reply.unwrap(), b"ACK".to_vec());
    assert_eq!(car.front_left.forward_line, 10);
}

#[test]
fn garbage_of_any_length_keeps_the_connection_open() {
    let mut car = test_car();
    let mut state = ServerState::Serving;

    let frame = encode(&CarCommand::Backward(20));
    let (s, _) = step(state, ServerEvent::Received(frame), &mut car);
    state = s;

    for garbage in [vec![], vec![5], vec![0xFF, 0x01], vec![9u8; 4096]] {
        let (s, reply) = step(state, ServerEvent::Received(garbage.clone()), &mut car);
        state = s;
        assert_eq!(state, ServerState::Serving);
        assert_eq!(reply.unwrap(), garbage);
        // The garbage moved nothing.
        assert_eq!(car.front_left.reverse_line, 20);
    }

    let frame = encode(&CarCommand::Forward(70));
    let (s, reply) = step(state, ServerEvent::Received(frame), &mut car);
    assert_eq!(s, ServerState::Serving);
    assert_eq!(reply.unwrap(), b"ACK".to_vec());
    assert_eq!(car.front_left.forward_line, 70);
}

#[test]
fn scenario_timeout_closes_and_relistens() {
    let mut car = test_car();
    let (state, reply) = step(ServerState::Serving, ServerEvent::TimedOut, &mut car);
    assert_eq!(state, ServerState::Closed);
    assert!(reply.is_none());

    let state = reenter(state);
    assert_eq!(state, ServerState::Listening);

    // Ready for a new client.
    let (state, _) = step(state, ServerEvent::AcceptOk, &mut car);
    assert_eq!(state, ServerState::Serving);
}

#[test]
fn scenario_disconnect_keeps_last_commanded_state() {
    let mut car = test_car();
    let frame = encode(&CarCommand::Forward(50));
    let (state, _) = step(ServerState::Serving, ServerEvent::Received(frame), &mut car);

    let (state, reply) = step(state, ServerEvent::PeerClosed, &mut car);
    assert_eq!(state, ServerState::Closed);
    assert!(reply.is_none());
    assert_eq!(reenter(state), ServerState::Listening);

    // The car was not auto-stopped.
    for w in [car.front_left, car.front_right, car.rear_left, car.rear_right] {
        assert_eq!(w.forward_line, 50);
        assert_eq!(w.reverse_line, 0);
    }
}

#[test]
fn accept_failure_leaves_the_listener_listening() {
    let mut car = test_car();
    let (state, reply) = step(ServerState::Listening, ServerEvent::AcceptFailed, &mut car);
    assert_eq!(state, ServerState::Listening);
    assert!(reply.is_none());
}

#[test]
fn read_and_write_failures_close_only_the_connection() {
    for event in [ServerEvent::ReadFailed, ServerEvent::WriteFailed] {
        let mut car = test_car();
        car.dispatch(&CarCommand::TurnRight(15));
        let before = car;
        let (state, reply) = step(ServerState::Serving, event, &mut car);
        assert_eq!(state, ServerState::Closed);
        assert!(reply.is_none());
        assert_eq!(car, before);
        assert_eq!(reenter(state), ServerState::Listening);
    }
}
