use vstd::prelude::*;

use crate::codec::decode;
use crate::codec::decoded;
use crate::command::CarCommand;
use crate::motion::Car;

verus! {

/// TCP port the node listens on.
pub const COMMAND_PORT: u16 = 1234;

/// Per-read inactivity timeout on an open connection, in seconds.
pub const READ_TIMEOUT_SECS: u64 = 10;

/// Size of the connection's receive and send buffers, in bytes.
pub const BUFFER_BYTES: usize = 4096;

/// Connection-handling states of the command server. Exactly one connection
/// is served at a time: the listener does not accept again until the current
/// connection is fully closed.
#[derive(Clone, Copy, Debug, PartialEq, Eq, Structural)]
pub enum ServerState {
    /// No connection exists; the server blocks on accept.
    Listening,
    /// One connection is open; the server blocks on a timed read.
    Serving,
    /// The connection has just ended; the server re-enters accept next.
    Closed,
}

/// One observable I/O outcome on the listener or the open connection, handed
/// to the state machine by the runtime that owns the sockets.
#[derive(Debug)]
pub enum ServerEvent {
    /// accept returned a connection.
    AcceptOk,
    /// accept failed.
    AcceptFailed,
    /// A read returned these bytes.
    Received(Vec<u8>),
    /// A read returned zero bytes: the peer closed its end.
    PeerClosed,
    /// No data arrived within `READ_TIMEOUT_SECS`.
    TimedOut,
    /// The read failed.
    ReadFailed,
    /// Writing the previous reply failed.
    WriteFailed,
}

/// The fixed 3-byte acknowledgment, ASCII "ACK".
pub open spec fn ack_bytes() -> Seq<u8> {
    seq![65u8, 67u8, 75u8]
}

/// The state the server is in after one event. A failed accept leaves it
/// listening; received bytes — well formed or not — keep the connection
/// open; peer close, timeout, and read or write failure end only the current
/// connection; and a closed connection returns to listening whatever happens.
pub open spec fn next_state(s: ServerState, e: ServerEvent) -> ServerState {
    match s {
        ServerState::Listening => match e {
            ServerEvent::AcceptOk => ServerState::Serving,
            _ => ServerState::Listening,
        },
        ServerState::Serving => match e {
            ServerEvent::Received(_) => ServerState::Serving,
            ServerEvent::AcceptOk => ServerState::Serving,
            ServerEvent::AcceptFailed => ServerState::Serving,
            ServerEvent::PeerClosed => ServerState::Closed,
            ServerEvent::TimedOut => ServerState::Closed,
            ServerEvent::ReadFailed => ServerState::Closed,
            ServerEvent::WriteFailed => ServerState::Closed,
        },
        ServerState::Closed => ServerState::Listening,
    }
}

/// What the server sends back for one event: "ACK" for a frame that decodes,
/// the received bytes echoed verbatim for one that does not (the deliberate
/// fail-soft diagnostic path), and nothing otherwise.
pub open spec fn reply_of(s: ServerState, e: ServerEvent) -> Option<Seq<u8>> {
    match e {
        ServerEvent::Received(data) => if s is Serving {
            if decoded(data@) is Ok {
                Some(ack_bytes())
            } else {
                Some(data@)
            }
        } else {
            None
        },
        _ => None,
    }
}

/// The car state after one event: only a frame that decodes moves the car.
/// In particular the car keeps its last commanded state when a connection
/// ends — closing is deliberately not an automatic stop (a documented design
/// decision, so that a dropped session leaves the vehicle as last commanded).
pub open spec fn car_after(car: Car, s: ServerState, e: ServerEvent) -> Car {
    match e {
        ServerEvent::Received(data) => if s is Serving {
            match decoded(data@) {
                Ok(c) => car.after(c),
                Err(_) => car,
            }
        } else {
            car
        },
        _ => car,
    }
}

/// Build the acknowledgment frame.
pub fn ack() -> (r: Vec<u8>)
    ensures
        r@ == ack_bytes(),
{
    let mut out: Vec<u8> = Vec::new();
    out.push(65);
    out.push(67);
    out.push(75);
    proof {
        assert(out@ =~= ack_bytes());
    }
    out
}

/// Whether a client-side read of the server's reply is the acknowledgment.
pub fn is_ack(reply: &[u8]) -> (r: bool)
    ensures
        r == (reply@ == ack_bytes()),
{
    let r = reply.len() == 3 && reply[0] == 65 && reply[1] == 67 && reply[2] == 75;
    proof {
        if r {
            assert(reply@ =~= ack_bytes());
        }
    }
    r
}

/// Take one step of the server state machine: from the current state and one
/// I/O outcome, compute the next state, apply a decoded command to the car,
/// and produce the bytes to send back, if any. This is the whole decision
/// logic of the server; the runtime around it only performs the accepts,
/// reads and writes it calls for.
pub fn step(state: ServerState, event: ServerEvent, car: &mut Car) -> (r: (
    ServerState,
    Option<Vec<u8>>,
))
    ensures
        r.0 == next_state(state, event),
        *final(car) == car_after(*old(car), state, event),
        match r.1 {
            Some(m) => reply_of(state, event) == Some(m@),
            None => reply_of(state, event) is None,
        },
        old(car).wf() ==> final(car).wf(),
{
    match state {
        ServerState::Listening => match event {
            ServerEvent::AcceptOk => (ServerState::Serving, None),
            _ => (ServerState::Listening, None),
        },
        ServerState::Serving => match event {
            ServerEvent::Received(data) => match decode(data.as_slice()) {
                Ok(c) => {
                    car.dispatch(&c);
                    (ServerState::Serving, Some(ack()))
                },
                Err(_) => (ServerState::Serving, Some(data)),
            },
            ServerEvent::AcceptOk => (ServerState::Serving, None),
            ServerEvent::AcceptFailed => (ServerState::Serving, None),
            _ => (ServerState::Closed, None),
        },
        ServerState::Closed => (ServerState::Listening, None),
    }
}

/// The transition the server takes with no input: a just-closed connection
/// immediately puts it back to listening; the other states wait for an event.
pub open spec fn reentered(s: ServerState) -> ServerState {
    if s is Closed {
        ServerState::Listening
    } else {
        s
    }
}

/// Leave the transient `Closed` state: the runtime calls this right after a
/// connection ends, before blocking on accept again.
pub fn reenter(state: ServerState) -> (r: ServerState)
    ensures
        r == reentered(state),
{
    match state {
        ServerState::Closed => ServerState::Listening,
        _ => state,
    }
}

/// Fail soft: a frame that does not decode never ends the session. The
/// server stays in `Serving`, echoes the bytes back verbatim, and leaves the
/// car untouched, whatever the frame's length — empty included.
pub proof fn lemma_fail_soft(car: Car, data: Vec<u8>)
    requires
        decoded(data@) is Err,
    ensures
        next_state(ServerState::Serving, ServerEvent::Received(data)) == ServerState::Serving,
        reply_of(ServerState::Serving, ServerEvent::Received(data)) == Some(data@),
        car_after(car, ServerState::Serving, ServerEvent::Received(data)) == car,
{
}

/// A garbage frame between two reads changes nothing for the read after it:
/// the connection is still serving, and a well-formed command that follows is
/// dispatched exactly as if the garbage had never arrived.
pub proof fn lemma_garbage_then_valid(car: Car, garbage: Vec<u8>, frame: Vec<u8>, c: CarCommand)
    requires
        decoded(garbage@) is Err,
        decoded(frame@) == Ok::<CarCommand, crate::codec::DecodeError>(c),
    ensures
        ({
            let s1 = next_state(ServerState::Serving, ServerEvent::Received(garbage));
            let car1 = car_after(car, ServerState::Serving, ServerEvent::Received(garbage));
            &&& s1 == ServerState::Serving
            &&& car1 == car
            &&& next_state(s1, ServerEvent::Received(frame)) == ServerState::Serving
            &&& car_after(car1, s1, ServerEvent::Received(frame)) == car.after(c)
            &&& reply_of(s1, ServerEvent::Received(frame)) == Some(ack_bytes())
        }),
{
}

/// An inactivity timeout closes only the connection: the server is back to
/// listening — ready to accept a new client — and the car keeps its last
/// commanded state.
pub proof fn lemma_timeout_closes(car: Car)
    ensures
        next_state(ServerState::Serving, ServerEvent::TimedOut) == ServerState::Closed,
        reentered(next_state(ServerState::Serving, ServerEvent::TimedOut))
            == ServerState::Listening,
        car_after(car, ServerState::Serving, ServerEvent::TimedOut) == car,
        reply_of(ServerState::Serving, ServerEvent::TimedOut) is None,
{
}

/// A peer disconnect (a read of zero bytes) moves the server through
/// `Closed` back to `Listening`, and the car's last commanded wheel state is
/// unchanged: there is deliberately no automatic stop on connection loss.
pub proof fn lemma_disconnect_keeps_last_command(car: Car)
    ensures
        next_state(ServerState::Serving, ServerEvent::PeerClosed) == ServerState::Closed,
        reentered(next_state(ServerState::Serving, ServerEvent::PeerClosed))
            == ServerState::Listening,
        car_after(car, ServerState::Serving, ServerEvent::PeerClosed) == car,
{
}

/// Socket failures are local to one connection: read and write errors close
/// it, a failed accept leaves the listener listening, and none of them moves
/// the car.
pub proof fn lemma_socket_errors_local(car: Car)
    ensures
        next_state(ServerState::Listening, ServerEvent::AcceptFailed) == ServerState::Listening,
        next_state(ServerState::Serving, ServerEvent::ReadFailed) == ServerState::Closed,
        next_state(ServerState::Serving, ServerEvent::WriteFailed) == ServerState::Closed,
        car_after(car, ServerState::Listening, ServerEvent::AcceptFailed) == car,
        car_after(car, ServerState::Serving, ServerEvent::ReadFailed) == car,
        car_after(car, ServerState::Serving, ServerEvent::WriteFailed) == car,
{
}

} // verus!
