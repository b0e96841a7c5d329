use vstd::prelude::*;

use crate::command::CarCommand;

verus! {

/// Wire tag of `CarCommand::Forward`.
pub const TAG_FORWARD: u8 = 0;
/// Wire tag of `CarCommand::Backward`.
pub const TAG_BACKWARD: u8 = 1;
/// Wire tag of `CarCommand::TurnLeft`.
pub const TAG_TURN_LEFT: u8 = 2;
/// Wire tag of `CarCommand::TurnRight`.
pub const TAG_TURN_RIGHT: u8 = 3;
/// Wire tag of `CarCommand::Stop`.
pub const TAG_STOP: u8 = 4;

/// Why a byte sequence is not a command.
#[derive(Clone, Copy, Debug, PartialEq, Eq, Structural)]
pub enum DecodeError {
    /// The input ended before the command was complete (empty input, or a
    /// speed-carrying tag with no speed byte).
    Truncated,
    /// The first byte names no command variant.
    UnknownVariant,
    /// Bytes remained after a complete command.
    TrailingBytes,
}

/// The wire form of a command: its variant tag, followed by the speed byte
/// for the four variants that carry one. Each command has exactly one wire
/// form, of minimal length (two bytes with a speed, one without).
pub open spec fn encoding(c: CarCommand) -> Seq<u8> {
    match c {
        CarCommand::Forward(s) => seq![TAG_FORWARD, s],
        CarCommand::Backward(s) => seq![TAG_BACKWARD, s],
        CarCommand::TurnLeft(s) => seq![TAG_TURN_LEFT, s],
        CarCommand::TurnRight(s) => seq![TAG_TURN_RIGHT, s],
        CarCommand::Stop => seq![TAG_STOP],
    }
}

/// The command carried by a speed-carrying tag (`TAG_FORWARD` through
/// `TAG_TURN_RIGHT`) and its speed byte.
pub open spec fn speed_command(tag: u8, speed: u8) -> CarCommand {
    if tag == TAG_FORWARD {
        CarCommand::Forward(speed)
    } else if tag == TAG_BACKWARD {
        CarCommand::Backward(speed)
    } else if tag == TAG_TURN_LEFT {
        CarCommand::TurnLeft(speed)
    } else {
        CarCommand::TurnRight(speed)
    }
}

/// What any byte sequence decodes to: the unique command whose wire form it
/// is, or the error that names the first thing wrong with it. Trailing bytes
/// are rejected so that one read holds at most one command.
pub open spec fn decoded(bytes: Seq<u8>) -> Result<CarCommand, DecodeError> {
    if bytes.len() == 0 {
        Err(DecodeError::Truncated)
    } else if bytes[0] <= TAG_TURN_RIGHT {
        if bytes.len() < 2 {
            Err(DecodeError::Truncated)
        } else if bytes.len() > 2 {
            Err(DecodeError::TrailingBytes)
        } else {
            Ok(speed_command(bytes[0], bytes[1]))
        }
    } else if bytes[0] == TAG_STOP {
        if bytes.len() == 1 {
            Ok(CarCommand::Stop)
        } else {
            Err(DecodeError::TrailingBytes)
        }
    } else {
        Err(DecodeError::UnknownVariant)
    }
}

/// Encode a command into its wire form.
pub fn encode(c: &CarCommand) -> (r: Vec<u8>)
    ensures
        r@ == encoding(*c),
{
    let mut out: Vec<u8> = Vec::new();
    match c {
        CarCommand::Forward(s) => {
            out.push(TAG_FORWARD);
            out.push(*s);
        },
        CarCommand::Backward(s) => {
            out.push(TAG_BACKWARD);
            out.push(*s);
        },
        CarCommand::TurnLeft(s) => {
            out.push(TAG_TURN_LEFT);
            out.push(*s);
        },
        CarCommand::TurnRight(s) => {
            out.push(TAG_TURN_RIGHT);
            out.push(*s);
        },
        CarCommand::Stop => {
            out.push(TAG_STOP);
        },
    }
    proof {
        assert(out@ =~= encoding(*c));
    }
    out
}

/// Decode one received frame. Never panics: every input length, zero
/// included, yields either the framed command or a `DecodeError`.
pub fn decode(bytes: &[u8]) -> (r: Result<CarCommand, DecodeError>)
    ensures
        r == decoded(bytes@),
{
    if bytes.len() == 0 {
        Err(DecodeError::Truncated)
    } else {
        let tag = bytes[0];
        if tag <= TAG_TURN_RIGHT {
            if bytes.len() < 2 {
                Err(DecodeError::Truncated)
            } else if bytes.len() > 2 {
                Err(DecodeError::TrailingBytes)
            } else {
                let speed = bytes[1];
                if tag == TAG_FORWARD {
                    Ok(CarCommand::Forward(speed))
                } else if tag == TAG_BACKWARD {
                    Ok(CarCommand::Backward(speed))
                } else if tag == TAG_TURN_LEFT {
                    Ok(CarCommand::TurnLeft(speed))
                } else {
                    Ok(CarCommand::TurnRight(speed))
                }
            }
        } else if tag == TAG_STOP {
            if bytes.len() == 1 {
                Ok(CarCommand::Stop)
            } else {
                Err(DecodeError::TrailingBytes)
            }
        } else {
            Err(DecodeError::UnknownVariant)
        }
    }
}

/// Round trip: every constructible command decodes back from its own wire
/// form. Together with `lemma_decode_sound` this makes the wire forms exactly
/// the decodable sequences, and the encoding injective.
pub proof fn lemma_round_trip(c: CarCommand)
    ensures
        decoded(encoding(c)) == Ok::<CarCommand, DecodeError>(c),
{
}

/// The wire forms distinguish all five variants and their speeds: no two
/// commands share an encoding.
pub proof fn lemma_encoding_injective(c1: CarCommand, c2: CarCommand)
    requires
        encoding(c1) == encoding(c2),
    ensures
        c1 == c2,
{
    lemma_round_trip(c1);
    lemma_round_trip(c2);
}

/// Soundness of decoding: whatever decodes to a command is that command's
/// wire form, so decoding succeeds on nothing but the five variants' frames.
pub proof fn lemma_decode_sound(bytes: Seq<u8>)
    ensures
        decoded(bytes) matches Ok(c) ==> bytes == encoding(c),
{
    if decoded(bytes) is Ok {
        let c = decoded(bytes)->Ok_0;
        assert(bytes =~= encoding(c));
    }
}

} // verus!
