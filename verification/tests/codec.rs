use crusty_core::codec::{decode, encode, DecodeError};
use crusty_core::command::CarCommand;

#[test]
fn round_trip_every_variant() {
    let commands = vec![
        CarCommand::Forward(0),
        CarCommand::Forward(50),
        CarCommand::Forward(100),
        CarCommand::Forward(255),
        CarCommand::Backward(1),
        CarCommand::Backward(100),
        CarCommand::TurnLeft(30),
        CarCommand::TurnRight(30),
        CarCommand::Stop,
    ];
    for c in commands {
        let bytes = encode(&c);
        assert_eq!(decode(&bytes), Ok(c));
    }
}

#[test]
fn wire_form_is_tag_then_speed() {
    assert_eq!(encode(&CarCommand::Forward(50)), vec![0, 50]);
    assert_eq!(encode(&CarCommand::Backward(7)), vec![1, 7]);
    assert_eq!(encode(&CarCommand::TurnLeft(30)), vec![2, 30]);
    assert_eq!(encode(&CarCommand::TurnRight(30)), vec![3, 30]);
    assert_eq!(encode(&CarCommand::Stop), vec![4]);
}

#[test]
fn decode_empty_input_is_truncated() {
    assert_eq!(decode(&[]), Err(DecodeError::Truncated));
}

#[test]
fn decode_missing_speed_is_truncated() {
    assert_eq!(decode(&[0]), Err(DecodeError::Truncated));
    assert_eq!(decode(&[3]), Err(DecodeError::Truncated));
}

#[test]
fn decode_unknown_tag_is_rejected() {
    assert_eq!(decode(&[0xFF, 0x01]), Err(DecodeError::UnknownVariant));
    assert_eq!(decode(&[5]), Err(DecodeError::UnknownVariant));
}

#[test]
fn decode_trailing_bytes_are_rejected() {
    assert_eq!(decode(&[4, 0]), Err(DecodeError::TrailingBytes));
    assert_eq!(decode(&[0, 50, 1]), Err(DecodeError::TrailingBytes));
}

#[test]
fn decode_never_panics_on_oversized_input() {
    let big = vec![2u8; 4096];
    assert_eq!(decode(&big), Err(DecodeError::TrailingBytes));
}

#[test]
fn wire_form_matches_bincode_standard_encoding() {
    // The wire protocol is the bincode standard encoding of the command
    // enum: the variant index as a one-byte varint, then the speed byte.
    let config = bincode::config::standard();
    for (tag, c) in [
        (0u32, CarCommand::Forward(50)),
        (1u32, CarCommand::Backward(50)),
        (2u32, CarCommand::TurnLeft(50)),
        (3u32, CarCommand::TurnRight(50)),
    ] {
        let reference = bincode::encode_to_vec((tag, 50u8), config).unwrap();
        assert_eq!(encode(&c), reference);
    }
    let stop_reference = bincode::encode_to_vec(4u32, config).unwrap();
    assert_eq!(encode(&CarCommand::Stop), stop_reference);
}

#[test]
fn decode_matches_bincode_standard_decoding() {
    let config = bincode::config::standard();
    let bytes = encode(&CarCommand::TurnLeft(9));
    let ((tag, speed), read): ((u32, u8), usize) =
        bincode::decode_from_slice(&bytes, config).unwrap();
    assert_eq!((tag, speed), (2, 9));
    assert_eq!(read, bytes.len());
}
