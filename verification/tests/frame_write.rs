use bytes::BytesMut;
use ratchet::protocol::frame::{
    frame_buffer, write_into, CloseCode, CloseReason, ControlCode, DataCode, Frame, FrameKind,
    Message, OpCode,
};
use ratchet::protocol::{HeaderFlags, FIN, MASKED, RSV_1};

fn written(flags_bits: u8, opcode: OpCode, payload: &[u8], mask: u32) -> Vec<u8> {
    let mut dst = BytesMut::new();
    let mut payload = payload.to_vec();
    write_into(
        &mut dst,
        HeaderFlags { bits: flags_bits },
        opcode,
        &mut payload,
        mask,
    );
    dst.to_vec()
}

#[test]
fn fresh_frame_buffer_is_empty() {
    let dst = frame_buffer();
    assert!(dst.is_empty());
}

#[test]
fn text_frame_hi_unmasked() {
    let out = written(FIN, OpCode::DataCode(DataCode::Text), b"hi", 0);
    assert_eq!(out, vec![0x81, 0x02, 0x68, 0x69]);
}

#[test]
fn binary_frame_empty_masked_zero_key() {
    let out = written(FIN | MASKED, OpCode::DataCode(DataCode::Binary), b"", 0);
    assert_eq!(out, vec![0x82, 0x80, 0x00, 0x00, 0x00, 0x00]);
}

#[test]
fn ping_frame_uses_sixteen_bit_length_for_130_bytes() {
    let payload = vec![0x55u8; 130];
    let out = written(FIN, OpCode::ControlCode(ControlCode::Ping), &payload, 0);
    assert_eq!(&out[..4], &[0x89, 126, 0x00, 0x82]);
    assert_eq!(&out[4..], &payload[..]);
}

#[test]
fn length_125_fits_the_seven_bit_field() {
    let payload = vec![0xAAu8; 125];
    let out = written(FIN, OpCode::DataCode(DataCode::Binary), &payload, 0);
    assert_eq!(&out[..2], &[0x82, 125]);
    assert_eq!(out.len(), 2 + 125);
    assert_eq!(&out[2..], &payload[..]);
}

#[test]
fn length_126_needs_the_sixteen_bit_field() {
    let payload = vec![0xABu8; 126];
    let out = written(FIN, OpCode::DataCode(DataCode::Binary), &payload, 0);
    assert_eq!(&out[..4], &[0x82, 126, 0x00, 0x7E]);
    assert_eq!(out.len(), 4 + 126);
    assert_eq!(&out[4..], &payload[..]);
}

#[test]
fn length_65535_still_fits_the_sixteen_bit_field() {
    let payload = vec![0x01u8; 65535];
    let out = written(FIN, OpCode::DataCode(DataCode::Binary), &payload, 0);
    assert_eq!(&out[..4], &[0x82, 126, 0xFF, 0xFF]);
    assert_eq!(out.len(), 4 + 65535);
    assert_eq!(&out[4..], &payload[..]);
}

#[test]
fn length_65536_needs_the_sixty_four_bit_field() {
    let payload = vec![0x02u8; 65536];
    let out = written(FIN, OpCode::DataCode(DataCode::Binary), &payload, 0);
    assert_eq!(
        &out[..10],
        &[0x82, 127, 0x00, 0x00, 0x00, 0x00, 0x00, 0x01, 0x00, 0x00]
    );
    assert_eq!(out.len(), 10 + 65536);
    assert_eq!(&out[10..], &payload[..]);
}

#[test]
fn masked_output_differs_from_unmasked_by_key_and_xor_pattern() {
    let payload = b"abcdefg";
    let mask = 0x1122_3344u32;
    let unmasked = written(FIN, OpCode::DataCode(DataCode::Text), payload, mask);
    let masked = written(FIN | MASKED, OpCode::DataCode(DataCode::Text), payload, mask);

    // Same first byte; the masked frame sets the mask-present bit of byte 1.
    assert_eq!(unmasked[0], 0x81);
    assert_eq!(masked[0], 0x81);
    assert_eq!(unmasked[1], 7);
    assert_eq!(masked[1], 0x80 | 7);

    // Four key bytes, little-endian, immediately after the length field.
    assert_eq!(masked.len(), unmasked.len() + 4);
    assert_eq!(&masked[2..6], &[0x44, 0x33, 0x22, 0x11]);

    // Payload bytes differ by exactly the big-endian key pattern.
    let pattern = [0x11u8, 0x22, 0x33, 0x44];
    for i in 0..payload.len() {
        assert_eq!(masked[6 + i], unmasked[2 + i] ^ pattern[i % 4]);
    }
}

#[test]
fn masking_mutates_the_payload_in_place_exactly_once() {
    let mut dst = BytesMut::new();
    let mut payload = b"abcd".to_vec();
    let mask = 0x0102_0304u32;
    write_into(
        &mut dst,
        HeaderFlags { bits: FIN | MASKED },
        OpCode::DataCode(DataCode::Binary),
        &mut payload,
        mask,
    );
    let expected: Vec<u8> = b"abcd"
        .iter()
        .zip([0x01u8, 0x02, 0x03, 0x04])
        .map(|(b, k)| b ^ k)
        .collect();
    assert_eq!(payload, expected);
    assert_eq!(&dst[6..], &expected[..]);
}

#[test]
fn write_into_appends_to_what_is_already_buffered() {
    let mut dst = BytesMut::new();
    let mut first_payload = b"hi".to_vec();
    write_into(
        &mut dst,
        HeaderFlags { bits: FIN },
        OpCode::DataCode(DataCode::Text),
        &mut first_payload,
        0,
    );
    let mut second_payload = b"yo".to_vec();
    write_into(
        &mut dst,
        HeaderFlags { bits: FIN },
        OpCode::DataCode(DataCode::Text),
        &mut second_payload,
        0,
    );
    assert_eq!(
        dst.to_vec(),
        vec![0x81, 0x02, 0x68, 0x69, 0x81, 0x02, 0x79, 0x6F]
    );
}

#[test]
fn rsv_bits_reach_the_first_header_byte() {
    let out = written(FIN | RSV_1, OpCode::DataCode(DataCode::Text), b"", 0);
    assert_eq!(out, vec![0xC1, 0x00]);
}

#[test]
fn frame_and_close_reason_hold_their_parts() {
    let frame = Frame {
        data: bytes::Bytes::from_static(b"bye"),
        kind: FrameKind::Close(Some(CloseReason {
            code: CloseCode::GoingAway,
            description: Some("going away".to_string()),
        })),
    };
    assert_eq!(&frame.data[..], b"bye");
    match frame.kind {
        FrameKind::Close(Some(reason)) => {
            assert!(matches!(reason.code, CloseCode::GoingAway));
            assert_eq!(reason.description.as_deref(), Some("going away"));
        }
        _ => panic!("expected a close frame with a reason"),
    }
}

#[test]
fn message_variants_carry_their_payloads() {
    let text = Message::Text("hello".to_string());
    let ping = Message::Ping(vec![1, 2, 3]);
    match text {
        Message::Text(s) => assert_eq!(s, "hello"),
        _ => panic!("expected a text message"),
    }
    match ping {
        Message::Ping(p) => assert_eq!(p, vec![1, 2, 3]),
        _ => panic!("expected a ping message"),
    }
}
