use dawfu::frames::{
    encode_ack_frame, encode_face_select_frame, encode_prep_frame, parse_frame, Frame,
    GALLERY_FACE_SLOT,
};

#[test]
fn prep_round_trip_boundaries() {
    for len in [0u32, 1, 244, 488, 0xffff_ffff] {
        let frame = encode_prep_frame(len);
        assert_eq!(parse_frame(&frame), Frame::AllDone { value: len });
    }
}

#[test]
fn prep_frame_exact_bytes() {
    assert_eq!(
        encode_prep_frame(500),
        vec![0xfe, 0xea, 0x20, 0x09, 0x74, 0x00, 0x00, 0x01, 0xf4]
    );
}

#[test]
fn ack_frame_exact_bytes() {
    assert_eq!(
        encode_ack_frame(),
        vec![0xfe, 0xea, 0x20, 0x09, 0x74, 0x00, 0x00, 0x00, 0x00]
    );
}

#[test]
fn face_select_exact_bytes() {
    assert_eq!(
        encode_face_select_frame(GALLERY_FACE_SLOT),
        vec![0xfe, 0xea, 0x20, 0x06, 0x19, 0x0d]
    );
}

#[test]
fn parse_chunk_request() {
    assert_eq!(
        parse_frame(&[0xfe, 0xea, 0x20, 0x07, 0x74, 0x00, 0x02]),
        Frame::ChunkRequest { index: 2 }
    );
    assert_eq!(
        parse_frame(&[0xfe, 0xea, 0x20, 0x07, 0x74, 0x01, 0x00]),
        Frame::ChunkRequest { index: 256 }
    );
}

#[test]
fn parse_all_done() {
    assert_eq!(
        parse_frame(&[0xfe, 0xea, 0x20, 0x09, 0x74, 0x12, 0x34, 0x56, 0x78]),
        Frame::AllDone { value: 0x1234_5678 }
    );
}

#[test]
fn parse_short_input_unrecognized() {
    assert_eq!(parse_frame(&[]), Frame::Unrecognized);
    assert_eq!(parse_frame(&[0xfe, 0xea, 0x20, 0x07]), Frame::Unrecognized);
}

#[test]
fn parse_bad_header_unrecognized() {
    assert_eq!(
        parse_frame(&[0xfe, 0xea, 0x21, 0x07, 0x74, 0x00, 0x02]),
        Frame::Unrecognized
    );
    assert_eq!(
        parse_frame(&[0x00, 0xea, 0x20, 0x09, 0x74, 0, 0, 0, 0]),
        Frame::Unrecognized
    );
}

#[test]
fn parse_unknown_opcode() {
    assert_eq!(
        parse_frame(&[0xfe, 0xea, 0x20, 0x05, 0x74, 0x00]),
        Frame::UnknownOpcode
    );
    // A known opcode without the fixed trailer names no known frame.
    assert_eq!(
        parse_frame(&[0xfe, 0xea, 0x20, 0x07, 0x00, 0x00, 0x02]),
        Frame::UnknownOpcode
    );
}

#[test]
fn parse_truncated_frames() {
    assert_eq!(
        parse_frame(&[0xfe, 0xea, 0x20, 0x07, 0x74, 0x00]),
        Frame::Truncated
    );
    assert_eq!(
        parse_frame(&[0xfe, 0xea, 0x20, 0x09, 0x74, 0x00, 0x00, 0x00]),
        Frame::Truncated
    );
}
