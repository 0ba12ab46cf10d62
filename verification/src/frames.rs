//! The wire codec: command frames the engine writes and notification
//! frames the device sends back.
//!
//! Every protocol frame opens with the fixed header `FE EA 20`, then an
//! opcode byte, then one more fixed byte (`74` for transfer frames, `19`
//! for face selection). Opcode `0x07` carries a two-byte big-endian chunk
//! index; opcode `0x09` carries a four-byte big-endian value, read as the
//! payload length in the prep command and as the device's completion
//! value in the all-done notification.

use vstd::prelude::*;

verus! {

/// First byte of every protocol frame.
pub const FRAME_HEADER_0: u8 = 0xfe;

/// Second byte of every protocol frame.
pub const FRAME_HEADER_1: u8 = 0xea;

/// Third byte of every protocol frame.
pub const FRAME_HEADER_2: u8 = 0x20;

/// Opcode of the chunk-request notification.
pub const OP_CHUNK_REQUEST: u8 = 0x07;

/// Opcode shared by the prep command, the all-done notification and the
/// completion acknowledgment.
pub const OP_TRANSFER: u8 = 0x09;

/// Fixed fifth byte of transfer frames.
pub const FRAME_TRAILER: u8 = 0x74;

/// Opcode of the face-select command.
pub const OP_FACE_SELECT: u8 = 0x06;

/// Fixed fifth byte of the face-select command.
pub const FACE_SELECT_TAG: u8 = 0x19;

/// Storage slot of the watch-gallery face, the slot the uploaded image
/// is activated in.
pub const GALLERY_FACE_SLOT: u8 = 0x0d;

/// A received frame, as the dispatcher sees it.
#[derive(Clone, Copy, Debug, PartialEq, Eq, Structural)]
pub enum Frame {
    /// Header, opcode `0x07` and trailer match: the device asks for the
    /// chunk with this index.
    ChunkRequest { index: u16 },
    /// Header, opcode `0x09` and trailer match: the device reports the
    /// transfer complete, carrying an opaque four-byte value.
    AllDone { value: u32 },
    /// Shorter than five bytes, or the three header bytes mismatch: not a
    /// protocol frame, never matched against an opcode.
    Unrecognized,
    /// Header matches but the opcode and trailer name no known frame.
    UnknownOpcode,
    /// Header, opcode and trailer match a known frame whose declared
    /// fields do not fit in the bytes received.
    Truncated,
}

/// The two-byte big-endian value `hi lo`.
pub open spec fn spec_be16(hi: u8, lo: u8) -> u16 {
    ((hi as u16) << 8) | (lo as u16)
}

/// The four-byte big-endian value `b0 b1 b2 b3`.
pub open spec fn spec_be32(b0: u8, b1: u8, b2: u8, b3: u8) -> u32 {
    ((b0 as u32) << 24) | ((b1 as u32) << 16) | ((b2 as u32) << 8) | (b3 as u32)
}

/// The prep command announcing a payload of `len` bytes.
pub open spec fn spec_prep_frame(len: u32) -> Seq<u8> {
    seq![
        FRAME_HEADER_0,
        FRAME_HEADER_1,
        FRAME_HEADER_2,
        OP_TRANSFER,
        FRAME_TRAILER,
        (len >> 24) as u8,
        (len >> 16) as u8,
        (len >> 8) as u8,
        len as u8,
    ]
}

/// The fixed acknowledgment sent after the all-done notification.
pub open spec fn spec_ack_frame() -> Seq<u8> {
    seq![
        FRAME_HEADER_0,
        FRAME_HEADER_1,
        FRAME_HEADER_2,
        OP_TRANSFER,
        FRAME_TRAILER,
        0u8,
        0u8,
        0u8,
        0u8,
    ]
}

/// The command activating the stored face at `slot`.
pub open spec fn spec_face_select_frame(slot: u8) -> Seq<u8> {
    seq![
        FRAME_HEADER_0,
        FRAME_HEADER_1,
        FRAME_HEADER_2,
        OP_FACE_SELECT,
        FACE_SELECT_TAG,
        slot,
    ]
}

/// How a received byte sequence is classified and decoded.
pub open spec fn spec_parse_frame(data: Seq<u8>) -> Frame {
    if data.len() < 5 {
        Frame::Unrecognized
    } else if data[0] != FRAME_HEADER_0 || data[1] != FRAME_HEADER_1 || data[2] != FRAME_HEADER_2 {
        Frame::Unrecognized
    } else if data[3] == OP_CHUNK_REQUEST && data[4] == FRAME_TRAILER {
        if data.len() < 7 {
            Frame::Truncated
        } else {
            Frame::ChunkRequest { index: spec_be16(data[5], data[6]) }
        }
    } else if data[3] == OP_TRANSFER && data[4] == FRAME_TRAILER {
        if data.len() < 9 {
            Frame::Truncated
        } else {
            Frame::AllDone { value: spec_be32(data[5], data[6], data[7], data[8]) }
        }
    } else {
        Frame::UnknownOpcode
    }
}

/// Classify and decode a received notification.
pub fn parse_frame(data: &[u8]) -> (r: Frame)
    ensures
        r == spec_parse_frame(data@),
{
    if data.len() < 5 {
        Frame::Unrecognized
    } else if data[0] != FRAME_HEADER_0 || data[1] != FRAME_HEADER_1 || data[2] != FRAME_HEADER_2 {
        Frame::Unrecognized
    } else if data[3] == OP_CHUNK_REQUEST && data[4] == FRAME_TRAILER {
        if data.len() < 7 {
            Frame::Truncated
        } else {
            Frame::ChunkRequest { index: ((data[5] as u16) << 8) | (data[6] as u16) }
        }
    } else if data[3] == OP_TRANSFER && data[4] == FRAME_TRAILER {
        if data.len() < 9 {
            Frame::Truncated
        } else {
            Frame::AllDone {
                value: ((data[5] as u32) << 24) | ((data[6] as u32) << 16) | ((data[7] as u32) << 8)
                    | (data[8] as u32),
            }
        }
    } else {
        Frame::UnknownOpcode
    }
}

/// Build the prep command announcing a payload of `len` bytes.
pub fn encode_prep_frame(len: u32) -> (r: Vec<u8>)
    ensures
        r@ == spec_prep_frame(len),
{
    let mut r: Vec<u8> = Vec::new();
    r.push(FRAME_HEADER_0);
    r.push(FRAME_HEADER_1);
    r.push(FRAME_HEADER_2);
    r.push(OP_TRANSFER);
    r.push(FRAME_TRAILER);
    r.push((len >> 24) as u8);
    r.push((len >> 16) as u8);
    r.push((len >> 8) as u8);
    r.push(len as u8);
    proof {
        assert(r@ =~= spec_prep_frame(len));
    }
    r
}

/// Build the fixed acknowledgment sent after the all-done notification.
pub fn encode_ack_frame() -> (r: Vec<u8>)
    ensures
        r@ == spec_ack_frame(),
{
    let mut r: Vec<u8> = Vec::new();
    r.push(FRAME_HEADER_0);
    r.push(FRAME_HEADER_1);
    r.push(FRAME_HEADER_2);
    r.push(OP_TRANSFER);
    r.push(FRAME_TRAILER);
    r.push(0);
    r.push(0);
    r.push(0);
    r.push(0);
    proof {
        assert(r@ =~= spec_ack_frame());
    }
    r
}

/// Build the command activating the stored face at `slot`.
pub fn encode_face_select_frame(slot: u8) -> (r: Vec<u8>)
    ensures
        r@ == spec_face_select_frame(slot),
{
    let mut r: Vec<u8> = Vec::new();
    r.push(FRAME_HEADER_0);
    r.push(FRAME_HEADER_1);
    r.push(FRAME_HEADER_2);
    r.push(OP_FACE_SELECT);
    r.push(FACE_SELECT_TAG);
    r.push(slot);
    proof {
        assert(r@ =~= spec_face_select_frame(slot));
    }
    r
}

/// Round trip: the prep command and the all-done notification share the
/// opcode-`0x09` layout, so parsing an encoded prep frame recovers the
/// encoded length unchanged.
pub proof fn lemma_prep_frame_round_trip(len: u32)
    ensures
        spec_parse_frame(spec_prep_frame(len)) == (Frame::AllDone { value: len }),
{
    let f = spec_prep_frame(len);
    assert(f.len() == 9);
    assert(spec_be32((len >> 24) as u8, (len >> 16) as u8, (len >> 8) as u8, len as u8) == len)
        by (bit_vector);
}

} // verus!
