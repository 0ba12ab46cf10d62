//! The transfer engine: the state machine that moves a payload to the
//! device.
//!
//! The engine is purely reactive. The caller subscribes to the notify
//! characteristic, sends the prep frame [`TransferSession::start`]
//! returns, and then feeds every received notification to
//! [`TransferSession::on_notification`], performing the write each
//! returned [`Step`] asks for. The device is authoritative over which
//! chunk it wants next: the engine serves whatever in-range index is
//! requested and keeps only a diagnostic counter of the index it
//! expected. A closed notification stream or a failed write aborts the
//! session; the face-select command is released only from a completed
//! one.

use crate::chunks::{chunk_bytes, chunk_end, chunk_in_range, chunk_start, spec_chunk};
use crate::frames::{
    encode_ack_frame, encode_face_select_frame, encode_prep_frame, parse_frame, spec_ack_frame,
    spec_face_select_frame, spec_parse_frame, spec_prep_frame, Frame,
};
use vstd::prelude::*;

verus! {

/// Why a transfer session ended without success, or what a single step
/// found wrong.
#[derive(Clone, Copy, Debug, PartialEq, Eq, Structural)]
pub enum TransferError {
    /// A write to the command or data characteristic failed; fatal.
    LinkWriteFailed,
    /// The notification stream closed before the all-done frame; fatal.
    NotificationStreamClosed,
    /// A stray, unrecognized or out-of-range frame arrived; logged and
    /// ignored, the session continues.
    UnexpectedFrame,
    /// A recognized frame was too short for its declared fields; fatal.
    MalformedFrame,
}

/// Where the session stands.
#[derive(Clone, Copy, Debug, PartialEq, Eq, Structural)]
pub enum EngineState {
    /// Created, prep frame not yet sent.
    Idle,
    /// Prep frame sent, dispatching notifications.
    Serving,
    /// All-done received and acknowledged.
    Done,
    /// Ended without success.
    Aborted(TransferError),
}

/// The session outcome as the caller reports it.
#[derive(Clone, Copy, Debug, PartialEq, Eq, Structural)]
pub enum SessionStatus {
    InProgress,
    Completed,
    Aborted(TransferError),
}

/// The mathematical state of a session: the captured payload, the
/// diagnostic next-expected index, and the protocol state.
pub struct SessionModel {
    pub payload: Seq<u8>,
    pub expected_index: nat,
    pub state: EngineState,
}

/// What one dispatch step asks the caller to do.
pub enum StepSpec {
    /// Write `data` to the data-write characteristic.
    Serve { index: u16, mismatch: bool, progress: int, data: Seq<u8> },
    /// Write the acknowledgment to the command-write characteristic;
    /// `value` is the device's opaque completion value, surfaced
    /// unverified.
    Complete { value: u32, ack: Seq<u8> },
    /// Nothing to write; the frame was logged and ignored.
    Ignore { error: TransferError },
    /// Nothing to write; the session is aborted.
    Abort { error: TransferError },
}

/// The progress percentage reported when chunk `index` is served from a
/// payload of `len` bytes.
pub open spec fn spec_progress(index: u16, len: nat) -> int {
    if len > 0 {
        (index * 244 * 100) / (len as int)
    } else {
        100
    }
}

/// How one received notification advances the session and what it asks
/// the caller to write: the engine's whole dispatch rule.
///
/// An in-range chunk request is served whatever index it names — the
/// counter records the request but never gates it. An out-of-range
/// request, a stray opcode or an unrecognized byte sequence is ignored. A
/// recognized frame too short for its fields aborts the session. The
/// all-done frame completes it and hands back the acknowledgment to send.
pub open spec fn spec_step(m: SessionModel, data: Seq<u8>) -> (SessionModel, StepSpec) {
    match spec_parse_frame(data) {
        Frame::ChunkRequest { index } => {
            if chunk_in_range(index as nat, m.payload.len()) {
                (
                    SessionModel {
                        payload: m.payload,
                        expected_index: index as nat + 1,
                        state: m.state,
                    },
                    StepSpec::Serve {
                        index,
                        mismatch: index as nat != m.expected_index,
                        progress: spec_progress(index, m.payload.len()),
                        data: m.payload.subrange(
                            chunk_start(index as nat) as int,
                            chunk_end(index as nat, m.payload.len()) as int,
                        ),
                    },
                )
            } else {
                (m, StepSpec::Ignore { error: TransferError::UnexpectedFrame })
            }
        },
        Frame::AllDone { value } => (
            SessionModel { payload: m.payload, expected_index: m.expected_index, state: EngineState::Done },
            StepSpec::Complete { value, ack: spec_ack_frame() },
        ),
        Frame::Truncated => (
            SessionModel {
                payload: m.payload,
                expected_index: m.expected_index,
                state: EngineState::Aborted(TransferError::MalformedFrame),
            },
            StepSpec::Abort { error: TransferError::MalformedFrame },
        ),
        Frame::Unrecognized => (m, StepSpec::Ignore { error: TransferError::UnexpectedFrame }),
        Frame::UnknownOpcode => (m, StepSpec::Ignore { error: TransferError::UnexpectedFrame }),
    }
}

/// The outcome a session state reports.
pub open spec fn spec_status(m: SessionModel) -> SessionStatus {
    match m.state {
        EngineState::Idle => SessionStatus::InProgress,
        EngineState::Serving => SessionStatus::InProgress,
        EngineState::Done => SessionStatus::Completed,
        EngineState::Aborted(e) => SessionStatus::Aborted(e),
    }
}

/// What one dispatch step asks the caller to do.
pub enum Step {
    /// Write `data` to the data-write characteristic. `mismatch` flags a
    /// request whose index was not the expected one — diagnostic only,
    /// the chunk is served regardless. `progress` is the percentage to
    /// display.
    Serve { index: u16, mismatch: bool, progress: u32, data: Vec<u8> },
    /// Write `ack` to the command-write characteristic; `value` is the
    /// device's opaque completion value, surfaced unverified.
    Complete { value: u32, ack: Vec<u8> },
    /// Nothing to write; log and keep listening.
    Ignore { error: TransferError },
    /// Nothing to write; the session is aborted.
    Abort { error: TransferError },
}

impl View for Step {
    type V = StepSpec;

    open spec fn view(&self) -> StepSpec {
        match self {
            Step::Serve { index, mismatch, progress, data } => StepSpec::Serve {
                index: *index,
                mismatch: *mismatch,
                progress: *progress as int,
                data: data@,
            },
            Step::Complete { value, ack } => StepSpec::Complete { value: *value, ack: ack@ },
            Step::Ignore { error } => StepSpec::Ignore { error: *error },
            Step::Abort { error } => StepSpec::Abort { error: *error },
        }
    }
}

/// One upload session: owns the payload for its duration and drives the
/// handshake, chunk-serving and completion protocol.
pub struct TransferSession {
    payload: Vec<u8>,
    expected_index: u32,
    state: EngineState,
}

impl View for TransferSession {
    type V = SessionModel;

    closed spec fn view(&self) -> SessionModel {
        SessionModel {
            payload: self.payload@,
            expected_index: self.expected_index as nat,
            state: self.state,
        }
    }
}

/// The progress percentage for a served chunk.
fn compute_progress(index: u16, len: u32) -> (r: u32)
    requires
        len > 0,
    ensures
        r as int == spec_progress(index, len as nat),
{
    ((index as u32) * 244 * 100) / len
}

impl TransferSession {
    /// Whether the session is small enough for the wire: the prep frame
    /// carries the payload length as a four-byte value.
    pub open spec fn wf(&self) -> bool {
        self@.payload.len() <= u32::MAX
    }

    /// Capture a payload for one upload session.
    pub fn new(payload: Vec<u8>) -> (s: Self)
        requires
            payload@.len() <= u32::MAX,
        ensures
            s@.payload == payload@,
            s@.expected_index == 0,
            s@.state is Idle,
            s.wf(),
    {
        TransferSession { payload, expected_index: 0, state: EngineState::Idle }
    }

    /// The captured payload length.
    pub fn payload_len(&self) -> (r: u32)
        requires
            self.wf(),
        ensures
            r == self@.payload.len(),
    {
        self.payload.len() as u32
    }

    /// Open the session: move to serving and hand back the prep frame to
    /// write to the command characteristic. The caller must have
    /// subscribed to the notify characteristic before writing it, or a
    /// notification sent right after the prep command could be missed.
    pub fn start(&mut self) -> (r: Vec<u8>)
        requires
            old(self)@.state is Idle,
            old(self).wf(),
        ensures
            final(self)@.payload == old(self)@.payload,
            final(self)@.expected_index == old(self)@.expected_index,
            final(self)@.state is Serving,
            final(self).wf(),
            r@ == spec_prep_frame(old(self)@.payload.len() as u32),
    {
        self.state = EngineState::Serving;
        let len: u32 = self.payload.len() as u32;
        encode_prep_frame(len)
    }

    /// Dispatch one received notification, per [`spec_step`].
    pub fn on_notification(&mut self, data: &[u8]) -> (r: Step)
        requires
            old(self)@.state is Serving,
            old(self).wf(),
        ensures
            final(self).wf(),
            (final(self)@, r@) == spec_step(old(self)@, data@),
    {
        match parse_frame(data) {
            Frame::ChunkRequest { index } => {
                match chunk_bytes(&self.payload, index) {
                    Some(bytes) => {
                        let mismatch = (index as u32) != self.expected_index;
                        let progress = compute_progress(index, self.payload.len() as u32);
                        self.expected_index = index as u32 + 1;
                        Step::Serve { index, mismatch, progress, data: bytes }
                    },
                    None => Step::Ignore { error: TransferError::UnexpectedFrame },
                }
            },
            Frame::AllDone { value } => {
                self.state = EngineState::Done;
                Step::Complete { value, ack: encode_ack_frame() }
            },
            Frame::Truncated => {
                self.state = EngineState::Aborted(TransferError::MalformedFrame);
                Step::Abort { error: TransferError::MalformedFrame }
            },
            Frame::Unrecognized => Step::Ignore { error: TransferError::UnexpectedFrame },
            Frame::UnknownOpcode => Step::Ignore { error: TransferError::UnexpectedFrame },
        }
    }

    /// The notification stream closed with no frame delivered: no further
    /// progress is possible, the session aborts.
    pub fn on_stream_closed(&mut self)
        requires
            old(self)@.state is Serving,
        ensures
            final(self)@.payload == old(self)@.payload,
            final(self)@.expected_index == old(self)@.expected_index,
            final(self)@.state == EngineState::Aborted(TransferError::NotificationStreamClosed),
    {
        self.state = EngineState::Aborted(TransferError::NotificationStreamClosed);
    }

    /// A write to the command or data characteristic failed: transport
    /// errors during an active transfer are fatal, the session aborts.
    pub fn on_write_failed(&mut self)
        ensures
            final(self)@.payload == old(self)@.payload,
            final(self)@.expected_index == old(self)@.expected_index,
            final(self)@.state == EngineState::Aborted(TransferError::LinkWriteFailed),
    {
        self.state = EngineState::Aborted(TransferError::LinkWriteFailed);
    }

    /// The diagnostic next-expected chunk index: telemetry for mismatch
    /// warnings, never a gate on what is served.
    pub fn expected_index(&self) -> (r: u32)
        ensures
            r == self@.expected_index,
    {
        self.expected_index
    }

    /// The session outcome.
    pub fn status(&self) -> (r: SessionStatus)
        ensures
            r == spec_status(self@),
    {
        match self.state {
            EngineState::Idle => SessionStatus::InProgress,
            EngineState::Serving => SessionStatus::InProgress,
            EngineState::Done => SessionStatus::Completed,
            EngineState::Aborted(e) => SessionStatus::Aborted(e),
        }
    }

    /// The face-select command activating the uploaded image at `slot`,
    /// released only from a completed session: an aborted upload never
    /// activates anything.
    pub fn face_select_frame(&self, slot: u8) -> (r: Option<Vec<u8>>)
        ensures
            r is Some <==> self@.state is Done,
            (r matches Some(f) ==> f@ == spec_face_select_frame(slot)),
    {
        match self.state {
            EngineState::Done => Some(encode_face_select_frame(slot)),
            _ => None,
        }
    }
}

/// The bytes a dispatch step serves, when it serves any.
pub open spec fn spec_served_data(m: SessionModel, data: Seq<u8>) -> Option<Seq<u8>> {
    match spec_step(m, data).1 {
        StepSpec::Serve { data: d, .. } => Some(d),
        _ => None,
    }
}

/// A dispatch step never changes the captured payload: every chunk is
/// served from the bytes fixed at session start.
pub proof fn lemma_step_preserves_payload(m: SessionModel, data: Seq<u8>)
    ensures
        spec_step(m, data).0.payload == m.payload,
{
}

/// Serving is idempotent: the bytes a request yields are a pure function
/// of the payload and the requested index, never of the diagnostic
/// counter or of which chunks were served before. Re-requesting an index
/// yields the same bytes both times.
pub proof fn lemma_serve_idempotent(m1: SessionModel, m2: SessionModel, data: Seq<u8>)
    requires
        m1.payload == m2.payload,
    ensures
        spec_served_data(m1, data) == spec_served_data(m2, data),
{
}

/// What a serve step hands out is exactly the chunk the requested index
/// names — and nothing is handed out for an out-of-range index.
pub proof fn lemma_served_data_is_chunk(m: SessionModel, data: Seq<u8>, index: u16)
    requires
        spec_parse_frame(data) == (Frame::ChunkRequest { index }),
    ensures
        spec_served_data(m, data) == spec_chunk(m.payload, index as nat),
{
}

/// The counter is advisory telemetry: serving always records the served
/// index plus one, whatever the counter held before.
pub proof fn lemma_counter_follows_device(m: SessionModel, data: Seq<u8>, index: u16)
    requires
        spec_parse_frame(data) == (Frame::ChunkRequest { index }),
        chunk_in_range(index as nat, m.payload.len()),
    ensures
        spec_step(m, data).0.expected_index == index as nat + 1,
{
}

} // verus!
