use dawfu::engine::{SessionStatus, Step, TransferError, TransferSession};
use dawfu::frames::GALLERY_FACE_SLOT;

fn payload(len: usize) -> Vec<u8> {
    (0..len).map(|i| (i % 251) as u8).collect()
}

fn chunk_request(index: u16) -> Vec<u8> {
    let mut f = vec![0xfe, 0xea, 0x20, 0x07, 0x74];
    f.extend_from_slice(&index.to_be_bytes());
    f
}

fn all_done(value: u32) -> Vec<u8> {
    let mut f = vec![0xfe, 0xea, 0x20, 0x09, 0x74];
    f.extend_from_slice(&value.to_be_bytes());
    f
}

#[test]
fn happy_path_serves_chunks_then_completes() {
    let p = payload(500);
    let mut session = TransferSession::new(p.clone());
    assert_eq!(session.status(), SessionStatus::InProgress);

    let prep = session.start();
    assert_eq!(prep, vec![0xfe, 0xea, 0x20, 0x09, 0x74, 0x00, 0x00, 0x01, 0xf4]);

    let expected_slices = [&p[0..244], &p[244..488], &p[488..500]];
    let expected_progress = [0u32, 48, 97];
    for index in 0..3u16 {
        match session.on_notification(&chunk_request(index)) {
            Step::Serve {
                index: served,
                mismatch,
                progress,
                data,
            } => {
                assert_eq!(served, index);
                assert!(!mismatch);
                assert_eq!(progress, expected_progress[index as usize]);
                assert_eq!(data, expected_slices[index as usize]);
            }
            other => panic!("expected Serve, got {:?}", step_name(&other)),
        }
    }

    match session.on_notification(&all_done(0xdead_beef)) {
        Step::Complete { value, ack } => {
            assert_eq!(value, 0xdead_beef);
            assert_eq!(ack, vec![0xfe, 0xea, 0x20, 0x09, 0x74, 0, 0, 0, 0]);
        }
        other => panic!("expected Complete, got {:?}", step_name(&other)),
    }

    assert_eq!(session.status(), SessionStatus::Completed);
    assert_eq!(
        session.face_select_frame(GALLERY_FACE_SLOT),
        Some(vec![0xfe, 0xea, 0x20, 0x06, 0x19, 0x0d])
    );
}

#[test]
fn stream_closed_aborts_without_face_select() {
    let mut session = TransferSession::new(payload(500));
    let _prep = session.start();
    let _ = session.on_notification(&chunk_request(0));
    session.on_stream_closed();
    assert_eq!(
        session.status(),
        SessionStatus::Aborted(TransferError::NotificationStreamClosed)
    );
    assert_eq!(session.face_select_frame(GALLERY_FACE_SLOT), None);
}

#[test]
fn re_requested_chunk_is_served_again() {
    // The device re-requests chunk 1 after chunk 2 was already served:
    // the engine serves it again, flags the mismatch, and the diagnostic
    // counter follows the device to 2.
    let p = payload(500);
    let mut session = TransferSession::new(p.clone());
    let _prep = session.start();

    let first = match session.on_notification(&chunk_request(1)) {
        Step::Serve { data, mismatch, .. } => {
            assert!(mismatch); // expected 0, got 1
            data
        }
        other => panic!("expected Serve, got {:?}", step_name(&other)),
    };
    match session.on_notification(&chunk_request(2)) {
        Step::Serve { mismatch, .. } => assert!(!mismatch),
        other => panic!("expected Serve, got {:?}", step_name(&other)),
    }
    assert_eq!(session.expected_index(), 3);

    match session.on_notification(&chunk_request(1)) {
        Step::Serve {
            index,
            mismatch,
            data,
            ..
        } => {
            assert_eq!(index, 1);
            assert!(mismatch); // expected 3, got 1 — served anyway
            assert_eq!(data, first);
            assert_eq!(data, p[244..488].to_vec());
        }
        other => panic!("expected Serve, got {:?}", step_name(&other)),
    }
    assert_eq!(session.expected_index(), 2);
    assert_eq!(session.status(), SessionStatus::InProgress);
}

#[test]
fn truncated_frame_aborts() {
    let mut session = TransferSession::new(payload(500));
    let _prep = session.start();
    match session.on_notification(&[0xfe, 0xea, 0x20, 0x07, 0x74, 0x00]) {
        Step::Abort { error } => assert_eq!(error, TransferError::MalformedFrame),
        other => panic!("expected Abort, got {:?}", step_name(&other)),
    }
    assert_eq!(
        session.status(),
        SessionStatus::Aborted(TransferError::MalformedFrame)
    );
    assert_eq!(session.face_select_frame(GALLERY_FACE_SLOT), None);
}

#[test]
fn stray_frames_are_ignored() {
    let mut session = TransferSession::new(payload(500));
    let _prep = session.start();
    // Unknown opcode, unrecognized bytes, and an out-of-range index: all
    // logged and ignored, the session keeps serving.
    for stray in [
        vec![0xfe, 0xea, 0x20, 0x05, 0x74, 0x00],
        vec![0x01, 0x02],
        chunk_request(3),
    ] {
        match session.on_notification(&stray) {
            Step::Ignore { error } => assert_eq!(error, TransferError::UnexpectedFrame),
            other => panic!("expected Ignore, got {:?}", step_name(&other)),
        }
    }
    assert_eq!(session.status(), SessionStatus::InProgress);
    // An ignored out-of-range request leaves the counter alone.
    assert_eq!(session.expected_index(), 0);
}

#[test]
fn write_failure_aborts() {
    let mut session = TransferSession::new(payload(500));
    let _prep = session.start();
    session.on_write_failed();
    assert_eq!(
        session.status(),
        SessionStatus::Aborted(TransferError::LinkWriteFailed)
    );
    assert_eq!(session.face_select_frame(GALLERY_FACE_SLOT), None);
}

#[test]
fn empty_payload_session() {
    let mut session = TransferSession::new(Vec::new());
    let prep = session.start();
    assert_eq!(prep, vec![0xfe, 0xea, 0x20, 0x09, 0x74, 0, 0, 0, 0]);
    // No chunk is in range of an empty payload.
    match session.on_notification(&chunk_request(0)) {
        Step::Ignore { error } => assert_eq!(error, TransferError::UnexpectedFrame),
        other => panic!("expected Ignore, got {:?}", step_name(&other)),
    }
    match session.on_notification(&all_done(0)) {
        Step::Complete { .. } => {}
        other => panic!("expected Complete, got {:?}", step_name(&other)),
    }
    assert_eq!(session.status(), SessionStatus::Completed);
}

fn step_name(step: &Step) -> &'static str {
    match step {
        Step::Serve { .. } => "Serve",
        Step::Complete { .. } => "Complete",
        Step::Ignore { .. } => "Ignore",
        Step::Abort { .. } => "Abort",
    }
}
