use pomotui::protocol::{
    frame_verdict, Command, FrameRead, ProtocolError, Request, PROTOCOL_VERSION,
    MAX_REQUEST_FRAME_BYTES,
};

#[test]
fn mutations_require_idempotency_keys() {
    let request = Request {
        version: PROTOCOL_VERSION,
        idempotency_key: None,
        command: Command::Pause,
    };
    assert_eq!(
        request.validate(),
        Err(ProtocolError::MissingIdempotencyKey)
    );
}

#[test]
fn incompatible_versions_are_explicit() {
    let request = Request {
        version: 99,
        idempotency_key: None,
        command: Command::Status,
    };
    assert_eq!(
        request.validate(),
        Err(ProtocolError::IncompatibleVersion {
            received: 99,
            supported: PROTOCOL_VERSION
        })
    );
}

#[test]
fn empty_keys_do_not_identify_a_mutation_but_reads_need_none() {
    let keyed = |key: Option<&str>, command: Command| Request {
        version: PROTOCOL_VERSION,
        idempotency_key: key.map(str::to_owned),
        command,
    };
    assert_eq!(
        keyed(Some(""), Command::Stop).validate(),
        Err(ProtocolError::MissingIdempotencyKey)
    );
    assert_eq!(keyed(Some("k"), Command::Stop).validate(), Ok(()));
    assert_eq!(keyed(None, Command::TaskList).validate(), Ok(()));
    assert!(!Command::History.mutates());
    assert!(Command::TaskCreate { title: "x".into() }.mutates());
}

#[test]
fn request_frames_are_bounded_and_require_a_terminator() {
    let mut exact = vec![b'x'; MAX_REQUEST_FRAME_BYTES - 1];
    exact.push(b'\n');
    assert_eq!(frame_verdict(&exact, FrameRead::Read(exact.len())), Ok(()));
    let oversized = vec![b'x'; MAX_REQUEST_FRAME_BYTES + 1];
    assert_eq!(
        frame_verdict(&oversized, FrameRead::Read(oversized.len())),
        Err(ProtocolError::RequestTooLarge {
            max_bytes: MAX_REQUEST_FRAME_BYTES
        })
    );
    assert!(matches!(
        frame_verdict(b"{}", FrameRead::Read(2)),
        Err(ProtocolError::Malformed { .. })
    ));
    assert_eq!(
        frame_verdict(b"", FrameRead::Read(0)),
        Err(ProtocolError::Malformed {
            message: "empty request".into()
        })
    );
}

#[test]
fn stalled_frame_hits_the_configured_read_deadline() {
    assert_eq!(
        frame_verdict(b"{", FrameRead::TimedOut),
        Err(ProtocolError::RequestTimeout)
    );
}
