use hotkey_manager::ipc::{
    classify_reply, decode_frame, encode_frame, frame_length, on_request, rebind_reply, triggered,
    unbind_failed_reply, FrameError, IPCClient, IPCRequest, IPCResponse, Incoming, SessionStep,
    MAX_FRAME_LEN,
};
use hotkey_manager::key::Key;
use hotkey_manager::registry::RebindOutcome;
use hotkey_manager::Error;

#[test]
fn frame_has_big_endian_length_prefix() {
    let payload = vec![7u8; 300];
    let framed = encode_frame(&payload);
    assert_eq!(&framed[..4], &[0, 0, 1, 44]);
    assert_eq!(&framed[4..], &payload[..]);
    assert_eq!(frame_length(&framed[..4]), Ok(300));
}

#[test]
fn frame_round_trip_including_empty_payload() {
    for payload in [vec![], vec![1u8], b"{\"Shutdown\":null}".to_vec()] {
        let mut framed = encode_frame(&payload);
        let len = framed.len();
        framed.extend_from_slice(&[9, 9, 9]);
        let (decoded, used) = decode_frame(&framed).unwrap();
        assert_eq!(decoded, payload);
        assert_eq!(used, len);
    }
}

#[test]
fn short_reads_yield_no_payload() {
    assert_eq!(decode_frame(&[0, 0]), Err(FrameError::Incomplete));
    assert_eq!(decode_frame(&[0, 0, 0, 5, 1, 2]), Err(FrameError::Incomplete));
    assert_eq!(frame_length(&[0, 0, 1]), Err(FrameError::Incomplete));
}

#[test]
fn oversize_frames_are_rejected() {
    assert_eq!(MAX_FRAME_LEN, 16 * 1024 * 1024);
    assert_eq!(frame_length(&[1, 0, 0, 0]), Ok(MAX_FRAME_LEN));
    assert_eq!(frame_length(&[1, 0, 0, 1]), Err(FrameError::TooLarge));
    assert_eq!(decode_frame(&[255, 255, 255, 255]), Err(FrameError::TooLarge));
}

#[test]
fn shutdown_is_answered_then_closes() {
    match on_request(IPCRequest::Shutdown) {
        SessionStep::Reply { response: IPCResponse::Success { message, data }, close } => {
            assert_eq!(message, "Shutting down");
            assert!(data.is_none());
            assert!(close);
        }
        other => panic!("unexpected {other:?}"),
    }
}

#[test]
fn rebind_request_hands_over_keys() {
    let keys = vec![Key::parse("ctrl+a").unwrap(), Key::parse("q").unwrap()];
    match on_request(IPCRequest::Rebind { keys: keys.clone() }) {
        SessionStep::Rebind { keys: k } => assert_eq!(k, keys),
        other => panic!("unexpected {other:?}"),
    }
}

#[test]
fn replies_to_rebind_and_unbind_failure() {
    let ok = RebindOutcome { reply: Ok("Successfully bound 2 hotkeys".to_string()), release: vec![] };
    assert!(
        matches!(rebind_reply(&ok), IPCResponse::Success { message, data: None } if message == "Successfully bound 2 hotkeys")
    );
    let bad = RebindOutcome { reply: Err("no".to_string()), release: vec![3] };
    assert!(matches!(rebind_reply(&bad), IPCResponse::Error { message } if message == "no"));
    assert!(
        matches!(unbind_failed_reply("busy"), IPCResponse::Error { message } if message == "Failed to unbind existing hotkeys: busy")
    );
}

#[test]
fn client_classifies_replies_and_events() {
    let ok = IPCResponse::Success { message: "fine".to_string(), data: None };
    assert!(matches!(classify_reply(ok), Incoming::Reply(Ok(()))));
    let err = IPCResponse::Error { message: "bad".to_string() };
    match classify_reply(err) {
        Incoming::Reply(Err(e)) => assert_eq!(e, Error::Ipc("bad".to_string())),
        other => panic!("unexpected {other:?}"),
    }
    match classify_reply(triggered("ctrl+a".to_string())) {
        Incoming::Event(id) => assert_eq!(id, "ctrl+a"),
        other => panic!("unexpected {other:?}"),
    }
}

#[test]
fn ipc_client_keeps_socket_path() {
    let client = IPCClient::new("/tmp/x.sock");
    assert_eq!(client.socket_path, "/tmp/x.sock");
}
