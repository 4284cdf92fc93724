use ioscpy::handshake::{
    authenticate_frame, daemon_failure, default_level, hello_message, reply_kind, Capabilities,
    DaemonError, HelloAck, ReplyKind,
};
use ioscpy::protocol::{read_frame, write_frame, MessageType, ProtocolError, CHANNEL_CONTROL};

fn frame_of(mt: MessageType) -> ioscpy::protocol::Frame {
    let mut buf = Vec::new();
    write_frame(&mut buf, mt, CHANNEL_CONTROL, 0, b"{}").unwrap();
    read_frame(&mut buf).unwrap()
}

fn daemon_error(message: &str, suggestion: &str) -> DaemonError {
    DaemonError {
        code: "E_STREAM".to_string(),
        component: "capture".to_string(),
        fatal: false,
        message: message.to_string(),
        suggestion: suggestion.to_string(),
    }
}

#[test]
fn hello_fields() {
    let h = hello_message("0.9.1", "abcd".to_string());
    assert_eq!(h.role, "host");
    assert_eq!(h.host_version, "0.9.1");
    assert_eq!(h.protocol_version, 4);
    assert_eq!(h.nonce, "abcd");
}

#[test]
fn reply_kinds() {
    assert!(matches!(reply_kind(&frame_of(MessageType::HelloAck)), Ok(ReplyKind::Accepted)));
    assert!(matches!(reply_kind(&frame_of(MessageType::Error)), Ok(ReplyKind::Refused)));
    assert!(matches!(
        reply_kind(&frame_of(MessageType::Pong)),
        Err(ProtocolError::Unexpected { got: 61, expected: "HELLO_ACK" })
    ));
}

#[test]
fn daemon_failure_appends_the_hint() {
    let e = daemon_failure(daemon_error("capture failed", "respring the phone"));
    assert!(matches!(
        e,
        ProtocolError::Daemon { ref code, ref message }
            if code == "E_STREAM" && message == "capture failed (respring the phone)"
    ));
}

#[test]
fn daemon_failure_skips_a_blank_hint() {
    let e = daemon_failure(daemon_error("capture failed", " \t\n"));
    assert!(matches!(
        e,
        ProtocolError::Daemon { ref message, .. } if message == "capture failed"
    ));
}

#[test]
fn authenticate_echoes_the_token() {
    let ack = HelloAck {
        daemon_version: "0.9.1".to_string(),
        protocol_version: 4,
        session_token: "tok-123".to_string(),
        capabilities: Capabilities {
            ios_version: "15.5".to_string(),
            device_model: "iPhone11,2".to_string(),
            jailbreak_layout: "rootless".to_string(),
            jb_prefix: String::new(),
            injection_framework: String::new(),
            daemon_uid: 0,
            stream_backends: vec![],
            input_backends: vec![],
            clipboard: true,
            keyboard: true,
            orientation: false,
        },
    };
    let mut out = Vec::new();
    authenticate_frame(&mut out, &ack);
    let f = read_frame(&mut out).unwrap();
    assert_eq!(f.message_type(), Some(MessageType::Authenticate));
    assert_eq!(f.header.stream_id, CHANNEL_CONTROL);
    assert_eq!(f.header.seq, 0);
    assert_eq!(f.payload, b"tok-123");
}

#[test]
fn log_level_defaults_to_info() {
    assert_eq!(default_level(), "info");
}
