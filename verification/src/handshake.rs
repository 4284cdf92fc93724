//! The handshake and the JSON control messages. JSON is used since these are
//! low frequency; turning the JSON text into these values (and back) is left
//! to the serde copies of these types in the application, while the decisions
//! of the handshake are made here.

use vstd::prelude::*;

use crate::protocol::{
    frame_bytes, message_type_of, write_frame, Frame, MessageType, ProtocolError,
    CHANNEL_CONTROL, PROTOCOL_VERSION,
};
use crate::text::{all_white_space, is_blank};

verus! {

/// The HELLO the host opens the handshake with.
#[derive(Debug)]
pub struct Hello {
    pub role: &'static str,
    pub host_version: String,
    pub protocol_version: u16,
    pub nonce: String,
}

/// What the daemon says it can do, sent at handshake. The host picks backends
/// from this and assumes nothing that isn't advertised.
#[derive(Debug, Clone)]
pub struct Capabilities {
    pub ios_version: String,
    pub device_model: String,
    pub jailbreak_layout: String,
    pub jb_prefix: String,
    pub injection_framework: String,
    pub daemon_uid: i64,
    pub stream_backends: Vec<String>,
    pub input_backends: Vec<String>,
    pub clipboard: bool,
    pub keyboard: bool,
    pub orientation: bool,
}

/// The daemon's answer to HELLO.
#[derive(Debug)]
pub struct HelloAck {
    pub daemon_version: String,
    pub protocol_version: u16,
    pub session_token: String,
    pub capabilities: Capabilities,
}

/// A log line streamed from the daemon.
#[derive(Debug, Clone)]
pub struct LogMessage {
    pub level: String,
    pub message: String,
}

/// The level of a log line that names none.
pub fn default_level() -> (r: String)
    ensures
        r@ == "info"@,
{
    let mut s = String::new();
    s.append("info");
    s
}

/// A recoverable error from the daemon. The extra fields get shown to the user
/// as the error handling fills in.
#[derive(Debug, Clone)]
pub struct DaemonError {
    pub code: String,
    pub component: String,
    pub fatal: bool,
    pub message: String,
    pub suggestion: String,
}

/// The HELLO for this host: role "host", its version, the protocol version and
/// the nonce (see [`crate::nonce::random_hex`]).
pub fn hello_message(host_version: &str, nonce: String) -> (h: Hello)
    ensures
        h.role@ == "host"@,
        h.host_version@ == host_version@,
        h.protocol_version == PROTOCOL_VERSION,
        h.nonce == nonce,
{
    let mut v = String::new();
    v.append(host_version);
    Hello { role: "host", host_version: v, protocol_version: PROTOCOL_VERSION, nonce }
}

/// How the body of the daemon's reply to HELLO is to be read.
#[derive(Debug, Clone, Copy, PartialEq, Eq, Structural)]
pub enum ReplyKind {
    /// A HELLO_ACK: the body is a [`HelloAck`].
    Accepted,
    /// An ERROR: the body is a [`DaemonError`].
    Refused,
}

/// Sorts the reply to HELLO: HELLO_ACK goes on, ERROR is the daemon's refusal,
/// anything else is unexpected.
pub fn reply_kind(frame: &Frame) -> (r: Result<ReplyKind, ProtocolError>)
    ensures
        message_type_of(frame.header.msg_type) == Some(MessageType::HelloAck) ==> r == Ok::<
            ReplyKind,
            ProtocolError,
        >(ReplyKind::Accepted),
        message_type_of(frame.header.msg_type) == Some(MessageType::Error) ==> r == Ok::<
            ReplyKind,
            ProtocolError,
        >(ReplyKind::Refused),
        message_type_of(frame.header.msg_type) != Some(MessageType::HelloAck)
            && message_type_of(frame.header.msg_type) != Some(MessageType::Error) ==> (r matches Err(
            ProtocolError::Unexpected { got, expected },
        ) && got == frame.header.msg_type && expected@ == "HELLO_ACK"@),
{
    match frame.message_type() {
        Some(MessageType::HelloAck) => Ok(ReplyKind::Accepted),
        Some(MessageType::Error) => Ok(ReplyKind::Refused),
        _ => Err(ProtocolError::Unexpected { got: frame.header.msg_type, expected: "HELLO_ACK" }),
    }
}

/// The message shown for a daemon error: the daemon's message, with its hint
/// appended in parentheses unless the hint is blank.
pub open spec fn daemon_message_of(e: DaemonError) -> Seq<char> {
    if all_white_space(e.suggestion@) {
        e.message@
    } else {
        e.message@ + " ("@ + e.suggestion@ + ")"@
    }
}

/// Turns the daemon's ERROR reply into the typed error, appending the daemon's
/// hint so the user sees it.
pub fn daemon_failure(e: DaemonError) -> (r: ProtocolError)
    ensures
        r matches ProtocolError::Daemon { code, message } && code == e.code && message@
            == daemon_message_of(e),
{
    let message = if is_blank(e.suggestion.as_str()) {
        e.message
    } else {
        let mut m = String::new();
        m.append(e.message.as_str());
        m.append(" (");
        m.append(e.suggestion.as_str());
        m.append(")");
        m
    };
    ProtocolError::Daemon { code: e.code, message }
}

/// Appends the AUTHENTICATE frame that echoes the session token back. The
/// daemon ignores privileged messages (input, clipboard, system actions) until
/// it sees the matching token, so this has to happen on every handshake.
pub fn authenticate_frame(out: &mut Vec<u8>, ack: &HelloAck)
    ensures
        final(out)@ == old(out)@ + frame_bytes(
            MessageType::Authenticate,
            CHANNEL_CONTROL,
            0,
            vstd::utf8::encode_utf8(ack.session_token@),
        ),
{
    let _ = write_frame(out, MessageType::Authenticate, CHANNEL_CONTROL, 0, ack.session_token.as_str().as_bytes());
}

} // verus!
