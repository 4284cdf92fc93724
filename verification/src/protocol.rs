//! Host side of the wire protocol: the fixed frame header, the message type
//! numbers, and the small binary payloads. Any change here bumps
//! [`PROTOCOL_VERSION`].

use vstd::prelude::*;


use crate::wire::{be_u16, be_u32, be_u64, get_u16, get_u32, get_u64, put_u16, put_u32, put_u64, u16_of_be, u32_of_be, u64_of_be};

verus! {

/// "ICPY", the first four bytes of every frame.
pub const MAGIC: u32 = 0x4943_5059;

pub const PROTOCOL_VERSION: u16 = 4;

pub const HEADER_SIZE: usize = 32;

pub const DEFAULT_PORT: u16 = 27183;

pub const MAX_PAYLOAD: u32 = 16 * 1024 * 1024;

/// Logical channel (`stream_id`) of control messages.
pub const CHANNEL_CONTROL: u64 = 0;

/// Logical channel (`stream_id`) of video frames.
pub const CHANNEL_VIDEO: u64 = 1;

/// VIDEO_FRAME sub-header flag: the payload is H.264 in AVCC form rather than JPEG.
pub const VIDEO_FLAG_H264: u32 = 0x1;

/// VIDEO_FRAME sub-header flag: an H.264 keyframe (IDR), decodable on its own.
pub const VIDEO_FLAG_KEYFRAME: u32 = 0x2;

/// VIDEO_FRAME sub-header flag: SPS/PPS parameter sets are prepended to the data.
pub const VIDEO_FLAG_CONFIG: u32 = 0x4;

/// Codec selector of the START_STREAM payload. An empty payload also means MJPEG.
pub const VIDEO_CODEC_MJPEG: u8 = 0;

pub const VIDEO_CODEC_H264: u8 = 1;

/// Capture orientation is packed into VIDEO_FRAME flags bits 3-4 as orientation - 1.
pub const VIDEO_ORIENT_SHIFT: u32 = 3;

pub const VIDEO_ORIENT_MASK: u32 = 0x18;

/// Orientation carried in a VIDEO_FRAME's flags: 1=portrait, 2=upsideDown,
/// 3=landscapeLeft, 4=landscapeRight.
pub fn video_orientation(flags: u32) -> (r: u8)
    ensures
        r == ((flags & VIDEO_ORIENT_MASK) >> VIDEO_ORIENT_SHIFT) + 1,
        1 <= r <= 4,
{
    let bits = (flags & VIDEO_ORIENT_MASK) >> VIDEO_ORIENT_SHIFT;
    assert(bits <= 3) by (bit_vector)
        requires
            bits == (flags & 0x18u32) >> 3u32,
    ;
    (bits as u8) + 1
}

/// Message type numbers. Stable wire values, given by [`MessageType::code`].
#[derive(Debug, Clone, Copy, PartialEq, Eq, Structural)]
pub enum MessageType {
    Hello,
    HelloAck,
    CapabilitiesRequest,
    CapabilitiesResponse,
    Authenticate,
    StartStream,
    StopStream,
    VideoFrame,
    RequestKeyframe,
    InputTouch,
    InputKey,
    InputText,
    ClipboardGet,
    ClipboardSet,
    ClipboardChanged,
    OrientationChanged,
    ScreenInfo,
    SystemAction,
    KeyboardMode,
    Ping,
    Pong,
    Error,
    Log,
}

/// The message type with wire number `v`, if there is one.
pub open spec fn message_type_of(v: u16) -> Option<MessageType> {
    if v == 1 {
        Some(MessageType::Hello)
    } else if v == 2 {
        Some(MessageType::HelloAck)
    } else if v == 3 {
        Some(MessageType::CapabilitiesRequest)
    } else if v == 4 {
        Some(MessageType::CapabilitiesResponse)
    } else if v == 5 {
        Some(MessageType::Authenticate)
    } else if v == 10 {
        Some(MessageType::StartStream)
    } else if v == 11 {
        Some(MessageType::StopStream)
    } else if v == 12 {
        Some(MessageType::VideoFrame)
    } else if v == 13 {
        Some(MessageType::RequestKeyframe)
    } else if v == 20 {
        Some(MessageType::InputTouch)
    } else if v == 21 {
        Some(MessageType::InputKey)
    } else if v == 22 {
        Some(MessageType::InputText)
    } else if v == 30 {
        Some(MessageType::ClipboardGet)
    } else if v == 31 {
        Some(MessageType::ClipboardSet)
    } else if v == 32 {
        Some(MessageType::ClipboardChanged)
    } else if v == 40 {
        Some(MessageType::OrientationChanged)
    } else if v == 41 {
        Some(MessageType::ScreenInfo)
    } else if v == 50 {
        Some(MessageType::SystemAction)
    } else if v == 51 {
        Some(MessageType::KeyboardMode)
    } else if v == 60 {
        Some(MessageType::Ping)
    } else if v == 61 {
        Some(MessageType::Pong)
    } else if v == 70 {
        Some(MessageType::Error)
    } else if v == 71 {
        Some(MessageType::Log)
    } else {
        None
    }
}

impl MessageType {
    /// The stable wire number of this message type.
    pub open spec fn code(self) -> u16 {
        match self {
            MessageType::Hello => 1,
            MessageType::HelloAck => 2,
            MessageType::CapabilitiesRequest => 3,
            MessageType::CapabilitiesResponse => 4,
            MessageType::Authenticate => 5,
            MessageType::StartStream => 10,
            MessageType::StopStream => 11,
            MessageType::VideoFrame => 12,
            MessageType::RequestKeyframe => 13,
            MessageType::InputTouch => 20,
            MessageType::InputKey => 21,
            MessageType::InputText => 22,
            MessageType::ClipboardGet => 30,
            MessageType::ClipboardSet => 31,
            MessageType::ClipboardChanged => 32,
            MessageType::OrientationChanged => 40,
            MessageType::ScreenInfo => 41,
            MessageType::SystemAction => 50,
            MessageType::KeyboardMode => 51,
            MessageType::Ping => 60,
            MessageType::Pong => 61,
            MessageType::Error => 70,
            MessageType::Log => 71,
        }
    }

    /// The wire number of this message type.
    pub fn to_u16(self) -> (r: u16)
        ensures
            r == self.code(),
    {
        match self {
            MessageType::Hello => 1,
            MessageType::HelloAck => 2,
            MessageType::CapabilitiesRequest => 3,
            MessageType::CapabilitiesResponse => 4,
            MessageType::Authenticate => 5,
            MessageType::StartStream => 10,
            MessageType::StopStream => 11,
            MessageType::VideoFrame => 12,
            MessageType::RequestKeyframe => 13,
            MessageType::InputTouch => 20,
            MessageType::InputKey => 21,
            MessageType::InputText => 22,
            MessageType::ClipboardGet => 30,
            MessageType::ClipboardSet => 31,
            MessageType::ClipboardChanged => 32,
            MessageType::OrientationChanged => 40,
            MessageType::ScreenInfo => 41,
            MessageType::SystemAction => 50,
            MessageType::KeyboardMode => 51,
            MessageType::Ping => 60,
            MessageType::Pong => 61,
            MessageType::Error => 70,
            MessageType::Log => 71,
        }
    }

    /// The message type with wire number `v`, `None` for an unknown number.
    pub fn from_u16(v: u16) -> (r: Option<MessageType>)
        ensures
            r == message_type_of(v),
    {
        match v {
            1 => Some(MessageType::Hello),
            2 => Some(MessageType::HelloAck),
            3 => Some(MessageType::CapabilitiesRequest),
            4 => Some(MessageType::CapabilitiesResponse),
            5 => Some(MessageType::Authenticate),
            10 => Some(MessageType::StartStream),
            11 => Some(MessageType::StopStream),
            12 => Some(MessageType::VideoFrame),
            13 => Some(MessageType::RequestKeyframe),
            20 => Some(MessageType::InputTouch),
            21 => Some(MessageType::InputKey),
            22 => Some(MessageType::InputText),
            30 => Some(MessageType::ClipboardGet),
            31 => Some(MessageType::ClipboardSet),
            32 => Some(MessageType::ClipboardChanged),
            40 => Some(MessageType::OrientationChanged),
            41 => Some(MessageType::ScreenInfo),
            50 => Some(MessageType::SystemAction),
            51 => Some(MessageType::KeyboardMode),
            60 => Some(MessageType::Ping),
            61 => Some(MessageType::Pong),
            70 => Some(MessageType::Error),
            71 => Some(MessageType::Log),
            _ => None,
        }
    }
}

/// Every message type is read back from its own wire number, and a wire
/// number that names a message type is that type's number.
pub proof fn lemma_message_type_roundtrip(m: MessageType, v: u16)
    ensures
        message_type_of(m.code()) == Some(m),
        message_type_of(v) == Some(m) ==> m.code() == v,
{
}


/// Fixed 32-byte frame header. Every field is on the wire even though routing
/// only uses some of them today.
#[derive(Debug, Clone, Copy, PartialEq, Eq, Structural)]
pub struct FrameHeader {
    pub version: u16,
    pub msg_type: u16,
    pub flags: u32,
    pub stream_id: u64,
    pub seq: u64,
    pub length: u32,
}

/// A frame as read off the wire: its header and `header.length` payload bytes.
#[derive(Debug)]
pub struct Frame {
    pub header: FrameHeader,
    pub payload: Vec<u8>,
}

impl Frame {
    /// The message type named by the header, `None` for an unknown number.
    pub fn message_type(&self) -> (r: Option<MessageType>)
        ensures
            r == message_type_of(self.header.msg_type),
    {
        MessageType::from_u16(self.header.msg_type)
    }
}

/// The kind of a failed read or write on the connection.
#[derive(Debug, Clone, Copy, PartialEq, Eq, Structural)]
pub enum IoErrorKind {
    /// The stream ended before the bytes a frame announces.
    UnexpectedEof,
    /// A non-blocking read found nothing to read.
    WouldBlock,
    /// A read timed out.
    TimedOut,
    /// Anything else.
    Other,
}

/// What can go wrong while talking to the daemon.
#[derive(Debug)]
pub enum ProtocolError {
    Io(IoErrorKind),
    BadMagic(u32),
    BadVersion(u16),
    PayloadTooLarge(u32),
    Unexpected { got: u16, expected: &'static str },
    Json(String),
    /// The phone side reported a problem.
    Daemon { code: String, message: String },
    /// The phone answered nothing in time.
    Timeout,
}

/// The error that a failed read of the given kind is reported as: a socket
/// timeout becomes the friendly `Timeout`, anything else stays an IO error.
pub fn read_error(kind: IoErrorKind) -> (r: ProtocolError)
    ensures
        (kind == IoErrorKind::WouldBlock || kind == IoErrorKind::TimedOut) ==> r
            == ProtocolError::Timeout,
        !(kind == IoErrorKind::WouldBlock || kind == IoErrorKind::TimedOut) ==> r
            == ProtocolError::Io(kind),
{
    match kind {
        IoErrorKind::WouldBlock | IoErrorKind::TimedOut => ProtocolError::Timeout,
        _ => ProtocolError::Io(kind),
    }
}

/// The 32 bytes of a frame header on the wire.
pub open spec fn header_bytes(h: FrameHeader) -> Seq<u8> {
    be_u32(MAGIC) + be_u16(h.version) + be_u16(h.msg_type) + be_u32(h.flags) + be_u64(h.stream_id)
        + be_u64(h.seq) + be_u32(h.length)
}

/// The header that `write_frame` puts in front of `payload`.
pub open spec fn outgoing_header(msg_type: MessageType, stream_id: u64, seq: u64, payload_len: nat) -> FrameHeader {
    FrameHeader {
        version: PROTOCOL_VERSION,
        msg_type: msg_type.code(),
        flags: 0,
        stream_id,
        seq,
        length: payload_len as u32,
    }
}

/// The bytes of one frame: its header, then the payload.
pub open spec fn frame_bytes(msg_type: MessageType, stream_id: u64, seq: u64, payload: Seq<u8>) -> Seq<u8> {
    header_bytes(outgoing_header(msg_type, stream_id, seq, payload.len())) + payload
}

/// What 32 header bytes decode to: the header, or the first check it fails
/// (magic, then version, then payload length).
pub open spec fn header_result(h: Seq<u8>) -> Result<FrameHeader, ProtocolError> {
    let magic = u32_of_be(h.subrange(0, 4));
    let version = u16_of_be(h.subrange(4, 6));
    let length = u32_of_be(h.subrange(28, 32));
    if magic != MAGIC {
        Err(ProtocolError::BadMagic(magic))
    } else if version != PROTOCOL_VERSION {
        Err(ProtocolError::BadVersion(version))
    } else if length > MAX_PAYLOAD {
        Err(ProtocolError::PayloadTooLarge(length))
    } else {
        Ok(
            FrameHeader {
                version,
                msg_type: u16_of_be(h.subrange(6, 8)),
                flags: u32_of_be(h.subrange(8, 12)),
                stream_id: u64_of_be(h.subrange(12, 20)),
                seq: u64_of_be(h.subrange(20, 28)),
                length,
            },
        )
    }
}

/// What reading one frame from the front of `bytes` gives: the header and the
/// payload, or the error.
pub open spec fn frame_result(bytes: Seq<u8>) -> Result<(FrameHeader, Seq<u8>), ProtocolError> {
    if bytes.len() < HEADER_SIZE {
        Err(ProtocolError::Io(IoErrorKind::UnexpectedEof))
    } else {
        match header_result(bytes.subrange(0, 32)) {
            Err(e) => Err(e),
            Ok(h) => if bytes.len() - 32 < h.length {
                Err(ProtocolError::Io(IoErrorKind::UnexpectedEof))
            } else {
                Ok((h, bytes.subrange(32, 32 + h.length)))
            },
        }
    }
}

/// What is left of `bytes` after reading one frame from its front. A frame
/// whose header is refused leaves what follows the header; bytes that end too
/// early are all used up.
pub open spec fn frame_rest(bytes: Seq<u8>) -> Seq<u8> {
    if bytes.len() < HEADER_SIZE {
        Seq::empty()
    } else {
        match header_result(bytes.subrange(0, 32)) {
            Err(_) => bytes.subrange(32, bytes.len() as int),
            Ok(h) => if bytes.len() - 32 < h.length {
                Seq::empty()
            } else {
                bytes.subrange(32 + h.length, bytes.len() as int)
            },
        }
    }
}

fn append_bytes(out: &mut Vec<u8>, data: &[u8])
    ensures
        final(out)@ == old(out)@ + data@,
{
    let n = data.len();
    for i in 0..n
        invariant
            n == data@.len(),
            out@ == old(out)@ + data@.subrange(0, i as int),
    {
        out.push(data[i]);
        assert(data@.subrange(0, i + 1) =~= data@.subrange(0, i as int).push(data@[i as int]));
    }
    assert(data@.subrange(0, n as int) =~= data@);
}

/// Appends the 32 bytes of `h`.
pub fn encode_header(out: &mut Vec<u8>, h: &FrameHeader)
    ensures
        final(out)@ == old(out)@ + header_bytes(*h),
{
    put_u32(out, MAGIC);
    put_u16(out, h.version);
    put_u16(out, h.msg_type);
    put_u32(out, h.flags);
    put_u64(out, h.stream_id);
    put_u64(out, h.seq);
    put_u32(out, h.length);
    assert(final(out)@ =~= old(out)@ + header_bytes(*h));
}

/// Writes a single frame to the end of `w`: the header (current protocol
/// version, flags 0, the payload length) and then the payload.
pub fn write_frame(
    w: &mut Vec<u8>,
    msg_type: MessageType,
    stream_id: u64,
    seq: u64,
    payload: &[u8],
) -> (r: Result<(), ProtocolError>)
    ensures
        r is Ok,
        final(w)@ == old(w)@ + frame_bytes(msg_type, stream_id, seq, payload@),
{
    let hdr = FrameHeader {
        version: PROTOCOL_VERSION,
        msg_type: msg_type.to_u16(),
        flags: 0,
        stream_id,
        seq,
        length: payload.len() as u32,
    };
    encode_header(w, &hdr);
    if payload.len() != 0 {
        append_bytes(w, payload);
    }
    assert(final(w)@ =~= old(w)@ + frame_bytes(msg_type, stream_id, seq, payload@));
    Ok(())
}

/// Decodes the 32 bytes of a frame header, validating magic, version and
/// payload length.
pub fn parse_header(hdr: &[u8]) -> (r: Result<FrameHeader, ProtocolError>)
    requires
        hdr@.len() == HEADER_SIZE,
    ensures
        r == header_result(hdr@),
{
    let magic = get_u32(hdr, 0);
    if magic != MAGIC {
        return Err(ProtocolError::BadMagic(magic));
    }
    let version = get_u16(hdr, 4);
    if version != PROTOCOL_VERSION {
        return Err(ProtocolError::BadVersion(version));
    }
    let msg_type = get_u16(hdr, 6);
    let flags = get_u32(hdr, 8);
    let stream_id = get_u64(hdr, 12);
    let seq = get_u64(hdr, 20);
    let length = get_u32(hdr, 28);
    if length > MAX_PAYLOAD {
        return Err(ProtocolError::PayloadTooLarge(length));
    }
    Ok(FrameHeader { version, msg_type, flags, stream_id, seq, length })
}

/// Reads a single frame from the front of `buf`, validating magic, version and
/// length. What follows the frame stays in `buf`.
pub fn read_frame(buf: &mut Vec<u8>) -> (r: Result<Frame, ProtocolError>)
    ensures
        match r {
            Ok(f) => frame_result(old(buf)@) == Ok::<(FrameHeader, Seq<u8>), ProtocolError>((f.header, f.payload@)),
            Err(e) => frame_result(old(buf)@) == Err::<(FrameHeader, Seq<u8>), ProtocolError>(e),
        },
        final(buf)@ == frame_rest(old(buf)@),
{
    if buf.len() < HEADER_SIZE {
        buf.clear();
        return Err(ProtocolError::Io(IoErrorKind::UnexpectedEof));
    }
    let ghost all = buf@;
    let mut rest = buf.split_off(HEADER_SIZE);
    let header = parse_header(buf.as_slice());
    std::mem::swap(buf, &mut rest);
    assert(rest@ == all.subrange(0, 32));
    assert(buf@ == all.subrange(32, all.len() as int));
    match header {
        Err(e) => Err(e),
        Ok(h) => {
            let len = h.length as usize;
            if buf.len() < len {
                buf.clear();
                return Err(ProtocolError::Io(IoErrorKind::UnexpectedEof));
            }
            let mut tail = buf.split_off(len);
            std::mem::swap(buf, &mut tail);
            assert(tail@ =~= all.subrange(32, 32 + h.length));
            assert(buf@ =~= all.subrange(32 + h.length, all.len() as int));
            Ok(Frame { header: h, payload: tail })
        },
    }
}

/// A header with the current version and an accepted length decodes from its
/// own 32 bytes to itself.
pub proof fn lemma_header_roundtrip(h: FrameHeader)
    requires
        h.version == PROTOCOL_VERSION,
        h.length <= MAX_PAYLOAD,
    ensures
        header_bytes(h).len() == HEADER_SIZE,
        header_result(header_bytes(h)) == Ok::<FrameHeader, ProtocolError>(h),
{
    let b = header_bytes(h);
    assert(b.subrange(0, 4) =~= be_u32(MAGIC));
    assert(b.subrange(4, 6) =~= be_u16(h.version));
    assert(b.subrange(6, 8) =~= be_u16(h.msg_type));
    assert(b.subrange(8, 12) =~= be_u32(h.flags));
    assert(b.subrange(12, 20) =~= be_u64(h.stream_id));
    assert(b.subrange(20, 28) =~= be_u64(h.seq));
    assert(b.subrange(28, 32) =~= be_u32(h.length));
    crate::wire::lemma_u32_roundtrip(MAGIC);
    crate::wire::lemma_u16_roundtrip(h.version);
    crate::wire::lemma_u16_roundtrip(h.msg_type);
    crate::wire::lemma_u32_roundtrip(h.flags);
    crate::wire::lemma_u64_roundtrip(h.stream_id);
    crate::wire::lemma_u64_roundtrip(h.seq);
    crate::wire::lemma_u32_roundtrip(h.length);
}

/// Reading back what `write_frame` wrote gives the same header and payload,
/// whatever follows the frame, and leaves exactly what followed it.
pub proof fn lemma_frame_roundtrip(
    msg_type: MessageType,
    stream_id: u64,
    seq: u64,
    payload: Seq<u8>,
    rest: Seq<u8>,
)
    requires
        payload.len() <= MAX_PAYLOAD,
    ensures
        frame_result(frame_bytes(msg_type, stream_id, seq, payload) + rest) == Ok::<
            (FrameHeader, Seq<u8>),
            ProtocolError,
        >((outgoing_header(msg_type, stream_id, seq, payload.len()), payload)),
        frame_rest(frame_bytes(msg_type, stream_id, seq, payload) + rest) == rest,
        outgoing_header(msg_type, stream_id, seq, payload.len()).length == payload.len(),
        message_type_of(outgoing_header(msg_type, stream_id, seq, payload.len()).msg_type) == Some(
            msg_type,
        ),
{
    let h = outgoing_header(msg_type, stream_id, seq, payload.len());
    assert(h.length == payload.len());
    lemma_header_roundtrip(h);
    let b = frame_bytes(msg_type, stream_id, seq, payload) + rest;
    assert(b.subrange(0, 32) =~= header_bytes(h));
    assert(b.subrange(32, 32 + h.length) =~= payload);
    assert(b.subrange(32 + h.length, b.len() as int) =~= rest);
    lemma_message_type_roundtrip(msg_type, 0);
}

/// A frame that reads successfully is exactly the bytes it was read from:
/// writing its header and payload back gives the consumed prefix.
pub proof fn lemma_frame_reencode(bytes: Seq<u8>)
    requires
        frame_result(bytes) is Ok,
    ensures
        header_bytes(frame_result(bytes)->Ok_0.0) + frame_result(bytes)->Ok_0.1 == bytes.subrange(
            0,
            32 + frame_result(bytes)->Ok_0.1.len() as int,
        ),
        frame_rest(bytes) == bytes.subrange(32 + frame_result(bytes)->Ok_0.1.len() as int, bytes.len() as int),
{
    let hb = bytes.subrange(0, 32);
    let h = frame_result(bytes)->Ok_0.0;
    crate::wire::lemma_be_u32_of_bytes(hb.subrange(0, 4));
    crate::wire::lemma_be_u16_of_bytes(hb.subrange(4, 6));
    crate::wire::lemma_be_u16_of_bytes(hb.subrange(6, 8));
    crate::wire::lemma_be_u32_of_bytes(hb.subrange(8, 12));
    crate::wire::lemma_be_u64_of_bytes(hb.subrange(12, 20));
    crate::wire::lemma_be_u64_of_bytes(hb.subrange(20, 28));
    crate::wire::lemma_be_u32_of_bytes(hb.subrange(28, 32));
    assert(header_bytes(h) =~= hb);
    assert(hb + bytes.subrange(32, 32 + h.length) =~= bytes.subrange(0, 32 + h.length));
}

/// The wire numbers of the message types are the protocol's fixed values, and
/// reading a number back names the same type.
pub proof fn lemma_message_type_codes()
    ensures
        MessageType::Hello.code() == 1,
        MessageType::HelloAck.code() == 2,
        MessageType::CapabilitiesRequest.code() == 3,
        MessageType::CapabilitiesResponse.code() == 4,
        MessageType::Authenticate.code() == 5,
        MessageType::StartStream.code() == 10,
        MessageType::StopStream.code() == 11,
        MessageType::VideoFrame.code() == 12,
        MessageType::RequestKeyframe.code() == 13,
        MessageType::InputTouch.code() == 20,
        MessageType::InputKey.code() == 21,
        MessageType::InputText.code() == 22,
        MessageType::ClipboardGet.code() == 30,
        MessageType::ClipboardSet.code() == 31,
        MessageType::ClipboardChanged.code() == 32,
        MessageType::OrientationChanged.code() == 40,
        MessageType::ScreenInfo.code() == 41,
        MessageType::SystemAction.code() == 50,
        MessageType::KeyboardMode.code() == 51,
        MessageType::Ping.code() == 60,
        MessageType::Pong.code() == 61,
        MessageType::Error.code() == 70,
        MessageType::Log.code() == 71,
        message_type_of(1) == Some(MessageType::Hello),
        message_type_of(2) == Some(MessageType::HelloAck),
        message_type_of(3) == Some(MessageType::CapabilitiesRequest),
        message_type_of(4) == Some(MessageType::CapabilitiesResponse),
        message_type_of(5) == Some(MessageType::Authenticate),
        message_type_of(10) == Some(MessageType::StartStream),
        message_type_of(11) == Some(MessageType::StopStream),
        message_type_of(12) == Some(MessageType::VideoFrame),
        message_type_of(13) == Some(MessageType::RequestKeyframe),
        message_type_of(20) == Some(MessageType::InputTouch),
        message_type_of(21) == Some(MessageType::InputKey),
        message_type_of(22) == Some(MessageType::InputText),
        message_type_of(30) == Some(MessageType::ClipboardGet),
        message_type_of(31) == Some(MessageType::ClipboardSet),
        message_type_of(32) == Some(MessageType::ClipboardChanged),
        message_type_of(40) == Some(MessageType::OrientationChanged),
        message_type_of(41) == Some(MessageType::ScreenInfo),
        message_type_of(50) == Some(MessageType::SystemAction),
        message_type_of(51) == Some(MessageType::KeyboardMode),
        message_type_of(60) == Some(MessageType::Ping),
        message_type_of(61) == Some(MessageType::Pong),
        message_type_of(70) == Some(MessageType::Error),
        message_type_of(71) == Some(MessageType::Log),
{
}

/// A frame written with a message type carries that type's fixed wire number
/// in bytes 6..8 of its header.
pub proof fn lemma_frame_type_bytes(msg_type: MessageType, stream_id: u64, seq: u64, payload: Seq<u8>)
    ensures
        frame_bytes(msg_type, stream_id, seq, payload).subrange(6, 8) == be_u16(msg_type.code()),
{
    assert(frame_bytes(msg_type, stream_id, seq, payload).subrange(6, 8) =~= be_u16(msg_type.code()));
}
} // verus!
