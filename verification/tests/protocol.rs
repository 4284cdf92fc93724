use ioscpy::protocol::{
    parse_header, read_error, read_frame, video_orientation, write_frame, IoErrorKind, MessageType,
    ProtocolError, CHANNEL_CONTROL, CHANNEL_VIDEO, HEADER_SIZE, MAGIC, MAX_PAYLOAD, PROTOCOL_VERSION,
};

#[test]
fn frame_roundtrip() {
    let mut buf = Vec::new();
    write_frame(&mut buf, MessageType::Hello, CHANNEL_CONTROL, 7, b"hi").unwrap();
    assert_eq!(buf.len(), HEADER_SIZE + 2);
    let mut cur = buf;
    let f = read_frame(&mut cur).unwrap();
    assert_eq!(f.message_type(), Some(MessageType::Hello));
    assert_eq!(f.header.stream_id, CHANNEL_CONTROL);
    assert_eq!(f.header.seq, 7);
    assert_eq!(f.payload, b"hi");
}

#[test]
fn rejects_bad_magic() {
    let mut bad = vec![0u8; HEADER_SIZE];
    bad[28..32].copy_from_slice(&0u32.to_be_bytes());
    let mut cur = bad;
    assert!(matches!(
        read_frame(&mut cur),
        Err(ProtocolError::BadMagic(_))
    ));
}

#[test]
fn message_type_roundtrip() {
    for v in [1u16, 2, 5, 12, 13, 50, 60, 61, 70, 71] {
        let mt = MessageType::from_u16(v).unwrap();
        assert_eq!(mt.to_u16(), v);
    }
    assert!(MessageType::from_u16(9999).is_none());
}

fn header(magic: u32, version: u16, msg_type: u16, flags: u32, stream: u64, seq: u64, len: u32) -> Vec<u8> {
    let mut h = Vec::new();
    h.extend_from_slice(&magic.to_be_bytes());
    h.extend_from_slice(&version.to_be_bytes());
    h.extend_from_slice(&msg_type.to_be_bytes());
    h.extend_from_slice(&flags.to_be_bytes());
    h.extend_from_slice(&stream.to_be_bytes());
    h.extend_from_slice(&seq.to_be_bytes());
    h.extend_from_slice(&len.to_be_bytes());
    h
}

#[test]
fn write_frame_lays_out_the_header() {
    let mut buf = vec![0xAAu8];
    write_frame(&mut buf, MessageType::VideoFrame, CHANNEL_VIDEO, 0x0102030405060708, &[9, 8, 7]).unwrap();
    let mut expected = vec![0xAAu8];
    expected.extend(header(MAGIC, PROTOCOL_VERSION, 12, 0, 1, 0x0102030405060708, 3));
    expected.extend([9u8, 8, 7]);
    assert_eq!(buf, expected);
    assert_eq!(&buf[1..5], b"ICPY");
}

#[test]
fn empty_payload_frame_is_header_only() {
    let mut buf = Vec::new();
    write_frame(&mut buf, MessageType::Ping, CHANNEL_CONTROL, 1, &[]).unwrap();
    assert_eq!(buf, header(MAGIC, 4, 60, 0, 0, 1, 0));
    let f = read_frame(&mut buf).unwrap();
    assert_eq!(f.message_type(), Some(MessageType::Ping));
    assert!(f.payload.is_empty());
    assert!(buf.is_empty());
}

#[test]
fn rejects_bad_version() {
    let mut buf = header(MAGIC, 3, 1, 0, 0, 0, 0);
    buf.extend([1u8, 2]);
    assert!(matches!(read_frame(&mut buf), Err(ProtocolError::BadVersion(3))));
    assert_eq!(buf, vec![1u8, 2]);
}

#[test]
fn rejects_oversized_payload() {
    let mut buf = header(MAGIC, 4, 12, 0, 1, 0, MAX_PAYLOAD + 1);
    assert!(matches!(
        read_frame(&mut buf),
        Err(ProtocolError::PayloadTooLarge(n)) if n == MAX_PAYLOAD + 1
    ));
}

#[test]
fn accepts_the_largest_payload_length() {
    let hdr = header(MAGIC, 4, 12, 0, 1, 0, MAX_PAYLOAD);
    let h = parse_header(&hdr).unwrap();
    assert_eq!(h.length, MAX_PAYLOAD);
}

#[test]
fn short_header_is_eof() {
    let mut buf = vec![0x49u8, 0x43, 0x50];
    assert!(matches!(
        read_frame(&mut buf),
        Err(ProtocolError::Io(IoErrorKind::UnexpectedEof))
    ));
    assert!(buf.is_empty());
}

#[test]
fn short_payload_is_eof() {
    let mut buf = header(MAGIC, 4, 22, 0, 0, 0, 5);
    buf.extend(b"abc");
    assert!(matches!(
        read_frame(&mut buf),
        Err(ProtocolError::Io(IoErrorKind::UnexpectedEof))
    ));
    assert!(buf.is_empty());
}

#[test]
fn reading_leaves_the_next_frame() {
    let mut buf = Vec::new();
    write_frame(&mut buf, MessageType::InputText, CHANNEL_CONTROL, 1, b"abc").unwrap();
    write_frame(&mut buf, MessageType::InputKey, CHANNEL_CONTROL, 2, &[1]).unwrap();
    let first = read_frame(&mut buf).unwrap();
    assert_eq!(first.payload, b"abc");
    assert_eq!(first.header.length, 3);
    let second = read_frame(&mut buf).unwrap();
    assert_eq!(second.message_type(), Some(MessageType::InputKey));
    assert_eq!(second.header.seq, 2);
    assert_eq!(second.payload, vec![1u8]);
    assert!(buf.is_empty());
}

#[test]
fn parse_header_reads_every_field() {
    let hdr = header(MAGIC, 4, 41, 0xDEADBEEF, 0x1122334455667788, 99, 16);
    let h = parse_header(&hdr).unwrap();
    assert_eq!(h.version, 4);
    assert_eq!(h.msg_type, 41);
    assert_eq!(h.flags, 0xDEADBEEF);
    assert_eq!(h.stream_id, 0x1122334455667788);
    assert_eq!(h.seq, 99);
    assert_eq!(h.length, 16);
}

#[test]
fn unknown_message_type_is_kept_in_the_header() {
    let mut buf = header(MAGIC, 4, 9999, 0, 0, 0, 0);
    let f = read_frame(&mut buf).unwrap();
    assert_eq!(f.header.msg_type, 9999);
    assert_eq!(f.message_type(), None);
}

#[test]
fn every_message_type_roundtrips() {
    let mut seen = 0;
    for v in 0u16..=200 {
        if let Some(mt) = MessageType::from_u16(v) {
            assert_eq!(mt.to_u16(), v);
            seen += 1;
        }
    }
    assert_eq!(seen, 23);
    assert_eq!(MessageType::Log.to_u16(), 71);
    assert_eq!(MessageType::from_u16(41), Some(MessageType::ScreenInfo));
    assert_eq!(MessageType::from_u16(6), None);
}

#[test]
fn read_errors_turn_timeouts_into_timeout() {
    assert!(matches!(read_error(IoErrorKind::WouldBlock), ProtocolError::Timeout));
    assert!(matches!(read_error(IoErrorKind::TimedOut), ProtocolError::Timeout));
    assert!(matches!(
        read_error(IoErrorKind::UnexpectedEof),
        ProtocolError::Io(IoErrorKind::UnexpectedEof)
    ));
    assert!(matches!(read_error(IoErrorKind::Other), ProtocolError::Io(IoErrorKind::Other)));
}

#[test]
fn video_orientation_reads_bits_three_and_four() {
    assert_eq!(video_orientation(0), 1);
    assert_eq!(video_orientation(0x8), 2);
    assert_eq!(video_orientation(0x10), 3);
    assert_eq!(video_orientation(0x18 | 0x7), 4);
    assert_eq!(video_orientation(0xFFFF_FFE7), 1);
}
