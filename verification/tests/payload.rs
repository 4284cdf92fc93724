use ioscpy::payload::{
    encode_key, encode_keyboard_mode, encode_system_action, encode_text, encode_touch_bits,
    parse_video_payload, KeyCode, SystemAction, TouchPhase,
};

#[test]
fn touch_payload_layout() {
    let v = encode_touch_bits(TouchPhase::Move, 3, 0.5f32.to_bits(), 1.0f32.to_bits());
    let mut expected = vec![1u8, 3];
    expected.extend_from_slice(&0.5f32.to_be_bytes());
    expected.extend_from_slice(&1.0f32.to_be_bytes());
    assert_eq!(v, expected);
    assert_eq!(v.len(), 10);
    assert_eq!(encode_touch_bits(TouchPhase::Up, 0, 0, 0)[0], 2);
    assert_eq!(encode_touch_bits(TouchPhase::Down, 9, 0, 0)[..2], [0u8, 9]);
}

#[test]
fn system_action_payload_is_big_endian() {
    assert_eq!(encode_system_action(SystemAction::Home), vec![0u8, 1]);
    assert_eq!(encode_system_action(SystemAction::Back), vec![0u8, 8]);
    assert_eq!(encode_system_action(SystemAction::RotateRight), vec![0u8, 6]);
}

#[test]
fn key_payload_is_one_byte() {
    assert_eq!(encode_key(KeyCode::Enter), vec![1u8]);
    assert_eq!(encode_key(KeyCode::Down), vec![8u8]);
    assert_eq!(encode_key(KeyCode::SelectAll), vec![10u8]);
    assert_eq!(encode_key(KeyCode::Undo), vec![14u8]);
}

#[test]
fn keyboard_mode_payload() {
    assert_eq!(encode_keyboard_mode(true), vec![1u8]);
    assert_eq!(encode_keyboard_mode(false), vec![0u8]);
}

#[test]
fn text_payload_is_utf8() {
    assert_eq!(encode_text("hi"), b"hi".to_vec());
    assert_eq!(encode_text("é€"), "é€".as_bytes().to_vec());
    assert!(encode_text("").is_empty());
}

fn video(w: u32, h: u32, flags: u32, len: u32, data: &[u8]) -> Vec<u8> {
    let mut p = Vec::new();
    p.extend_from_slice(&w.to_be_bytes());
    p.extend_from_slice(&h.to_be_bytes());
    p.extend_from_slice(&flags.to_be_bytes());
    p.extend_from_slice(&len.to_be_bytes());
    p.extend_from_slice(data);
    p
}

#[test]
fn video_payload_parses() {
    let p = video(1170, 2532, 0x3, 4, &[1, 2, 3, 4, 5]);
    let (w, h, f, data) = parse_video_payload(&p).unwrap();
    assert_eq!((w, h, f), (1170, 2532, 3));
    assert_eq!(data, &[1u8, 2, 3, 4]);
}

#[test]
fn video_payload_rejects_short_input() {
    assert!(parse_video_payload(&[0u8; 15]).is_none());
    let p = video(1, 1, 0, 5, &[1, 2, 3, 4]);
    assert!(parse_video_payload(&p).is_none());
    let p = video(1, 1, 0, u32::MAX, &[]);
    assert!(parse_video_payload(&p).is_none());
}

#[test]
fn video_payload_with_empty_data() {
    let p = video(2, 3, 0, 0, &[]);
    let (w, h, f, data) = parse_video_payload(&p).unwrap();
    assert_eq!((w, h, f), (2, 3, 0));
    assert!(data.is_empty());
}
