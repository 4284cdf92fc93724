//! The small binary payloads: input events sent to the phone, and the
//! sub-header of the video frames it streams back.

use vstd::prelude::*;
use vstd::slice::{slice_subrange, slice_to_vec};

use crate::wire::{be_u16, be_u32, get_u32, put_u16, put_u32, u32_of_be};

verus! {

/// Touch phase, the first byte of an INPUT_TOUCH payload.
#[derive(Debug, Clone, Copy, PartialEq, Eq, Structural)]
pub enum TouchPhase {
    Down,
    Move,
    Up,
}

impl TouchPhase {
    /// The wire byte of this phase.
    pub open spec fn code(self) -> u8 {
        match self {
            TouchPhase::Down => 0,
            TouchPhase::Move => 1,
            TouchPhase::Up => 2,
        }
    }

    /// The wire byte of this phase.
    pub fn to_u8(self) -> (r: u8)
        ensures
            r == self.code(),
    {
        match self {
            TouchPhase::Down => 0,
            TouchPhase::Move => 1,
            TouchPhase::Up => 2,
        }
    }
}

/// System actions (SYSTEM_ACTION payload, u16). Stable wire values. Not every
/// one has a shortcut yet.
#[derive(Debug, Clone, Copy, PartialEq, Eq, Structural)]
pub enum SystemAction {
    Home,
    Lock,
    Wake,
    AppSwitcher,
    RotateLeft,
    RotateRight,
    Screenshot,
    Back,
}

impl SystemAction {
    /// The wire number of this action.
    pub open spec fn code(self) -> u16 {
        match self {
            SystemAction::Home => 1,
            SystemAction::Lock => 2,
            SystemAction::Wake => 3,
            SystemAction::AppSwitcher => 4,
            SystemAction::RotateLeft => 5,
            SystemAction::RotateRight => 6,
            SystemAction::Screenshot => 7,
            SystemAction::Back => 8,
        }
    }

    /// The wire number of this action.
    pub fn to_u16(self) -> (r: u16)
        ensures
            r == self.code(),
    {
        match self {
            SystemAction::Home => 1,
            SystemAction::Lock => 2,
            SystemAction::Wake => 3,
            SystemAction::AppSwitcher => 4,
            SystemAction::RotateLeft => 5,
            SystemAction::RotateRight => 6,
            SystemAction::Screenshot => 7,
            SystemAction::Back => 8,
        }
    }
}

/// A non-text key event (INPUT_KEY payload, one byte): editing keys and the
/// iOS editing shortcuts. The device maps each to the right HID usage or chord.
#[derive(Debug, Clone, Copy, PartialEq, Eq, Structural)]
pub enum KeyCode {
    Enter,
    Backspace,
    Tab,
    Escape,
    Left,
    Right,
    Up,
    Down,
    /// Cmd+A
    SelectAll,
    /// Cmd+C
    Copy,
    /// Cmd+V
    Paste,
    /// Cmd+X
    Cut,
    /// Cmd+Z
    Undo,
}

impl KeyCode {
    /// The wire byte of this key.
    pub open spec fn code(self) -> u8 {
        match self {
            KeyCode::Enter => 1,
            KeyCode::Backspace => 2,
            KeyCode::Tab => 3,
            KeyCode::Escape => 4,
            KeyCode::Left => 5,
            KeyCode::Right => 6,
            KeyCode::Up => 7,
            KeyCode::Down => 8,
            KeyCode::SelectAll => 10,
            KeyCode::Copy => 11,
            KeyCode::Paste => 12,
            KeyCode::Cut => 13,
            KeyCode::Undo => 14,
        }
    }

    /// The wire byte of this key.
    pub fn to_u8(self) -> (r: u8)
        ensures
            r == self.code(),
    {
        match self {
            KeyCode::Enter => 1,
            KeyCode::Backspace => 2,
            KeyCode::Tab => 3,
            KeyCode::Escape => 4,
            KeyCode::Left => 5,
            KeyCode::Right => 6,
            KeyCode::Up => 7,
            KeyCode::Down => 8,
            KeyCode::SelectAll => 10,
            KeyCode::Copy => 11,
            KeyCode::Paste => 12,
            KeyCode::Cut => 13,
            KeyCode::Undo => 14,
        }
    }
}

/// Encodes an INPUT_TOUCH payload: `phase(u8) id(u8) x(f32 BE) y(f32 BE)`, with
/// x/y normalized to [0, 1] of the screen. The coordinates come as the bit
/// patterns of the `f32`s (`f32::to_bits`), whose big-endian bytes are the
/// floats' big-endian bytes.
pub fn encode_touch_bits(phase: TouchPhase, id: u8, x_bits: u32, y_bits: u32) -> (r: Vec<u8>)
    ensures
        r@ == seq![phase.code(), id] + be_u32(x_bits) + be_u32(y_bits),
{
    let mut v: Vec<u8> = Vec::with_capacity(10);
    v.push(phase.to_u8());
    v.push(id);
    put_u32(&mut v, x_bits);
    put_u32(&mut v, y_bits);
    assert(v@ =~= seq![phase.code(), id] + be_u32(x_bits) + be_u32(y_bits));
    v
}

/// Encodes a SYSTEM_ACTION payload: a single big-endian u16 action code.
pub fn encode_system_action(action: SystemAction) -> (r: Vec<u8>)
    ensures
        r@ == be_u16(action.code()),
{
    let mut v: Vec<u8> = Vec::new();
    put_u16(&mut v, action.to_u16());
    assert(v@ =~= be_u16(action.code()));
    v
}

/// Encodes an INPUT_KEY payload: a single key code byte.
pub fn encode_key(code: KeyCode) -> (r: Vec<u8>)
    ensures
        r@ == seq![code.code()],
{
    let mut v: Vec<u8> = Vec::new();
    v.push(code.to_u8());
    assert(v@ =~= seq![code.code()]);
    v
}

/// Encodes a KEYBOARD_MODE payload: one byte, non-zero (1) to hide the
/// on-screen keyboard, so the device acts like a hardware keyboard is attached.
pub fn encode_keyboard_mode(suppress: bool) -> (r: Vec<u8>)
    ensures
        r@ == seq![if suppress { 1u8 } else { 0u8 }],
{
    let mut v: Vec<u8> = Vec::new();
    v.push(if suppress { 1u8 } else { 0u8 });
    assert(v@ =~= seq![if suppress { 1u8 } else { 0u8 }]);
    v
}

/// Encodes an INPUT_TEXT payload: the typed text as UTF-8.
pub fn encode_text(text: &str) -> (r: Vec<u8>)
    ensures
        r@ == vstd::utf8::encode_utf8(text@),
{
    slice_to_vec(text.as_bytes())
}

/// What a VIDEO_FRAME payload holds: width, height, flags and the encoded
/// bytes, when the 16-byte big-endian sub-header is there and the data it
/// announces is complete. Bytes after the announced data are ignored.
pub open spec fn video_payload_of(p: Seq<u8>) -> Option<(u32, u32, u32, Seq<u8>)> {
    if p.len() < 16 {
        None
    } else {
        let len = u32_of_be(p.subrange(12, 16));
        if p.len() < 16 + len {
            None
        } else {
            Some(
                (
                    u32_of_be(p.subrange(0, 4)),
                    u32_of_be(p.subrange(4, 8)),
                    u32_of_be(p.subrange(8, 12)),
                    p.subrange(16, 16 + len),
                ),
            )
        }
    }
}

/// Parses a VIDEO_FRAME payload: a 16-byte big-endian header (width, height,
/// flags, data length) then the encoded bytes, JPEG or H.264 AVCC depending on
/// `flags`. Returns `(width, height, flags, data)`. `flags` is 0 for plain JPEG.
pub fn parse_video_payload(payload: &[u8]) -> (r: Option<(u32, u32, u32, &[u8])>)
    ensures
        match r {
            Some((w, h, f, data)) => video_payload_of(payload@) == Some((w, h, f, data@)),
            None => video_payload_of(payload@) is None,
        },
{
    if payload.len() < 16 {
        return None;
    }
    let width = get_u32(payload, 0);
    let height = get_u32(payload, 4);
    let flags = get_u32(payload, 8);
    let len = get_u32(payload, 12) as usize;
    let end = match 16usize.checked_add(len) {
        Some(e) => e,
        None => {
            return None;
        },
    };
    if payload.len() < end {
        return None;
    }
    Some((width, height, flags, slice_subrange(payload, 16, end)))
}


/// The wire bytes of the input events are the protocol's fixed numbers.
pub proof fn lemma_input_codes()
    ensures
        TouchPhase::Down.code() == 0,
        TouchPhase::Move.code() == 1,
        TouchPhase::Up.code() == 2,
        SystemAction::Home.code() == 1,
        SystemAction::Lock.code() == 2,
        SystemAction::Wake.code() == 3,
        SystemAction::AppSwitcher.code() == 4,
        SystemAction::RotateLeft.code() == 5,
        SystemAction::RotateRight.code() == 6,
        SystemAction::Screenshot.code() == 7,
        SystemAction::Back.code() == 8,
        KeyCode::Enter.code() == 1,
        KeyCode::Backspace.code() == 2,
        KeyCode::Tab.code() == 3,
        KeyCode::Escape.code() == 4,
        KeyCode::Left.code() == 5,
        KeyCode::Right.code() == 6,
        KeyCode::Up.code() == 7,
        KeyCode::Down.code() == 8,
        KeyCode::SelectAll.code() == 10,
        KeyCode::Copy.code() == 11,
        KeyCode::Paste.code() == 12,
        KeyCode::Cut.code() == 13,
        KeyCode::Undo.code() == 14,
{
}

/// Distinct keys, actions and phases have distinct wire bytes.
pub proof fn lemma_input_codes_distinct(k1: KeyCode, k2: KeyCode, a1: SystemAction, a2: SystemAction)
    ensures
        k1 != k2 ==> k1.code() != k2.code(),
        a1 != a2 ==> a1.code() != a2.code(),
{
}

/// The VIDEO_FRAME sub-header as the phone writes it: width, height, flags and
/// data length, each a big-endian u32, then the data.
pub open spec fn video_payload_bytes(width: u32, height: u32, flags: u32, data: Seq<u8>) -> Seq<u8> {
    be_u32(width) + be_u32(height) + be_u32(flags) + be_u32(data.len() as u32) + data
}

/// Parsing a video payload gives back exactly what the phone put in it (all
/// flag bits included), whatever follows the announced data.
pub proof fn lemma_video_payload_roundtrip(
    width: u32,
    height: u32,
    flags: u32,
    data: Seq<u8>,
    rest: Seq<u8>,
)
    requires
        data.len() <= u32::MAX,
    ensures
        video_payload_of(video_payload_bytes(width, height, flags, data) + rest) == Some(
            (width, height, flags, data),
        ),
{
    let p = video_payload_bytes(width, height, flags, data) + rest;
    assert(p.subrange(0, 4) =~= be_u32(width));
    assert(p.subrange(4, 8) =~= be_u32(height));
    assert(p.subrange(8, 12) =~= be_u32(flags));
    assert(p.subrange(12, 16) =~= be_u32(data.len() as u32));
    crate::wire::lemma_u32_roundtrip(width);
    crate::wire::lemma_u32_roundtrip(height);
    crate::wire::lemma_u32_roundtrip(flags);
    crate::wire::lemma_u32_roundtrip(data.len() as u32);
    assert(p.subrange(16, 16 + data.len() as int) =~= data);
}
} // verus!
