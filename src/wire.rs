//! The wire format of a channel message.
//!
//! A message is a tag byte and a payload:
//! - `[1]` asks the peer to switch the monitor's input;
//! - `[0, kind, ..]` carries an input event, where `kind` picks the event:
//!   `0` a key `[key id, state]`, `1` a motion `[dx: 4 bytes, dy: 4 bytes]`,
//!   `2` a button `[id, state]`, `3` a scroll `[delta: 4 bytes]`.
//! Integers are little-endian two's complement.
use vstd::prelude::*;
use crate::codes::{
    button_id, button_of_id, key_id, key_of_id, lemma_id_round_trip, state_byte,
    state_of_byte, ElementState, HidEvent, KeyCode, MouseButton, MouseButtons, ScanCode,
};

verus! {

pub const TAG_HID: u8 = 0;
pub const TAG_CHANGE_DISPLAY: u8 = 1;
pub const KIND_KEY: u8 = 0;
pub const KIND_MOTION: u8 = 1;
pub const KIND_BUTTON: u8 = 2;
pub const KIND_SCROLL: u8 = 3;

/// The longest encoded message: a tag, a kind and two 4-byte integers.
pub const MAX_MESSAGE_LEN: usize = 10;

/// The unit that crosses the channel.
#[derive(Clone, Copy, Debug, PartialEq, Eq, Hash, Structural)]
pub enum ChannelMessage {
    Hid(HidEvent),
    ChangeDisplay,
}

/// Why a byte string is not a message.
#[derive(Clone, Copy, Debug, PartialEq, Eq, Hash, Structural)]
pub enum DecodeError {
    /// The length does not fit the shape that the tags announce.
    Malformed,
    /// A discriminant (tag, kind, key, button or state) has no meaning.
    UnknownTag,
}

/// The four little-endian bytes of `v`.
pub open spec fn le_bytes(v: u32) -> Seq<u8> {
    seq![v as u8, (v >> 8u32) as u8, (v >> 16u32) as u8, (v >> 24u32) as u8]
}

/// The number whose little-endian bytes are `b0..b3`.
pub open spec fn le_value(b0: u8, b1: u8, b2: u8, b3: u8) -> u32 {
    (b0 as u32) | ((b1 as u32) << 8u32) | ((b2 as u32) << 16u32) | ((b3 as u32) << 24u32)
}

/// The signed number held in the four bytes of `b` from `at` on.
pub open spec fn i32_at(b: Seq<u8>, at: int) -> i32 {
    le_value(b[at], b[at + 1], b[at + 2], b[at + 3]) as i32
}

/// The bytes of an input event, after the message tag.
pub open spec fn event_bytes(e: HidEvent) -> Seq<u8> {
    match e {
        HidEvent::Key(s) => seq![KIND_KEY, key_id(s.code), state_byte(s.dir)],
        HidEvent::MouseDelta(dx, dy) => seq![KIND_MOTION] + le_bytes(dx as u32) + le_bytes(
            dy as u32,
        ),
        HidEvent::MouseButton(b) => seq![KIND_BUTTON, button_id(b.button), state_byte(b.dir)],
        HidEvent::MouseScroll(d) => seq![KIND_SCROLL] + le_bytes(d as u32),
    }
}

/// The encoding of a message.
pub open spec fn message_bytes(m: ChannelMessage) -> Seq<u8> {
    match m {
        ChannelMessage::Hid(e) => seq![TAG_HID] + event_bytes(e),
        ChannelMessage::ChangeDisplay => seq![TAG_CHANGE_DISPLAY],
    }
}

/// What the bytes after the message tag say, as an input event.
pub open spec fn parse_event(p: Seq<u8>) -> Result<HidEvent, DecodeError> {
    if p.len() == 0 {
        Err(DecodeError::Malformed)
    } else if p[0] == KIND_KEY {
        if p.len() != 3 {
            Err(DecodeError::Malformed)
        } else {
            match (key_of_id(p[1]), state_of_byte(p[2])) {
                (Some(code), Some(dir)) => Ok(HidEvent::Key(ScanCode { code, dir })),
                _ => Err(DecodeError::UnknownTag),
            }
        }
    } else if p[0] == KIND_MOTION {
        if p.len() != 9 {
            Err(DecodeError::Malformed)
        } else {
            Ok(HidEvent::MouseDelta(i32_at(p, 1), i32_at(p, 5)))
        }
    } else if p[0] == KIND_BUTTON {
        if p.len() != 3 {
            Err(DecodeError::Malformed)
        } else {
            match (button_of_id(p[1]), state_of_byte(p[2])) {
                (Some(button), Some(dir)) => Ok(HidEvent::MouseButton(MouseButtons { button, dir })),
                _ => Err(DecodeError::UnknownTag),
            }
        }
    } else if p[0] == KIND_SCROLL {
        if p.len() != 5 {
            Err(DecodeError::Malformed)
        } else {
            Ok(HidEvent::MouseScroll(i32_at(p, 1)))
        }
    } else {
        Err(DecodeError::UnknownTag)
    }
}

/// What a byte string says, as a message.
pub open spec fn parse_message(b: Seq<u8>) -> Result<ChannelMessage, DecodeError> {
    if b.len() == 0 {
        Err(DecodeError::Malformed)
    } else if b[0] == TAG_CHANGE_DISPLAY {
        if b.len() == 1 {
            Ok(ChannelMessage::ChangeDisplay)
        } else {
            Err(DecodeError::Malformed)
        }
    } else if b[0] == TAG_HID {
        match parse_event(b.skip(1)) {
            Ok(e) => Ok(ChannelMessage::Hid(e)),
            Err(err) => Err(err),
        }
    } else {
        Err(DecodeError::UnknownTag)
    }
}

pub(crate) proof fn lemma_le_round_trip(v: u32)
    ensures
        le_value(v as u8, (v >> 8u32) as u8, (v >> 16u32) as u8, (v >> 24u32) as u8) == v,
{
    assert(((v as u8) as u32) | ((((v >> 8u32) as u8) as u32) << 8u32) | ((((v >> 16u32) as u8)
        as u32) << 16u32) | ((((v >> 24u32) as u8) as u32) << 24u32) == v) by (bit_vector);
}

proof fn lemma_le_canonical(b0: u8, b1: u8, b2: u8, b3: u8)
    ensures
        le_bytes(le_value(b0, b1, b2, b3)) == seq![b0, b1, b2, b3],
{
    let v = le_value(b0, b1, b2, b3);
    assert(v as u8 == b0 && (v >> 8u32) as u8 == b1 && (v >> 16u32) as u8 == b2 && (v >> 24u32)
        as u8 == b3) by (bit_vector)
        requires
            v == (b0 as u32) | ((b1 as u32) << 8u32) | ((b2 as u32) << 16u32) | ((b3 as u32)
                << 24u32),
    ;
}

proof fn lemma_i32_round_trip(x: i32)
    ensures
        (x as u32) as i32 == x,
{
    assert((x as u32) as i32 == x) by (bit_vector);
}

proof fn lemma_u32_round_trip(v: u32)
    ensures
        (v as i32) as u32 == v,
{
    assert((v as i32) as u32 == v) by (bit_vector);
}

/// Decoding the encoding of a message gives the message back.
pub proof fn lemma_decode_encode(m: ChannelMessage)
    ensures
        parse_message(message_bytes(m)) == Ok::<ChannelMessage, DecodeError>(m),
{
    lemma_id_round_trip();
    let b = message_bytes(m);
    match m {
        ChannelMessage::Hid(e) => {
            assert(b.skip(1) =~= event_bytes(e));
            match e {
                HidEvent::MouseDelta(dx, dy) => {
                    lemma_le_round_trip(dx as u32);
                    lemma_le_round_trip(dy as u32);
                    lemma_i32_round_trip(dx);
                    lemma_i32_round_trip(dy);
                },
                HidEvent::MouseScroll(d) => {
                    lemma_le_round_trip(d as u32);
                    lemma_i32_round_trip(d);
                },
                HidEvent::Key(s) => {
                    assert(key_of_id(key_id(s.code)) == Some(s.code));
                },
                HidEvent::MouseButton(mb) => {
                    assert(button_of_id(button_id(mb.button)) == Some(mb.button)) by {
                        match mb.button {
                            MouseButton::Left => {},
                            MouseButton::Right => {},
                            MouseButton::Middle => {},
                            MouseButton::Back => {},
                            MouseButton::Forward => {},
                        }
                    }
                    assert(state_of_byte(state_byte(mb.dir)) == Some(mb.dir)) by {
                        match mb.dir {
                            ElementState::Pressed => {},
                            ElementState::Released => {},
                        }
                    }
                },
            }
        },
        ChannelMessage::ChangeDisplay => {},
    }
}

/// Decoding accepts only encodings: a byte string that decodes to a message
/// is that message's encoding.
pub proof fn lemma_decode_canonical(b: Seq<u8>, m: ChannelMessage)
    requires
        parse_message(b) == Ok::<ChannelMessage, DecodeError>(m),
    ensures
        b == message_bytes(m),
{
    lemma_id_round_trip();
    if b[0] == TAG_HID {
        let p = b.skip(1);
        if p[0] == KIND_KEY {
            let code = key_of_id(p[1]).unwrap();
            assert(key_id(code) == p[1]);
            assert(state_byte(state_of_byte(p[2]).unwrap()) == p[2]);
        } else if p[0] == KIND_MOTION {
            lemma_le_canonical(p[1], p[2], p[3], p[4]);
            lemma_le_canonical(p[5], p[6], p[7], p[8]);
            lemma_u32_round_trip(le_value(p[1], p[2], p[3], p[4]));
            lemma_u32_round_trip(le_value(p[5], p[6], p[7], p[8]));
            assert(p =~= seq![KIND_MOTION] + seq![p[1], p[2], p[3], p[4]] + seq![p[5], p[6], p[7], p[8]]);
        } else if p[0] == KIND_BUTTON {
            assert(button_id(button_of_id(p[1]).unwrap()) == p[1]);
            assert(state_byte(state_of_byte(p[2]).unwrap()) == p[2]);
        } else {
            lemma_le_canonical(p[1], p[2], p[3], p[4]);
            lemma_u32_round_trip(le_value(p[1], p[2], p[3], p[4]));
            assert(p =~= seq![KIND_SCROLL] + seq![p[1], p[2], p[3], p[4]]);
        }
        assert(b =~= seq![TAG_HID] + p);
    } else {
        assert(b =~= seq![TAG_CHANGE_DISPLAY]);
    }
}

fn push_le(out: &mut Vec<u8>, x: i32)
    ensures
        final(out)@ == old(out)@ + le_bytes(x as u32),
{
    let v = x as u32;
    out.push(v as u8);
    out.push((v >> 8u32) as u8);
    out.push((v >> 16u32) as u8);
    out.push((v >> 24u32) as u8);
    assert(final(out)@ =~= old(out)@ + le_bytes(x as u32));
}

fn read_le(b: &[u8], at: usize) -> (r: i32)
    requires
        at + 4 <= b@.len(),
    ensures
        r == i32_at(b@, at as int),
{
    let v = (b[at] as u32) | ((b[at + 1] as u32) << 8u32) | ((b[at + 2] as u32) << 16u32) | ((
    b[at + 3] as u32) << 24u32);
    v as i32
}

/// The bytes of a message.
pub fn encode(m: &ChannelMessage) -> (r: Vec<u8>)
    ensures
        r@ == message_bytes(*m),
        r@.len() <= MAX_MESSAGE_LEN,
{
    let mut out: Vec<u8> = Vec::new();
    match m {
        ChannelMessage::ChangeDisplay => {
            out.push(TAG_CHANGE_DISPLAY);
        },
        ChannelMessage::Hid(e) => {
            out.push(TAG_HID);
            match e {
                HidEvent::Key(s) => {
                    out.push(KIND_KEY);
                    out.push(s.code.id());
                    out.push(s.dir.to_byte());
                },
                HidEvent::MouseDelta(dx, dy) => {
                    out.push(KIND_MOTION);
                    push_le(&mut out, *dx);
                    push_le(&mut out, *dy);
                },
                HidEvent::MouseButton(b) => {
                    out.push(KIND_BUTTON);
                    out.push(b.to_hid());
                    out.push(b.dir.to_byte());
                },
                HidEvent::MouseScroll(d) => {
                    out.push(KIND_SCROLL);
                    push_le(&mut out, *d);
                },
            }
        },
    }
    assert(out@ =~= message_bytes(*m));
    out
}

fn decode_event(b: &[u8]) -> (r: Result<HidEvent, DecodeError>)
    requires
        b@.len() >= 1,
    ensures
        r == parse_event(b@.skip(1)),
{
    let n = b.len();
    let ghost p = b@.skip(1);
    if n == 1 {
        return Err(DecodeError::Malformed);
    }
    let kind = b[1];
    if kind == KIND_KEY {
        if n != 4 {
            Err(DecodeError::Malformed)
        } else {
            match (KeyCode::from_id(b[2]), ElementState::from_byte(b[3])) {
                (Some(code), Some(dir)) => Ok(HidEvent::Key(ScanCode { code, dir })),
                _ => Err(DecodeError::UnknownTag),
            }
        }
    } else if kind == KIND_MOTION {
        if n != 10 {
            Err(DecodeError::Malformed)
        } else {
            let dx = read_le(b, 2);
            let dy = read_le(b, 6);
            assert(i32_at(b@, 2) == i32_at(p, 1) && i32_at(b@, 6) == i32_at(p, 5));
            Ok(HidEvent::MouseDelta(dx, dy))
        }
    } else if kind == KIND_BUTTON {
        if n != 4 {
            Err(DecodeError::Malformed)
        } else {
            match (MouseButton::from_id(b[2]), ElementState::from_byte(b[3])) {
                (Some(button), Some(dir)) => Ok(HidEvent::MouseButton(MouseButtons { button, dir })),
                _ => Err(DecodeError::UnknownTag),
            }
        }
    } else if kind == KIND_SCROLL {
        if n != 6 {
            Err(DecodeError::Malformed)
        } else {
            let d = read_le(b, 2);
            assert(i32_at(b@, 2) == i32_at(p, 1));
            Ok(HidEvent::MouseScroll(d))
        }
    } else {
        Err(DecodeError::UnknownTag)
    }
}

/// The message that a byte string holds, or why it holds none.
pub fn decode(b: &[u8]) -> (r: Result<ChannelMessage, DecodeError>)
    ensures
        r == parse_message(b@),
{
    if b.len() == 0 {
        Err(DecodeError::Malformed)
    } else if b[0] == TAG_CHANGE_DISPLAY {
        if b.len() == 1 {
            Ok(ChannelMessage::ChangeDisplay)
        } else {
            Err(DecodeError::Malformed)
        }
    } else if b[0] == TAG_HID {
        match decode_event(b) {
            Ok(e) => Ok(ChannelMessage::Hid(e)),
            Err(err) => Err(err),
        }
    } else {
        Err(DecodeError::UnknownTag)
    }
}

} // verus!
