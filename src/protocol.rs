//! The wire protocol spoken to the strip's firmware.
//!
//! Every frame starts with [`PREFIX`], followed by a command byte and a
//! fixed number of operand bytes; there is no other delimiter.
use vstd::prelude::*;

use crate::color::Color;

verus! {

/// Leading byte of every frame.
pub const PREFIX: u8 = 0xAB;

/// Command byte: set a single LED to a colour.
pub const SET_LED: u8 = 0x01;

/// Command byte: show one colour on the whole strip.
pub const SHOW_ALL: u8 = 0x02;

/// Length in bytes of a set-one-LED frame.
pub const SET_LED_LEN: usize = 6;

/// Length in bytes of a show-colour frame.
pub const SHOW_ALL_LEN: usize = 5;

/// A logical command, before encoding.
#[derive(Clone, Copy, Debug, PartialEq, Eq, Structural)]
pub enum Frame {
    SetLed { index: u8, color: Color },
    ShowAll { color: Color },
}

/// Bytes of `[PREFIX, SET_LED, index, r, g, b]`.
pub open spec fn set_led_bytes(index: u8, c: Color) -> Seq<u8> {
    seq![PREFIX, SET_LED, index, c.r, c.g, c.b]
}

/// Bytes of `[PREFIX, SHOW_ALL, r, g, b]`.
pub open spec fn show_all_bytes(c: Color) -> Seq<u8> {
    seq![PREFIX, SHOW_ALL, c.r, c.g, c.b]
}

pub open spec fn frame_bytes(f: Frame) -> Seq<u8> {
    match f {
        Frame::SetLed { index, color } => set_led_bytes(index, color),
        Frame::ShowAll { color } => show_all_bytes(color),
    }
}

/// The frame that a byte sequence spells, if it spells exactly one.
pub open spec fn parse_frame(s: Seq<u8>) -> Option<Frame> {
    if s.len() == 6 && s[0] == PREFIX && s[1] == SET_LED {
        Some(Frame::SetLed { index: s[2], color: Color { r: s[3], g: s[4], b: s[5] } })
    } else if s.len() == 5 && s[0] == PREFIX && s[1] == SHOW_ALL {
        Some(Frame::ShowAll { color: Color { r: s[2], g: s[3], b: s[4] } })
    } else {
        None
    }
}

/// Encodes the command that sets LED `index` to `color`.
pub fn set_led_frame(index: u8, color: Color) -> (r: Vec<u8>)
    ensures
        r@ == set_led_bytes(index, color),
{
    let r = vec![PREFIX, SET_LED, index, color.r, color.g, color.b];
    assert(r@ =~= set_led_bytes(index, color));
    r
}

/// Encodes the command that shows `color` on every LED of the strip.
pub fn show_all_frame(color: Color) -> (r: Vec<u8>)
    ensures
        r@ == show_all_bytes(color),
{
    let r = vec![PREFIX, SHOW_ALL, color.r, color.g, color.b];
    assert(r@ =~= show_all_bytes(color));
    r
}

impl Frame {
    /// The bytes of this frame on the wire.
    pub fn encode(&self) -> (r: Vec<u8>)
        ensures
            r@ == frame_bytes(*self),
    {
        match *self {
            Frame::SetLed { index, color } => set_led_frame(index, color),
            Frame::ShowAll { color } => show_all_frame(color),
        }
    }
}

/// Reads one complete frame; `None` when the bytes are not exactly one
/// well-formed frame.
pub fn decode_frame(bytes: &[u8]) -> (r: Option<Frame>)
    ensures
        r == parse_frame(bytes@),
{
    let n = bytes.len();
    if n == SET_LED_LEN && bytes[0] == PREFIX && bytes[1] == SET_LED {
        Some(Frame::SetLed { index: bytes[2], color: Color { r: bytes[3], g: bytes[4], b: bytes[5] } })
    } else if n == SHOW_ALL_LEN && bytes[0] == PREFIX && bytes[1] == SHOW_ALL {
        Some(Frame::ShowAll { color: Color { r: bytes[2], g: bytes[3], b: bytes[4] } })
    } else {
        None
    }
}

/// Decoding the encoding of a frame gives that frame back.
pub proof fn lemma_decode_encode(f: Frame)
    ensures
        parse_frame(frame_bytes(f)) == Some(f),
{
}

/// A byte sequence that decodes to a frame is exactly that frame's encoding.
pub proof fn lemma_encode_decode(s: Seq<u8>)
    requires
        parse_frame(s) is Some,
    ensures
        frame_bytes(parse_frame(s)->Some_0) == s,
{
    assert(frame_bytes(parse_frame(s)->Some_0) =~= s);
}

} // verus!
