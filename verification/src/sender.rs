//! Serialization of bytes, colors and frames into wire actions.
//!
//! A byte goes out as eight pulses, most significant bit first; a pixel
//! as its green, red and blue bytes in that order (fixed by the wire
//! protocol, not by the storage layout); a frame as its pixels in
//! sequence order followed by the reset latch delay. Each pulse is a
//! pin-high phase and a pin-low phase with the durations of
//! `crate::timing`.

use crate::timing::Pulse;
use crate::timing::RESET;
use crate::timing::lemma_pulse_round_trip;
use crate::timing::pulse_for_bit;
use crate::timing::spec_decode_pulse;
use crate::timing::spec_pulse_for_bit;
use vstd::assert_seqs_equal;
use vstd::prelude::*;

verus! {

/// One pixel: three independent 8-bit channel values, red first in
/// storage. The wire order is green, red, blue.
#[derive(Clone, Copy, PartialEq, Eq, Structural, Debug)]
pub struct Color {
    pub r: u8,
    pub g: u8,
    pub b: u8,
}

/// One step of the driver at the wire: a pin transition or a busy-wait.
#[derive(Clone, Copy, PartialEq, Eq, Structural, Debug)]
pub enum Action {
    /// Drive the output pin high.
    PinHigh,
    /// Drive the output pin low.
    PinLow,
    /// Busy-wait for this many processor cycles.
    DelayCycles(u32),
}

/// The bit of `byte` at transmission index `i`: index 0 is the most
/// significant bit.
pub open spec fn spec_tx_bit(byte: u8, i: int) -> bool
    recommends
        0 <= i < 8,
{
    (byte >> ((7 - i) as u8)) & 1 == 1
}

/// The eight pulses that serialize `byte`, most significant bit first.
pub open spec fn spec_byte_pulses(byte: u8) -> Seq<Pulse> {
    Seq::new(8, |i: int| spec_pulse_for_bit(spec_tx_bit(byte, i)))
}

/// The actions of one pulse: the high phase, then the low phase.
pub open spec fn spec_pulse_actions(p: Pulse) -> Seq<Action> {
    seq![
        Action::PinHigh,
        Action::DelayCycles(p.high),
        Action::PinLow,
        Action::DelayCycles(p.low),
    ]
}

/// The actions of the first `n` pulses of `byte`.
pub open spec fn spec_byte_actions_upto(byte: u8, n: int) -> Seq<Action>
    decreases n,
{
    if n <= 0 {
        Seq::empty()
    } else {
        spec_byte_actions_upto(byte, n - 1) + spec_pulse_actions(spec_byte_pulses(byte)[n - 1])
    }
}

/// The actions that serialize one byte: its eight pulses in order.
pub open spec fn spec_send_byte(byte: u8) -> Seq<Action> {
    spec_byte_actions_upto(byte, 8)
}

/// The actions that serialize one pixel: green, red, blue.
pub open spec fn spec_send_color(c: Color) -> Seq<Action> {
    spec_send_byte(c.g) + spec_send_byte(c.r) + spec_send_byte(c.b)
}

/// The actions of the first `n` pixels of a frame.
pub open spec fn spec_frame_colors_upto(pixels: Seq<Color>, n: int) -> Seq<Action>
    decreases n,
{
    if n <= 0 {
        Seq::empty()
    } else {
        spec_frame_colors_upto(pixels, n - 1) + spec_send_color(pixels[n - 1])
    }
}

/// The actions that serialize a whole frame: every pixel in sequence
/// order, then the reset latch delay.
pub open spec fn spec_send_frame(pixels: Seq<Color>) -> Seq<Action> {
    spec_frame_colors_upto(pixels, pixels.len() as int) + seq![Action::DelayCycles(RESET)]
}

/// A copy of `byte` with its bit order reversed: bit `j` of the result
/// is bit `7 - j` of `byte`.
pub fn reverse_bits_u8(byte: u8) -> (r: u8)
    ensures
        forall|j: u8| j < 8 ==> ((#[trigger] (r >> j)) & 1) == ((byte >> ((7 - j) as u8)) & 1),
{
    let r: u8 = ((byte & 0x01) << 7) | ((byte & 0x02) << 5) | ((byte & 0x04) << 3) | ((byte
        & 0x08) << 1) | ((byte & 0x10) >> 1) | ((byte & 0x20) >> 3) | ((byte & 0x40) >> 5) | ((byte
        & 0x80) >> 7);
    proof {
        assert(forall|j: u8|
            j < 8 ==> (((((byte & 0x01) << 7) | ((byte & 0x02) << 5) | ((byte & 0x04) << 3) | ((
            byte & 0x08) << 1) | ((byte & 0x10) >> 1) | ((byte & 0x20) >> 3) | ((byte & 0x40) >> 5)
                | ((byte & 0x80) >> 7)) >> j) & 1) == ((byte >> ((7 - j) as u8)) & 1))
            by (bit_vector);
    }
    r
}

/// Appends to `out` the actions that serialize `byte`: eight pulses,
/// most significant bit first. Each bit is taken from a bit-reversed
/// copy of the byte, iterating bit positions 0 through 7.
pub fn send_byte(byte: u8, out: &mut Vec<Action>)
    ensures
        final(out)@ == old(out)@ + spec_send_byte(byte),
{
    let rev: u8 = reverse_bits_u8(byte);
    let mut i: u8 = 0;
    while i < 8
        invariant
            i <= 8,
            forall|j: u8| j < 8 ==> ((#[trigger] (rev >> j)) & 1) == ((byte >> ((7 - j) as u8))
                & 1),
            out@ == old(out)@ + spec_byte_actions_upto(byte, i as int),
        decreases 8 - i,
    {
        let current_bit: u8 = (rev >> i) & 0x01;
        proof {
            assert(((byte >> ((7 - i) as u8)) & 1) == 0 || ((byte >> ((7 - i) as u8)) & 1) == 1)
                by (bit_vector);
        }
        let p: Pulse = pulse_for_bit(current_bit == 1);
        out.push(Action::PinHigh);
        out.push(Action::DelayCycles(p.high));
        out.push(Action::PinLow);
        out.push(Action::DelayCycles(p.low));
        proof {
            assert((current_bit == 1) == spec_tx_bit(byte, i as int));
            assert(spec_byte_pulses(byte)[i as int] == p);
            assert_seqs_equal!(out@, old(out)@ + spec_byte_actions_upto(byte, i as int + 1));
        }
        i = i + 1;
    }
}

/// Appends to `out` the actions that serialize one pixel: its green
/// byte, then its red byte, then its blue byte.
pub fn send_color(color: &Color, out: &mut Vec<Action>)
    ensures
        final(out)@ == old(out)@ + spec_send_color(*color),
{
    send_byte(color.g, out);
    send_byte(color.r, out);
    send_byte(color.b, out);
    proof {
        assert_seqs_equal!(out@, old(out)@ + spec_send_color(*color));
    }
}

/// Appends to `out` the actions that serialize a whole frame: every
/// pixel of `color_array` in sequence order, then the reset latch
/// delay.
pub fn send_color_array(color_array: &Vec<Color>, out: &mut Vec<Action>)
    ensures
        final(out)@ == old(out)@ + spec_send_frame(color_array@),
{
    let mut k: usize = 0;
    while k < color_array.len()
        invariant
            k <= color_array.len(),
            out@ == old(out)@ + spec_frame_colors_upto(color_array@, k as int),
        decreases color_array.len() - k,
    {
        let c: Color = color_array[k];
        send_color(&c, out);
        proof {
            assert_seqs_equal!(out@, old(out)@ + spec_frame_colors_upto(color_array@, k as int + 1));
        }
        k = k + 1;
    }
    out.push(Action::DelayCycles(RESET));
    proof {
        assert_seqs_equal!(out@, old(out)@ + spec_send_frame(color_array@));
    }
}

/// The value of one transmitted bit.
pub open spec fn spec_bit_val(bit: bool) -> u8 {
    if bit {
        1
    } else {
        0
    }
}

/// The bits read back from a sequence of pulses.
pub open spec fn spec_decoded_bits(pulses: Seq<Pulse>) -> Seq<bool> {
    Seq::new(pulses.len(), |i: int| spec_decode_pulse(pulses[i]))
}

/// The byte whose transmission-order bits are `s`: bit 0 of `s` is the
/// most significant.
pub open spec fn spec_byte_from_bits(s: Seq<bool>) -> u8
    recommends
        s.len() == 8,
{
    (spec_bit_val(s[0]) << 7) | (spec_bit_val(s[1]) << 6) | (spec_bit_val(s[2]) << 5) | (
    spec_bit_val(s[3]) << 4) | (spec_bit_val(s[4]) << 3) | (spec_bit_val(s[5]) << 2) | (
    spec_bit_val(s[6]) << 1) | spec_bit_val(s[7])
}

/// A byte goes out as exactly eight pulses, and the pulses, decoded
/// back to bits, reconstruct the byte exactly.
pub proof fn lemma_byte_pulses_round_trip(byte: u8)
    ensures
        spec_byte_pulses(byte).len() == 8,
        spec_byte_from_bits(spec_decoded_bits(spec_byte_pulses(byte))) == byte,
{
    let bits = spec_decoded_bits(spec_byte_pulses(byte));
    assert forall|i: int| 0 <= i < 8 implies bits[i] == spec_tx_bit(byte, i) by {
        lemma_pulse_round_trip(spec_tx_bit(byte, i));
    }
    assert(forall|k: u8| k < 8 ==> ((#[trigger] (byte >> k)) & 1) == 0 || ((byte >> k) & 1) == 1)
        by (bit_vector);
    assert(spec_bit_val(bits[0]) == (byte >> 7) & 1);
    assert(spec_bit_val(bits[1]) == (byte >> 6) & 1);
    assert(spec_bit_val(bits[2]) == (byte >> 5) & 1);
    assert(spec_bit_val(bits[3]) == (byte >> 4) & 1);
    assert(spec_bit_val(bits[4]) == (byte >> 3) & 1);
    assert(spec_bit_val(bits[5]) == (byte >> 2) & 1);
    assert(spec_bit_val(bits[6]) == (byte >> 1) & 1);
    assert(spec_bit_val(bits[7]) == (byte >> 0) & 1);
    assert(byte == ((((byte >> 7) & 1) << 7) | (((byte >> 6) & 1) << 6) | (((byte >> 5) & 1) << 5)
        | (((byte >> 4) & 1) << 4) | (((byte >> 3) & 1) << 3) | (((byte >> 2) & 1) << 2) | (((byte
        >> 1) & 1) << 1) | ((byte >> 0) & 1))) by (bit_vector);
}

/// A pixel's channels go on the wire green first, then red, then blue.
pub proof fn lemma_color_wire_order(c: Color)
    ensures
        spec_send_color(c) == spec_send_byte(c.g) + spec_send_byte(c.r) + spec_send_byte(c.b),
{
}

/// A byte's actions are its eight pulses' actions in order: pulse `n`
/// contributes its high phase and then its low phase.
pub proof fn lemma_byte_actions_are_pulses(byte: u8, n: int)
    requires
        0 <= n < 8,
    ensures
        spec_byte_actions_upto(byte, n + 1) == spec_byte_actions_upto(byte, n)
            + spec_pulse_actions(spec_byte_pulses(byte)[n]),
{
}

/// A frame is its pixels' transmissions in sequence order, followed by
/// exactly one reset latch delay of the full reset duration.
pub proof fn lemma_frame_structure(pixels: Seq<Color>)
    ensures
        spec_send_frame(pixels) == spec_frame_colors_upto(pixels, pixels.len() as int)
            + seq![Action::DelayCycles(RESET)],
        spec_send_frame(pixels).last() == Action::DelayCycles(RESET),
{
}

/// Pixel `n` appends exactly its own color transmission to the actions
/// of the pixels before it.
pub proof fn lemma_frame_appends_each_pixel(pixels: Seq<Color>, n: int)
    requires
        0 <= n < pixels.len(),
    ensures
        spec_frame_colors_upto(pixels, n + 1) == spec_frame_colors_upto(pixels, n)
            + spec_send_color(pixels[n]),
{
}

} // verus!
