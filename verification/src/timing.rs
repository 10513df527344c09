//! Cycle-count constants of the WS2812 wire protocol and the encoding of
//! one logical bit as a high/low pulse pair.

use vstd::prelude::*;

verus! {

/// Nominal high-phase duration, in processor cycles, of a 0 bit.
pub const T0H: u32 = 22;

/// Nominal high-phase duration, in processor cycles, of a 1 bit.
pub const T1H: u32 = 45;

/// Nominal low-phase duration, in processor cycles, of a 0 bit.
pub const T0L: u32 = 51;

/// Nominal low-phase duration, in processor cycles, of a 1 bit.
pub const T1L: u32 = 38;

/// Low period, in processor cycles, that latches a transmitted frame.
pub const RESET: u32 = 3200;

/// Cycles of call and branch overhead between toggling the pin and the
/// delay taking effect, subtracted from every nominal pulse duration.
pub const TIMING_COMPENSATION_OFFSET: u32 = 2;

/// High-phase duration actually waited for a 0 bit.
pub const BIT0_HIGH: u32 = T0H - TIMING_COMPENSATION_OFFSET;

/// Low-phase duration actually waited for a 0 bit.
pub const BIT0_LOW: u32 = T0L - TIMING_COMPENSATION_OFFSET;

/// High-phase duration actually waited for a 1 bit.
pub const BIT1_HIGH: u32 = T1H - TIMING_COMPENSATION_OFFSET;

/// Low-phase duration actually waited for a 1 bit.
pub const BIT1_LOW: u32 = T1L - TIMING_COMPENSATION_OFFSET;

/// One serialized bit on the wire: the pin is held high for `high`
/// cycles, then low for `low` cycles.
#[derive(Clone, Copy, PartialEq, Eq, Structural, Debug)]
pub struct Pulse {
    pub high: u32,
    pub low: u32,
}

/// The pulse that encodes one logical bit.
pub open spec fn spec_pulse_for_bit(bit: bool) -> Pulse {
    if bit {
        Pulse { high: BIT1_HIGH, low: BIT1_LOW }
    } else {
        Pulse { high: BIT0_HIGH, low: BIT0_LOW }
    }
}

/// Reads a pulse back as the bit it encodes: the two bit values use
/// distinct high-phase durations.
pub open spec fn spec_decode_pulse(p: Pulse) -> bool {
    p.high == BIT1_HIGH
}

/// Encoding a bit as a pulse and decoding the pulse gives the bit back.
pub proof fn lemma_pulse_round_trip(bit: bool)
    ensures
        spec_decode_pulse(spec_pulse_for_bit(bit)) == bit,
{
}

/// Builds the pulse that encodes one logical bit.
pub fn pulse_for_bit(bit: bool) -> (p: Pulse)
    ensures
        p == spec_pulse_for_bit(bit),
{
    if bit {
        Pulse { high: BIT1_HIGH, low: BIT1_LOW }
    } else {
        Pulse { high: BIT0_HIGH, low: BIT0_LOW }
    }
}

} // verus!
