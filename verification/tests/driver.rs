//! Tests of the WS2812 driver logic: bit, byte, color and frame
//! serialization, and the timer-operation plans of the delay.

use ws2812_bitbang::delay::delay_clock_cycles;
use ws2812_bitbang::delay::TimerOp;
use ws2812_bitbang::delay::MAX_RELOAD;
use ws2812_bitbang::sender::reverse_bits_u8;
use ws2812_bitbang::sender::send_byte;
use ws2812_bitbang::sender::send_color;
use ws2812_bitbang::sender::send_color_array;
use ws2812_bitbang::sender::Action;
use ws2812_bitbang::sender::Color;
use ws2812_bitbang::timing::pulse_for_bit;
use ws2812_bitbang::timing::BIT0_HIGH;
use ws2812_bitbang::timing::BIT0_LOW;
use ws2812_bitbang::timing::BIT1_HIGH;
use ws2812_bitbang::timing::BIT1_LOW;
use ws2812_bitbang::timing::RESET;

fn byte_actions(byte: u8) -> Vec<Action> {
    let mut out: Vec<Action> = Vec::new();
    send_byte(byte, &mut out);
    out
}

fn color_actions(color: Color) -> Vec<Action> {
    let mut out: Vec<Action> = Vec::new();
    send_color(&color, &mut out);
    out
}

/// Splits a run of actions into (high, low) duration pairs, checking
/// that it is exactly a sequence of high-delay-low-delay pulses.
fn pulses_of(actions: &[Action]) -> Vec<(u32, u32)> {
    assert_eq!(actions.len() % 4, 0);
    let mut pulses: Vec<(u32, u32)> = Vec::new();
    for chunk in actions.chunks(4) {
        assert_eq!(chunk[0], Action::PinHigh);
        let high = match chunk[1] {
            Action::DelayCycles(cycles) => cycles,
            _ => panic!("expected a delay after the high transition"),
        };
        assert_eq!(chunk[2], Action::PinLow);
        let low = match chunk[3] {
            Action::DelayCycles(cycles) => cycles,
            _ => panic!("expected a delay after the low transition"),
        };
        pulses.push((high, low));
    }
    pulses
}

/// Decodes one duration pair back to the bit it encodes.
fn decode_pulse(pulse: (u32, u32)) -> bool {
    pulse.0 == BIT1_HIGH
}

/// Reassembles a byte from its transmission-order bits.
fn byte_from_bits(bits: &[bool]) -> u8 {
    assert_eq!(bits.len(), 8);
    let mut byte: u8 = 0;
    for &bit in bits {
        byte = (byte << 1) | (bit as u8);
    }
    byte
}

#[test]
fn pulse_durations_per_bit() {
    let zero = pulse_for_bit(false);
    assert_eq!(zero.high, 20);
    assert_eq!(zero.low, 49);
    let one = pulse_for_bit(true);
    assert_eq!(one.high, 43);
    assert_eq!(one.low, 36);
    assert_eq!(zero.high, BIT0_HIGH);
    assert_eq!(zero.low, BIT0_LOW);
    assert_eq!(one.high, BIT1_HIGH);
    assert_eq!(one.low, BIT1_LOW);
}

#[test]
fn reverse_bits_concrete() {
    assert_eq!(reverse_bits_u8(0b1011_0000), 0b0000_1101);
    assert_eq!(reverse_bits_u8(0x00), 0x00);
    assert_eq!(reverse_bits_u8(0xff), 0xff);
    assert_eq!(reverse_bits_u8(0x80), 0x01);
    assert_eq!(reverse_bits_u8(0x01), 0x80);
}

#[test]
fn reverse_bits_is_involutive() {
    for byte in 0..=255u8 {
        assert_eq!(reverse_bits_u8(reverse_bits_u8(byte)), byte);
    }
}

#[test]
fn byte_round_trips_through_pulses() {
    for byte in 0..=255u8 {
        let actions = byte_actions(byte);
        let pulses = pulses_of(&actions);
        assert_eq!(pulses.len(), 8);
        let bits: Vec<bool> = pulses.iter().map(|&p| decode_pulse(p)).collect();
        assert_eq!(byte_from_bits(&bits), byte);
    }
}

#[test]
fn byte_0xb0_goes_out_msb_first() {
    let actions = byte_actions(0b1011_0000);
    let pulses = pulses_of(&actions);
    let bits: Vec<bool> = pulses.iter().map(|&p| decode_pulse(p)).collect();
    assert_eq!(
        bits,
        vec![true, false, true, true, false, false, false, false]
    );
    assert_eq!(pulses[0], (BIT1_HIGH, BIT1_LOW));
    assert_eq!(pulses[0], (43, 36));
    assert_ne!(pulses[0].0, BIT0_HIGH);
}

#[test]
fn color_goes_out_green_red_blue() {
    let actions = color_actions(Color { r: 10, g: 20, b: 30 });
    let mut expected = byte_actions(20);
    expected.extend(byte_actions(10));
    expected.extend(byte_actions(30));
    assert_eq!(actions, expected);
}

#[test]
fn red_color_yields_green_red_blue_bytes() {
    let actions = color_actions(Color { r: 255, g: 0, b: 0 });
    let pulses = pulses_of(&actions);
    assert_eq!(pulses.len(), 24);
    let bytes: Vec<u8> = pulses
        .chunks(8)
        .map(|group| {
            let bits: Vec<bool> = group.iter().map(|&p| decode_pulse(p)).collect();
            byte_from_bits(&bits)
        })
        .collect();
    assert_eq!(bytes, vec![0x00, 0xff, 0x00]);
}

#[test]
fn frame_is_each_color_then_reset() {
    let pixels = vec![Color { r: 1, g: 2, b: 3 }, Color { r: 4, g: 5, b: 6 }];
    let mut out: Vec<Action> = Vec::new();
    send_color_array(&pixels, &mut out);
    let mut expected = color_actions(pixels[0]);
    expected.extend(color_actions(pixels[1]));
    expected.push(Action::DelayCycles(RESET));
    assert_eq!(out, expected);
    assert_eq!(*out.last().unwrap(), Action::DelayCycles(3200));
}

#[test]
fn empty_frame_is_reset_only() {
    let pixels: Vec<Color> = Vec::new();
    let mut out: Vec<Action> = Vec::new();
    send_color_array(&pixels, &mut out);
    assert_eq!(out, vec![Action::DelayCycles(RESET)]);
}

#[test]
fn sender_appends_without_clearing() {
    let mut out: Vec<Action> = Vec::new();
    send_byte(0x12, &mut out);
    let first = out.clone();
    send_byte(0x34, &mut out);
    assert_eq!(out[..first.len()], first[..]);
    assert_eq!(out[first.len()..], byte_actions(0x34)[..]);
}

fn delay_ops(cycles: u32) -> Vec<TimerOp> {
    let mut out: Vec<TimerOp> = Vec::new();
    delay_clock_cycles(cycles, &mut out);
    out
}

#[test]
fn delay_of_zero_or_one_configures_nothing() {
    assert_eq!(delay_ops(0), vec![TimerOp::Disable]);
    assert_eq!(delay_ops(1), vec![TimerOp::Disable]);
}

#[test]
fn delay_of_two_is_one_short_wait() {
    assert_eq!(
        delay_ops(2),
        vec![
            TimerOp::SetReload(1),
            TimerOp::ClearCurrent,
            TimerOp::Enable,
            TimerOp::WaitWrap,
            TimerOp::Disable,
        ]
    );
}

#[test]
fn delay_of_full_span_has_no_remainder_wait() {
    assert_eq!(
        delay_ops(1 << 24),
        vec![
            TimerOp::SetReload(MAX_RELOAD),
            TimerOp::ClearCurrent,
            TimerOp::Enable,
            TimerOp::WaitWrap,
            TimerOp::Disable,
        ]
    );
}

#[test]
fn delay_past_full_span_adds_remainder_wait() {
    assert_eq!(
        delay_ops((1 << 24) + 5),
        vec![
            TimerOp::SetReload(MAX_RELOAD),
            TimerOp::ClearCurrent,
            TimerOp::Enable,
            TimerOp::WaitWrap,
            TimerOp::SetReload(4),
            TimerOp::ClearCurrent,
            TimerOp::Enable,
            TimerOp::WaitWrap,
            TimerOp::Disable,
        ]
    );
}

#[test]
fn delay_of_reset_duration() {
    assert_eq!(
        delay_ops(RESET),
        vec![
            TimerOp::SetReload(3199),
            TimerOp::ClearCurrent,
            TimerOp::Enable,
            TimerOp::WaitWrap,
            TimerOp::Disable,
        ]
    );
}

#[test]
fn delay_of_many_spans_polls_once_per_span() {
    let ops = delay_ops((3 << 24) + 2);
    let polls = ops
        .iter()
        .filter(|&&op| op == TimerOp::WaitWrap)
        .count();
    assert_eq!(polls, 3 + 1);
    assert_eq!(ops.len(), 3 + 3 + 4 + 1);
}

#[test]
fn delay_of_max_cycles() {
    let ops = delay_ops(u32::MAX);
    assert_eq!(ops.len(), 3 + 255 + 4 + 1);
    assert_eq!(ops[ops.len() - 5], TimerOp::SetReload(MAX_RELOAD - 1));
}

#[test]
fn every_delay_ends_disabled() {
    let cases = [
        0u32,
        1,
        2,
        3,
        100,
        3200,
        0xffffff,
        1 << 24,
        (1 << 24) + 1,
        (1 << 24) + 5,
        64_000_000,
        u32::MAX,
    ];
    for &cycles in cases.iter() {
        let ops = delay_ops(cycles);
        assert_eq!(*ops.last().unwrap(), TimerOp::Disable);
        let disables = ops
            .iter()
            .filter(|&&op| op == TimerOp::Disable)
            .count();
        assert_eq!(disables, 1);
    }
}

#[test]
fn delay_appends_without_clearing() {
    let mut out: Vec<TimerOp> = Vec::new();
    delay_clock_cycles(0, &mut out);
    delay_clock_cycles(2, &mut out);
    assert_eq!(out[0], TimerOp::Disable);
    assert_eq!(out[1..], delay_ops(2)[..]);
}
