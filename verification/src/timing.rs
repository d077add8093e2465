//! The arithmetic of the chip: frequency to prescale value, pulse width to
//! OFF tick count, servo angle to OFF tick count, and the mode-1 register
//! transformations used while the prescale value is changed.

use vstd::prelude::*;
use vstd::arithmetic::div_mod::{
    lemma_div_of0, lemma_div_pos_is_pos, lemma_fundamental_div_mod_converse_div,
    lemma_multiply_divide_le, lemma_multiply_divide_lt,
};
use crate::registers::{ALLCALL, RESTART, SLEEP};

verus! {

/// Frequency of the chip's internal oscillator, in hertz.
pub const OSCILLATOR_HZ: u32 = 25000000;

/// Number of counter ticks in one PWM period.
pub const TICKS_PER_PERIOD: u16 = 4096;

/// Largest tick count a 12-bit ON or OFF register can hold.
pub const MAX_TICK: u16 = 4095;

/// Length of one PWM period, in microseconds, when the chip runs at the
/// 50 Hz servo frequency.
pub const PERIOD_US_AT_50HZ: u16 = 20000;

/// OFF tick count that a servo reads as its lowest angle.
pub const SERVO_MIN_TICKS: u16 = 390;

/// OFF tick count that a servo reads as its highest angle.
pub const SERVO_MAX_TICKS: u16 = 2710;

/// OFF tick count of the neutral servo position, the midpoint of the
/// servo tick range.
pub const SERVO_CENTER_TICKS: u16 = 1550;

/// Half-sweep of a servo in degrees; angles are clamped to
/// `[-ANGLE_LIMIT_DEG, ANGLE_LIMIT_DEG]`.
pub const ANGLE_LIMIT_DEG: i16 = 90;

/// Milliseconds to wait for the chip to settle after it wakes from reset.
pub const POWER_ON_SETTLE_MS: u64 = 5;

/// Milliseconds to wait for the oscillator to stabilize after a restart;
/// the hardware needs half a millisecond.
pub const OSCILLATOR_RESTART_SETTLE_MS: u64 = 1;

/// Mode-1 bit of the auto-increment feature, latched together with the
/// restart after a frequency change.
pub const AUTO_INCREMENT: u8 = 0x20;

/// The prescale value called for by the chip's datasheet, before clamping:
/// the oscillator frequency (25 000 000 Hz) divided by the ticks per
/// period (4096), divided by the target frequency, minus one, rounded
/// half-up to the nearest integer.
///
/// Rounding is folded into one integer division:
/// `floor(25000000 / (4096 * hz) - 1 + 1/2)
///  == floor((2 * 25000000 - 4096 * hz) / (2 * 4096 * hz))`.
pub open spec fn spec_prescale_rounded(hz: int) -> int
    recommends
        1 <= hz,
{
    (50000000 - 4096 * hz) / (8192 * hz)
}

/// Clamp a value into the range an 8-bit register can hold.
pub open spec fn spec_clamp_to_byte(v: int) -> u8 {
    if v < 0 {
        0u8
    } else if v > 255 {
        255u8
    } else {
        v as u8
    }
}

/// The byte written to the prescale register for a target frequency.
pub open spec fn spec_prescale_byte(hz: int) -> u8 {
    spec_clamp_to_byte(spec_prescale_rounded(hz))
}

/// Prescale register value for a target PWM frequency of `hz` hertz:
/// the datasheet's rounded formula, clamped into the 8-bit register range.
pub fn prescale_for_frequency(hz: u32) -> (prescale: u8)
    requires
        1 <= hz,
    ensures
        prescale == spec_prescale_byte(hz as int),
{
    let ticks_hz: u64 = 4096 * (hz as u64);
    if ticks_hz >= 50000000 {
        proof {
            let n = 50000000 - 4096 * (hz as int);
            let d = 8192 * (hz as int);
            if n < 0 {
                lemma_fundamental_div_mod_converse_div(n, d, -1, n + d);
            } else {
                lemma_div_of0(d);
            }
        }
        0
    } else {
        let divisor: u64 = 2 * ticks_hz;
        let raw: u64 = (50000000 - ticks_hz) / divisor;
        proof {
            lemma_div_pos_is_pos(50000000 - 4096 * (hz as int), 8192 * (hz as int));
        }
        if raw > 255 {
            255
        } else {
            raw as u8
        }
    }
}

/// Over the plausible servo frequency range the rounded prescale value
/// already fits the 8-bit register, so the byte that reaches the chip is
/// exactly the datasheet formula, with no clamping.
pub proof fn lemma_prescale_unclamped_in_servo_range(hz: u32)
    requires
        40 <= hz <= 1000,
    ensures
        0 <= spec_prescale_rounded(hz as int) <= 255,
        spec_prescale_byte(hz as int) == spec_prescale_rounded(hz as int),
{
    let n = 50000000 - 4096 * (hz as int);
    let d = 8192 * (hz as int);
    lemma_div_pos_is_pos(n, d);
    lemma_multiply_divide_le(n, d, 255);
}

/// OFF tick count for a pulse of `pulse_us` microseconds at the 50 Hz
/// servo frequency: the pulse's share of the 20 000 µs period, scaled to
/// the 4096-tick counter (truncating division).
pub open spec fn spec_pulse_off_ticks(pulse_us: u16) -> int {
    pulse_us * 4096 / 20000
}

/// Convert a pulse width in microseconds into the OFF tick count at the
/// 50 Hz servo frequency.  The pulse must be shorter than the period, so
/// that the result fits the 12-bit OFF register.
pub fn pulse_off_ticks(pulse_us: u16) -> (off: u16)
    requires
        pulse_us < PERIOD_US_AT_50HZ,
    ensures
        off == spec_pulse_off_ticks(pulse_us),
        off <= MAX_TICK,
{
    let scaled: u32 = (pulse_us as u32) * 4096;
    let off32: u32 = scaled / 20000;
    proof {
        lemma_multiply_divide_lt(scaled as int, 20000, 4096);
        lemma_div_pos_is_pos(scaled as int, 20000);
    }
    off32 as u16
}

/// An angle in degrees, clamped to the servo's operating range.
pub open spec fn spec_clamp_angle(angle_deg: int) -> int {
    if angle_deg < -ANGLE_LIMIT_DEG {
        -ANGLE_LIMIT_DEG as int
    } else if angle_deg > ANGLE_LIMIT_DEG {
        ANGLE_LIMIT_DEG as int
    } else {
        angle_deg
    }
}

/// OFF tick count for a servo angle: the clamped angle, shifted to
/// `[0, 180]`, scaled by the servo's tick span per 180 degrees — 2320
/// ticks from `SERVO_MIN_TICKS` to `SERVO_MAX_TICKS`; the product is
/// formed before the division, so no precision is lost to an early
/// truncation — and offset by the minimum tick count.
pub open spec fn spec_angle_off_ticks(angle_deg: int) -> int {
    (spec_clamp_angle(angle_deg) + 90) * 2320 / 180 + SERVO_MIN_TICKS
}

/// Convert a servo angle in degrees into the OFF tick count.  Angles
/// outside the operating range are clamped, never rejected.
pub fn angle_off_ticks(angle_deg: i16) -> (off: u16)
    ensures
        off == spec_angle_off_ticks(angle_deg as int),
        SERVO_MIN_TICKS <= off <= SERVO_MAX_TICKS,
{
    let clamped: i16 = if angle_deg < -ANGLE_LIMIT_DEG {
        -ANGLE_LIMIT_DEG
    } else if angle_deg > ANGLE_LIMIT_DEG {
        ANGLE_LIMIT_DEG
    } else {
        angle_deg
    };
    let shifted: u32 = (clamped + ANGLE_LIMIT_DEG) as u32;
    let scaled: u32 = shifted * 2320;
    proof {
        lemma_div_pos_is_pos(scaled as int, 180);
        lemma_multiply_divide_le(scaled as int, 180, 2320);
    }
    (scaled / 180) as u16 + SERVO_MIN_TICKS
}

/// The neutral position is exactly the tick count of the zero angle.
pub proof fn lemma_center_is_zero_angle()
    ensures
        SERVO_CENTER_TICKS == spec_angle_off_ticks(0),
{
}

/// Mode-1 value that stops the oscillator so the prescale register may be
/// changed safely: the restart bit is dropped and the sleep bit is set.
pub open spec fn spec_sleep_mode(mode: u8) -> u8 {
    (mode & !RESTART) | SLEEP
}

/// Compute the mode-1 value that puts the chip to sleep, keeping every
/// other bit of the current mode.
pub fn sleep_mode(mode: u8) -> (slept: u8)
    ensures
        slept == spec_sleep_mode(mode),
{
    (mode & !RESTART) | SLEEP
}

/// The sleeping mode always has the sleep bit set and the waking mode
/// never does, whatever the rest of the mode byte holds: the frequency
/// script writes the prescale register only while the oscillator is
/// stopped, and initialization always leaves it running.
pub proof fn lemma_sleep_and_wake_bits(mode: u8)
    ensures
        spec_sleep_mode(mode) & SLEEP == SLEEP,
        spec_wake_mode(mode) & SLEEP == 0,
{
    assert(((mode & !0x80u8) | 0x10u8) & 0x10u8 == 0x10u8) by (bit_vector);
    assert((mode & !0x10u8) & 0x10u8 == 0) by (bit_vector);
}

/// Mode-1 value with the sleep bit cleared: the chip's oscillator runs.
pub open spec fn spec_wake_mode(mode: u8) -> u8 {
    mode & !SLEEP
}

/// Compute the mode-1 value that wakes the chip, keeping every other bit.
pub fn wake_mode(mode: u8) -> (woken: u8)
    ensures
        woken == spec_wake_mode(mode),
{
    mode & !SLEEP
}

/// Mode-1 value written after a frequency change: the previous mode with
/// the restart, auto-increment and all-call bits latched on.
pub open spec fn spec_restart_mode(mode: u8) -> u8 {
    mode | (RESTART | AUTO_INCREMENT | ALLCALL)
}

/// Compute the mode-1 value that latches the restart after the oscillator
/// was stopped for a prescale change.
pub fn restart_mode(mode: u8) -> (restarted: u8)
    ensures
        restarted == spec_restart_mode(mode),
{
    mode | (RESTART | AUTO_INCREMENT | ALLCALL)
}

} // verus!
