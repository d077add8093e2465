//! Register map of the PWM chip: control-register addresses, per-channel
//! timing registers, and the bit flags of the two mode registers.
//!
//! These addresses are fixed by the chip's protocol and must match the
//! hardware exactly.

use vstd::prelude::*;

verus! {

/// Fixed 7-bit bus address at which the chip answers.
pub const CHIP_ADDRESS: u16 = 0x40;

/// Mode register 1: sleep, restart, auto-increment and all-call control.
pub const MODE1: u8 = 0x00;

/// Mode register 2: output driver configuration.
pub const MODE2: u8 = 0x01;

/// First alternate bus subaddress register.
pub const SUBADR1: u8 = 0x02;

/// Second alternate bus subaddress register.
pub const SUBADR2: u8 = 0x03;

/// Third alternate bus subaddress register.
pub const SUBADR3: u8 = 0x04;

/// Clock prescale register; divides the internal oscillator to set the
/// shared PWM period.
pub const PRESCALE: u8 = 0xFE;

/// Low byte of channel 0's ON tick count.  Channel `c` owns the four
/// consecutive registers starting at `LED0_ON_L + 4 * c`.
pub const LED0_ON_L: u8 = 0x06;

/// High byte of channel 0's ON tick count.
pub const LED0_ON_H: u8 = 0x07;

/// Low byte of channel 0's OFF tick count.
pub const LED0_OFF_L: u8 = 0x08;

/// High byte of channel 0's OFF tick count.
pub const LED0_OFF_H: u8 = 0x09;

/// Low byte of the broadcast ON tick count: writing it reaches every
/// channel's ON low byte at once.
pub const ALL_LED_ON_L: u8 = 0xFA;

/// High byte of the broadcast ON tick count.
pub const ALL_LED_ON_H: u8 = 0xFB;

/// Low byte of the broadcast OFF tick count.
pub const ALL_LED_OFF_L: u8 = 0xFC;

/// High byte of the broadcast OFF tick count.
pub const ALL_LED_OFF_H: u8 = 0xFD;

/// Mode-1 flag: latch a restart after the oscillator was stopped.
pub const RESTART: u8 = 0x80;

/// Mode-1 flag: stop the internal oscillator.
pub const SLEEP: u8 = 0x10;

/// Mode-1 flag: respond to the all-call bus address.
pub const ALLCALL: u8 = 0x01;

/// Mode-2 flag: invert the output logic state.
pub const INVRT: u8 = 0x10;

/// Mode-2 flag: drive the outputs push-pull rather than open-drain.
pub const OUTDRV: u8 = 0x04;

/// Number of independent PWM channels on the chip.
pub const CHANNEL_COUNT: u8 = 16;

/// Address of the first of the four timing registers owned by `channel`.
pub open spec fn spec_channel_base(channel: u8) -> u8
    recommends
        channel < CHANNEL_COUNT,
{
    (LED0_ON_L + 4 * channel) as u8
}

/// Address of the first of the four timing registers owned by `channel`:
/// ON low byte at the base, then ON high, OFF low, OFF high.
pub fn channel_base(channel: u8) -> (base: u8)
    requires
        channel < CHANNEL_COUNT,
    ensures
        base == spec_channel_base(channel),
{
    LED0_ON_L + 4 * channel
}

} // verus!
