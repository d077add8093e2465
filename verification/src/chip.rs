//! A model of the chip's register file, and what each command's script
//! does to it.
//!
//! The model is a total map from register address to byte.  A write to an
//! ordinary register replaces that one byte; a write to one of the four
//! broadcast timing registers also reaches the matching timing byte of
//! every channel, which is how the chip's "all channels" block behaves as
//! seen from later reads.  The lemmas here state the driver's obligations
//! to the chip: a broadcast of zero clears every channel, initialization
//! leaves the chip configured and awake, and a frequency change restores
//! every mode-1 bit it does not deliberately set.

use vstd::prelude::*;
use vstd::arithmetic::div_mod::{lemma_mod_multiples_vanish, lemma_small_mod};
use crate::registers::{
    spec_channel_base, ALL_LED_OFF_H, ALL_LED_ON_L, ALLCALL, CHANNEL_COUNT, LED0_ON_L, MODE1,
    MODE2, OUTDRV, PRESCALE, RESTART, SLEEP,
};
use crate::session::{script, Action, Op};
use crate::timing::{
    spec_prescale_byte, spec_restart_mode, spec_wake_mode, AUTO_INCREMENT,
};

verus! {

/// Whether a write to the register at `reg` lands on the register at
/// `target`: every write lands on its own address, and a write to one of
/// the four broadcast timing registers also lands on the timing byte with
/// the same role — the same offset within the four-register block — of
/// every channel.
pub open spec fn write_lands_on(reg: u8, target: u8) -> bool {
    target == reg || (ALL_LED_ON_L <= reg <= ALL_LED_OFF_H && LED0_ON_L <= target < LED0_ON_L
        + 4 * CHANNEL_COUNT && (target - LED0_ON_L) % 4 == (reg - ALL_LED_ON_L) % 4)
}

/// The register file after one write.
pub open spec fn apply_write(file: Map<u8, u8>, reg: u8, value: u8) -> Map<u8, u8> {
    Map::total(|target: u8| if write_lands_on(reg, target) { value } else { file[target] })
}

/// The register file after one action: only writes change it.
pub open spec fn apply_action(file: Map<u8, u8>, a: Action) -> Map<u8, u8> {
    match a {
        Action::Write { reg, value } => apply_write(file, reg, value),
        Action::ReadMode1 => file,
        Action::DelayMillis { .. } => file,
    }
}

/// The register file after a sequence of actions, applied in order.
pub open spec fn apply_actions(file: Map<u8, u8>, actions: Seq<Action>) -> Map<u8, u8>
    decreases actions.len(),
{
    if actions.len() == 0 {
        file
    } else {
        apply_actions(apply_action(file, actions[0]), actions.drop_first())
    }
}

/// Address of timing byte `k` (ON low, ON high, OFF low, OFF high) of
/// channel `channel`.
pub open spec fn channel_timing_reg(channel: u8, k: u8) -> u8
    recommends
        channel < CHANNEL_COUNT,
        k < 4,
{
    (LED0_ON_L + 4 * channel + k) as u8
}

/// Broadcasting the timing pair (0, 0) clears all four timing bytes of
/// every individual channel, whatever the register file held before:
/// any later read of a channel's timing registers sees zero.
pub proof fn lemma_all_channels_clear(file: Map<u8, u8>, mode1_read: u8)
    ensures
        forall|channel: u8, k: u8|
            channel < CHANNEL_COUNT && k < 4 ==> #[trigger] apply_actions(
                file,
                script(Op::SetAllChannelsPwm { on: 0, off: 0 }, mode1_read),
            )[channel_timing_reg(channel, k)] == 0,
{
    let acts = script(Op::SetAllChannelsPwm { on: 0, off: 0 }, mode1_read);
    let end = apply_actions(file, acts);
    reveal_with_fuel(apply_actions, 6);
    assert((0u16 & 0xFF) as u8 == 0) by (bit_vector);
    assert((0u16 >> 8) as u8 == 0) by (bit_vector);
    assert forall|channel: u8, k: u8| channel < CHANNEL_COUNT && k < 4 implies #[trigger] end[
        channel_timing_reg(channel, k)] == 0 by {
        let target = channel_timing_reg(channel, k);
        lemma_mod_multiples_vanish(channel as int, k as int, 4);
        lemma_small_mod(k as nat, 4);
        assert(write_lands_on((ALL_LED_ON_L + k) as u8, target));
    }
}

/// Initialization leaves the chip in the known state: every channel's
/// timing bytes cleared, mode register 2 set to push-pull output, and
/// mode register 1 holding what the chip reported after its settling
/// delay with the sleep bit cleared — the oscillator runs.
pub proof fn lemma_init_configures(file: Map<u8, u8>, mode1_read: u8)
    ensures
        apply_actions(file, script(Op::Init, mode1_read))[MODE1] == spec_wake_mode(mode1_read),
        apply_actions(file, script(Op::Init, mode1_read))[MODE2] == OUTDRV,
        forall|channel: u8, k: u8|
            channel < CHANNEL_COUNT && k < 4 ==> #[trigger] apply_actions(
                file,
                script(Op::Init, mode1_read),
            )[channel_timing_reg(channel, k)] == 0,
{
    let acts = script(Op::Init, mode1_read);
    let end = apply_actions(file, acts);
    reveal_with_fuel(apply_actions, 12);
    assert(end[MODE1] == spec_wake_mode(mode1_read));
    assert(end[MODE2] == OUTDRV);
    assert forall|channel: u8, k: u8| channel < CHANNEL_COUNT && k < 4 implies #[trigger] end[
        channel_timing_reg(channel, k)] == 0 by {
        let target = channel_timing_reg(channel, k);
        lemma_mod_multiples_vanish(channel as int, k as int, 4);
        lemma_small_mod(k as nat, 4);
        assert(write_lands_on((ALL_LED_ON_L + k) as u8, target));
    }
}

/// A channel update stores the four bytes of its timing pair — ON low,
/// ON high, OFF low, OFF high — in the four registers of that channel
/// alone: every other register keeps its value.
pub proof fn lemma_channel_pwm_isolated(
    file: Map<u8, u8>,
    channel: u8,
    on: u16,
    off: u16,
    mode1_read: u8,
)
    requires
        channel < CHANNEL_COUNT,
    ensures
        apply_actions(file, script(Op::SetChannelPwm { channel, on, off }, mode1_read))[
            channel_timing_reg(channel, 0)] == (on & 0xFF) as u8,
        apply_actions(file, script(Op::SetChannelPwm { channel, on, off }, mode1_read))[
            channel_timing_reg(channel, 1)] == (on >> 8) as u8,
        apply_actions(file, script(Op::SetChannelPwm { channel, on, off }, mode1_read))[
            channel_timing_reg(channel, 2)] == (off & 0xFF) as u8,
        apply_actions(file, script(Op::SetChannelPwm { channel, on, off }, mode1_read))[
            channel_timing_reg(channel, 3)] == (off >> 8) as u8,
        forall|other: u8|
            !(spec_channel_base(channel) <= other < spec_channel_base(channel) + 4)
                ==> #[trigger] apply_actions(
                file,
                script(Op::SetChannelPwm { channel, on, off }, mode1_read),
            )[other] == file[other],
{
    let acts = script(Op::SetChannelPwm { channel, on, off }, mode1_read);
    let end = apply_actions(file, acts);
    reveal_with_fuel(apply_actions, 6);
}

/// A frequency change writes the prescale register and leaves mode
/// register 1 as it found it, except for the restart, auto-increment and
/// all-call bits it deliberately latches on: no bit of the old mode is
/// cleared — the sleep bit set for the prescale write is restored — and
/// every bit outside those three is exactly what it was.  The channels'
/// timing bytes are untouched.
pub proof fn lemma_set_frequency_preserves_mode(file: Map<u8, u8>, hz: u32)
    requires
        1 <= hz,
    ensures
        apply_actions(file, script(Op::SetFrequency { hz }, file[MODE1]))[PRESCALE]
            == spec_prescale_byte(hz as int),
        apply_actions(file, script(Op::SetFrequency { hz }, file[MODE1]))[MODE1]
            == spec_restart_mode(file[MODE1]),
        apply_actions(file, script(Op::SetFrequency { hz }, file[MODE1]))[MODE1] & !(RESTART
            | AUTO_INCREMENT | ALLCALL) == file[MODE1] & !(RESTART | AUTO_INCREMENT | ALLCALL),
        file[MODE1] & !apply_actions(file, script(Op::SetFrequency { hz }, file[MODE1]))[MODE1]
            == 0,
        apply_actions(file, script(Op::SetFrequency { hz }, file[MODE1]))[MODE1] & SLEEP
            == file[MODE1] & SLEEP,
        forall|channel: u8, k: u8|
            channel < CHANNEL_COUNT && k < 4 ==> #[trigger] apply_actions(
                file,
                script(Op::SetFrequency { hz }, file[MODE1]),
            )[channel_timing_reg(channel, k)] == file[channel_timing_reg(channel, k)],
{
    let old_mode = file[MODE1];
    let acts = script(Op::SetFrequency { hz }, old_mode);
    let end = apply_actions(file, acts);
    reveal_with_fuel(apply_actions, 8);
    assert(end[MODE1] == spec_restart_mode(old_mode));
    assert((old_mode | (RESTART | AUTO_INCREMENT | ALLCALL)) & !(RESTART | AUTO_INCREMENT
        | ALLCALL) == old_mode & !(RESTART | AUTO_INCREMENT | ALLCALL)) by (bit_vector);
    assert(old_mode & !(old_mode | (RESTART | AUTO_INCREMENT | ALLCALL)) == 0) by (bit_vector);
    assert((old_mode | (RESTART | AUTO_INCREMENT | ALLCALL)) & SLEEP == old_mode & SLEEP)
        by (bit_vector);
}

} // verus!
