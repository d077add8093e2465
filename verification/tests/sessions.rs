use pca9685::registers::{
    ALLCALL, ALL_LED_OFF_H, ALL_LED_OFF_L, ALL_LED_ON_H, ALL_LED_ON_L, LED0_ON_L, MODE1, MODE2,
    OUTDRV, PRESCALE,
};
use pca9685::session::{
    begin, current_action, done, outcome, step_failed, step_ok, step_read, Action, Op, Session,
    TransportError,
};

/// A fake chip: 256 byte registers, with the broadcast behaviour of the
/// four "all channels" timing registers.
struct FakeChip {
    regs: [u8; 256],
}

impl FakeChip {
    fn new() -> FakeChip {
        FakeChip { regs: [0u8; 256] }
    }

    fn write(&mut self, reg: u8, value: u8) {
        self.regs[reg as usize] = value;
        if (ALL_LED_ON_L..=ALL_LED_OFF_H).contains(&reg) {
            let offset = reg - ALL_LED_ON_L;
            for channel in 0u8..16 {
                self.regs[(LED0_ON_L + 4 * channel + offset) as usize] = value;
            }
        }
    }
}

/// Run a session against the fake chip, recording every write in order.
fn run(op: Op, chip: &mut FakeChip) -> (Vec<(u8, u8)>, Result<(), TransportError>) {
    let mut writes = Vec::new();
    let mut s: Session = begin(op);
    while !done(&s) {
        match current_action(&s) {
            Action::Write { reg, value } => {
                chip.write(reg, value);
                writes.push((reg, value));
                s = step_ok(s);
            }
            Action::ReadMode1 => {
                let value = chip.regs[MODE1 as usize];
                s = step_read(s, value);
            }
            Action::DelayMillis { .. } => {
                s = step_ok(s);
            }
        }
    }
    (writes, outcome(&s))
}

#[test]
fn channel_pwm_writes_exactly_four_bytes() {
    let mut chip = FakeChip::new();
    let (writes, result) = run(Op::SetChannelPwm { channel: 3, on: 0, off: 1000 }, &mut chip);
    assert_eq!(result, Ok(()));
    assert_eq!(
        writes,
        vec![
            (LED0_ON_L + 12, 0x00),
            (LED0_ON_L + 13, 0x00),
            (LED0_ON_L + 14, 0xE8),
            (LED0_ON_L + 15, 0x03),
        ]
    );
}

#[test]
fn all_channels_clear_reads_back_zero_everywhere() {
    let mut chip = FakeChip::new();
    // leave stale timing values on a few channels first
    let _ = run(Op::SetChannelPwm { channel: 0, on: 17, off: 4095 }, &mut chip);
    let _ = run(Op::SetChannelPwm { channel: 15, on: 1, off: 2 }, &mut chip);
    let (writes, result) = run(Op::SetAllChannelsPwm { on: 0, off: 0 }, &mut chip);
    assert_eq!(result, Ok(()));
    assert_eq!(
        writes,
        vec![
            (ALL_LED_ON_L, 0),
            (ALL_LED_ON_H, 0),
            (ALL_LED_OFF_L, 0),
            (ALL_LED_OFF_H, 0),
        ]
    );
    for channel in 0u8..16 {
        for k in 0u8..4 {
            assert_eq!(chip.regs[(LED0_ON_L + 4 * channel + k) as usize], 0);
        }
    }
}

#[test]
fn init_clears_channels_and_wakes_the_chip() {
    let mut chip = FakeChip::new();
    // pretend the chip powered up asleep with stale channel state
    chip.regs[MODE1 as usize] = 0x11; // sleep bit and all-call set
    chip.write(LED0_ON_L + 8, 0xAB);
    let (writes, result) = run(Op::Init, &mut chip);
    assert_eq!(result, Ok(()));
    assert_eq!(writes.len(), 7);
    assert_eq!(writes[4], (MODE2, OUTDRV));
    assert_eq!(writes[5], (MODE1, ALLCALL));
    // the final mode-1 write clears the sleep bit of what was read back
    assert_eq!(writes[6], (MODE1, ALLCALL & !0x10));
    assert_eq!(chip.regs[MODE2 as usize], OUTDRV);
    assert_eq!(chip.regs[MODE1 as usize] & 0x10, 0);
    for channel in 0u8..16 {
        for k in 0u8..4 {
            assert_eq!(chip.regs[(LED0_ON_L + 4 * channel + k) as usize], 0);
        }
    }
}

#[test]
fn set_frequency_50hz_writes_prescale_and_restores_mode() {
    let mut chip = FakeChip::new();
    chip.regs[MODE1 as usize] = 0x01; // all-call enabled, awake
    let (writes, result) = run(Op::SetFrequency { hz: 50 }, &mut chip);
    assert_eq!(result, Ok(()));
    assert_eq!(
        writes,
        vec![
            (MODE1, 0x11),    // sleep to stop the oscillator, restart bit dropped
            (PRESCALE, 121),  // round(25e6 / 4096 / 50 - 1)
            (MODE1, 0x01),    // the old mode restored
            (MODE1, 0xA1),    // restart, auto-increment and all-call latched
        ]
    );
    assert_eq!(chip.regs[PRESCALE as usize], 121);
}

#[test]
fn set_frequency_preserves_unrelated_mode_bits() {
    let mut chip = FakeChip::new();
    chip.regs[MODE1 as usize] = 0x4E; // some unrelated mode-1 bits
    let (_, result) = run(Op::SetFrequency { hz: 60 }, &mut chip);
    assert_eq!(result, Ok(()));
    let final_mode = chip.regs[MODE1 as usize];
    // every bit outside RESTART | AUTO_INCREMENT | ALLCALL is untouched
    assert_eq!(final_mode & !0xA1, 0x4E & !0xA1);
    // and no bit of the old mode was lost
    assert_eq!(0x4E & !final_mode, 0);
    assert_eq!(chip.regs[PRESCALE as usize], 101);
}

#[test]
fn pulse_microseconds_writes_ticks_from_zero() {
    let mut chip = FakeChip::new();
    let (writes, result) = run(Op::SetPulseMicroseconds { channel: 0, pulse_us: 1500 }, &mut chip);
    assert_eq!(result, Ok(()));
    // off = 1500 * 4096 / 20000 = 307 = 0x133, on = 0
    assert_eq!(
        writes,
        vec![
            (LED0_ON_L, 0x00),
            (LED0_ON_L + 1, 0x00),
            (LED0_ON_L + 2, 0x33),
            (LED0_ON_L + 3, 0x01),
        ]
    );
}

#[test]
fn servo_center_equals_zero_angle() {
    let mut chip_center = FakeChip::new();
    let mut chip_angle = FakeChip::new();
    let (center_writes, _) = run(Op::SetServoCenter { channel: 7 }, &mut chip_center);
    let (angle_writes, _) = run(Op::SetAngleDegrees { channel: 7, angle_deg: 0 }, &mut chip_angle);
    assert_eq!(center_writes, angle_writes);
    // off = 1550 = 0x60E
    assert_eq!(center_writes[2], (LED0_ON_L + 30, 0x0E));
    assert_eq!(center_writes[3], (LED0_ON_L + 31, 0x06));
}

#[test]
fn angle_extremes_write_the_servo_limits() {
    let mut chip = FakeChip::new();
    // off = 390 = 0x186 on channel 1's registers
    let (writes, _) = run(Op::SetAngleDegrees { channel: 1, angle_deg: -90 }, &mut chip);
    assert_eq!(
        writes,
        vec![
            (LED0_ON_L + 4, 0x00),
            (LED0_ON_L + 5, 0x00),
            (LED0_ON_L + 6, 0x86),
            (LED0_ON_L + 7, 0x01),
        ]
    );
    // off = 2710 = 0xA96
    let (writes, _) = run(Op::SetAngleDegrees { channel: 1, angle_deg: 90 }, &mut chip);
    assert_eq!(
        writes,
        vec![
            (LED0_ON_L + 4, 0x00),
            (LED0_ON_L + 5, 0x00),
            (LED0_ON_L + 6, 0x96),
            (LED0_ON_L + 7, 0x0A),
        ]
    );
}

#[test]
fn clamped_angles_issue_identical_actions() {
    let mut chip_a = FakeChip::new();
    let mut chip_b = FakeChip::new();
    let (low_writes, _) = run(Op::SetAngleDegrees { channel: 2, angle_deg: -120 }, &mut chip_a);
    let (min_writes, _) = run(Op::SetAngleDegrees { channel: 2, angle_deg: -90 }, &mut chip_b);
    assert_eq!(low_writes, min_writes);
    let (high_writes, _) = run(Op::SetAngleDegrees { channel: 2, angle_deg: 120 }, &mut chip_a);
    let (max_writes, _) = run(Op::SetAngleDegrees { channel: 2, angle_deg: 90 }, &mut chip_b);
    assert_eq!(high_writes, max_writes);
}

#[test]
fn failing_write_during_init_aborts_at_once() {
    // the bus rejects the second write of the initialization sequence
    let mut s: Session = begin(Op::Init);
    let first = current_action(&s);
    assert_eq!(first, Action::Write { reg: ALL_LED_ON_L, value: 0 });
    s = step_ok(s);
    let second = current_action(&s);
    assert_eq!(second, Action::Write { reg: ALL_LED_ON_H, value: 0 });
    s = step_failed(s);
    // the session is finished: no further action is offered, and the
    // error names the register whose write failed
    assert!(done(&s));
    assert_eq!(outcome(&s), Err(TransportError { reg: ALL_LED_ON_H }));
}

#[test]
fn failing_read_during_frequency_change_surfaces_mode1() {
    let mut s: Session = begin(Op::SetFrequency { hz: 50 });
    assert_eq!(current_action(&s), Action::ReadMode1);
    s = step_failed(s);
    assert!(done(&s));
    assert_eq!(outcome(&s), Err(TransportError { reg: MODE1 }));
}
