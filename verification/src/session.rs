//! The bus protocol of every driver command, and a step machine that
//! walks a command's bus operations one at a time.
//!
//! Each command — initialization, a frequency change, a channel update —
//! is a fixed sequence of bus actions: single-byte register writes, a
//! read of mode register 1, and settling delays.  `script` states that
//! sequence; a [`Session`] hands the actions out in order and takes the
//! outcome of each back, so the caller that owns the bus performs no
//! decision of its own.  A bus failure ends the session at once, with the
//! failing register recorded; the remaining actions are never issued.

use vstd::prelude::*;
use crate::registers::{
    ALL_LED_OFF_H, ALL_LED_OFF_L, ALL_LED_ON_H, ALL_LED_ON_L, ALLCALL, CHANNEL_COUNT, LED0_ON_L,
    MODE1, MODE2, OUTDRV, PRESCALE,
};
use crate::registers::{channel_base, spec_channel_base};
use crate::timing::{
    ANGLE_LIMIT_DEG, MAX_TICK, OSCILLATOR_RESTART_SETTLE_MS, PERIOD_US_AT_50HZ,
    POWER_ON_SETTLE_MS, SERVO_CENTER_TICKS,
};
use crate::timing::{
    angle_off_ticks, prescale_for_frequency, pulse_off_ticks, sleep_mode, restart_mode, wake_mode,
};
use crate::timing::{
    spec_angle_off_ticks, spec_prescale_byte, spec_pulse_off_ticks, spec_restart_mode,
    spec_sleep_mode, spec_wake_mode,
};

verus! {

/// One bus operation of a driver command.
#[derive(Clone, Copy, Debug, PartialEq, Eq, Structural)]
pub enum Action {
    /// Write `value` to the register at address `reg`.
    Write { reg: u8, value: u8 },
    /// Read mode register 1 and hand the value back to the session.
    ReadMode1,
    /// Block for `millis` milliseconds while the hardware settles.
    DelayMillis { millis: u64 },
}

/// A driver command: one high-level operation on the chip.
#[derive(Clone, Copy, Debug, PartialEq, Eq, Structural)]
pub enum Op {
    /// Reset the chip to a known state: all channels off, push-pull
    /// outputs, all-call enabled, oscillator running.
    Init,
    /// Set the shared PWM frequency of all sixteen channels to `hz` hertz.
    SetFrequency { hz: u32 },
    /// Set one channel's raw ON and OFF tick counts.
    SetChannelPwm { channel: u8, on: u16, off: u16 },
    /// Broadcast raw ON and OFF tick counts to every channel at once.
    SetAllChannelsPwm { on: u16, off: u16 },
    /// Set one channel's pulse width in microseconds, assuming the chip
    /// runs at the 50 Hz servo frequency; the pulse starts at tick zero.
    SetPulseMicroseconds { channel: u8, pulse_us: u16 },
    /// Move the servo on one channel to an angle in degrees; angles
    /// beyond the operating range are clamped.
    SetAngleDegrees { channel: u8, angle_deg: i16 },
    /// Move the servo on one channel to its neutral position.
    SetServoCenter { channel: u8 },
}

/// The error every failed command surfaces: the bus rejected an access to
/// the register at `reg`.
#[derive(Clone, Copy, Debug, PartialEq, Eq, Structural)]
pub struct TransportError {
    /// Address of the register whose access failed.
    pub reg: u8,
}

/// The inputs a command accepts: a channel selects one of the sixteen
/// outputs, tick counts fit the 12-bit counters, a pulse is shorter than
/// the 50 Hz period, and a frequency is nonzero.  An angle is never
/// rejected, only clamped.
pub open spec fn op_valid(op: Op) -> bool {
    match op {
        Op::Init => true,
        Op::SetFrequency { hz } => 1 <= hz,
        Op::SetChannelPwm { channel, on, off } => channel < CHANNEL_COUNT && on <= MAX_TICK
            && off <= MAX_TICK,
        Op::SetAllChannelsPwm { on, off } => on <= MAX_TICK && off <= MAX_TICK,
        Op::SetPulseMicroseconds { channel, pulse_us } => channel < CHANNEL_COUNT && pulse_us
            < PERIOD_US_AT_50HZ,
        Op::SetAngleDegrees { channel, angle_deg } => channel < CHANNEL_COUNT,
        Op::SetServoCenter { channel } => channel < CHANNEL_COUNT,
    }
}

/// The four writes that store a timing pair in the register block starting
/// at `base`: ON low byte, ON high byte, OFF low byte, OFF high byte, in
/// that order.
pub open spec fn pwm_write_actions(base: u8, on: u16, off: u16) -> Seq<Action> {
    seq![
        Action::Write { reg: base, value: (on & 0xFF) as u8 },
        Action::Write { reg: (base + 1) as u8, value: (on >> 8) as u8 },
        Action::Write { reg: (base + 2) as u8, value: (off & 0xFF) as u8 },
        Action::Write { reg: (base + 3) as u8, value: (off >> 8) as u8 },
    ]
}

/// The bus actions of a command, in the order they reach the bus.
///
/// `mode1_read` is the value that the command's read of mode register 1
/// returns; the actions before that read do not depend on it, and a
/// command without a read ignores it.
pub open spec fn script(op: Op, mode1_read: u8) -> Seq<Action> {
    match op {
        Op::Init => seq![
            Action::Write { reg: ALL_LED_ON_L, value: 0 },
            Action::Write { reg: ALL_LED_ON_H, value: 0 },
            Action::Write { reg: ALL_LED_OFF_L, value: 0 },
            Action::Write { reg: ALL_LED_OFF_H, value: 0 },
            Action::Write { reg: MODE2, value: OUTDRV },
            Action::Write { reg: MODE1, value: ALLCALL },
            Action::DelayMillis { millis: POWER_ON_SETTLE_MS },
            Action::ReadMode1,
            Action::Write { reg: MODE1, value: spec_wake_mode(mode1_read) },
            Action::DelayMillis { millis: POWER_ON_SETTLE_MS },
        ],
        Op::SetFrequency { hz } => seq![
            Action::ReadMode1,
            Action::Write { reg: MODE1, value: spec_sleep_mode(mode1_read) },
            Action::Write { reg: PRESCALE, value: spec_prescale_byte(hz as int) },
            Action::Write { reg: MODE1, value: mode1_read },
            Action::DelayMillis { millis: OSCILLATOR_RESTART_SETTLE_MS },
            Action::Write { reg: MODE1, value: spec_restart_mode(mode1_read) },
        ],
        Op::SetChannelPwm { channel, on, off } => pwm_write_actions(
            spec_channel_base(channel),
            on,
            off,
        ),
        Op::SetAllChannelsPwm { on, off } => pwm_write_actions(ALL_LED_ON_L, on, off),
        Op::SetPulseMicroseconds { channel, pulse_us } => pwm_write_actions(
            spec_channel_base(channel),
            0,
            spec_pulse_off_ticks(pulse_us) as u16,
        ),
        Op::SetAngleDegrees { channel, angle_deg } => pwm_write_actions(
            spec_channel_base(channel),
            0,
            spec_angle_off_ticks(angle_deg as int) as u16,
        ),
        Op::SetServoCenter { channel } => pwm_write_actions(
            spec_channel_base(channel),
            0,
            SERVO_CENTER_TICKS,
        ),
    }
}

/// An angle beyond the operating range behaves exactly as the nearest
/// limit: the command issues the same bus actions, byte for byte.
pub proof fn lemma_angle_clamped(channel: u8, angle_deg: i16, mode1_read: u8)
    ensures
        angle_deg <= -ANGLE_LIMIT_DEG ==> script(
            Op::SetAngleDegrees { channel, angle_deg },
            mode1_read,
        ) == script(
            Op::SetAngleDegrees { channel, angle_deg: (-ANGLE_LIMIT_DEG) as i16 },
            mode1_read,
        ),
        angle_deg >= ANGLE_LIMIT_DEG ==> script(
            Op::SetAngleDegrees { channel, angle_deg },
            mode1_read,
        ) == script(Op::SetAngleDegrees { channel, angle_deg: ANGLE_LIMIT_DEG }, mode1_read),
{
}

/// The register whose access failed, for each action that touches the bus.
pub open spec fn action_register(a: Action) -> u8 {
    match a {
        Action::Write { reg, .. } => reg,
        Action::ReadMode1 => MODE1,
        Action::DelayMillis { .. } => MODE1,
    }
}

/// A command in flight: the command, how many of its actions are behind
/// us, the value its mode-1 read returned, and whether the bus failed.
pub struct Session {
    op: Op,
    pc: usize,
    saved: u8,
    failed: Option<u8>,
}

impl Session {
    /// The command this session runs.
    pub closed spec fn op(self) -> Op {
        self.op
    }

    /// Number of actions already taken from this session.
    pub closed spec fn pos(self) -> int {
        self.pc as int
    }

    /// The value the command's mode-1 read returned; zero until that read
    /// happens, and never read by the actions before it.
    pub closed spec fn saved_mode(self) -> u8 {
        self.saved
    }

    /// The register of the failed bus access, if one failed.
    pub closed spec fn failure(self) -> Option<u8> {
        self.failed
    }

    /// The full action sequence of this session's command.
    pub open spec fn actions(self) -> Seq<Action> {
        script(self.op(), self.saved_mode())
    }

    /// A session is well formed when its command is valid and its
    /// position lies within the command's script.
    pub open spec fn wf(self) -> bool {
        op_valid(self.op()) && 0 <= self.pos() <= self.actions().len()
    }

    /// A session is done when every action ran, or one failed.
    pub open spec fn spec_done(self) -> bool {
        self.failure() is Some || self.pos() == self.actions().len()
    }
}

/// Every script fits in ten actions, and its length depends only on the
/// command, never on the value the mode-1 read returned.
pub proof fn lemma_script_len(op: Op)
    ensures
        forall|m1: u8, m2: u8| script(op, m1).len() == script(op, m2).len(),
        forall|m: u8| #![auto] script(op, m).len() <= 10,
        forall|m: u8| #![auto] script(op, m).len() > 0,
{
}

/// Start a command: a fresh session with no action taken yet.
pub fn begin(op: Op) -> (s: Session)
    requires
        op_valid(op),
    ensures
        s.wf(),
        s.op() == op,
        s.pos() == 0,
        s.saved_mode() == 0,
        s.failure() is None,
{
    Session { op, pc: 0, saved: 0, failed: None }
}

/// Number of actions in the command's script.
fn script_len(op: &Op) -> (n: usize)
    ensures
        forall|m: u8| #![auto] script(*op, m).len() == n,
{
    match op {
        Op::Init => 10,
        Op::SetFrequency { .. } => 6,
        _ => 4,
    }
}

/// Whether the session is finished, by completion or by failure.
pub fn done(s: &Session) -> (d: bool)
    requires
        s.wf(),
    ensures
        d == s.spec_done(),
{
    match s.failed {
        Some(_) => true,
        None => s.pc == script_len(&s.op),
    }
}

/// The action the caller must perform next.
pub fn current_action(s: &Session) -> (a: Action)
    requires
        s.wf(),
        !s.spec_done(),
    ensures
        a == s.actions()[s.pos()],
{
    action_at(&s.op, s.saved, s.pc)
}

/// The `pc`-th action of the four-write timing block at `base`.
fn pwm_write_action_at(base: u8, on: u16, off: u16, pc: usize) -> (a: Action)
    requires
        base + 3 <= 255,
        pc < 4,
    ensures
        a == pwm_write_actions(base, on, off)[pc as int],
{
    if pc == 0 {
        Action::Write { reg: base, value: (on & 0xFF) as u8 }
    } else if pc == 1 {
        Action::Write { reg: base + 1, value: (on >> 8) as u8 }
    } else if pc == 2 {
        Action::Write { reg: base + 2, value: (off & 0xFF) as u8 }
    } else {
        Action::Write { reg: base + 3, value: (off >> 8) as u8 }
    }
}

/// The `pc`-th action of the command's script, given the value `saved`
/// that its mode-1 read returned (zero before that read).
fn action_at(op: &Op, saved: u8, pc: usize) -> (a: Action)
    requires
        op_valid(*op),
        pc < script(*op, saved).len(),
    ensures
        a == script(*op, saved)[pc as int],
{
    match *op {
        Op::Init => {
            if pc == 0 {
                Action::Write { reg: ALL_LED_ON_L, value: 0 }
            } else if pc == 1 {
                Action::Write { reg: ALL_LED_ON_H, value: 0 }
            } else if pc == 2 {
                Action::Write { reg: ALL_LED_OFF_L, value: 0 }
            } else if pc == 3 {
                Action::Write { reg: ALL_LED_OFF_H, value: 0 }
            } else if pc == 4 {
                Action::Write { reg: MODE2, value: OUTDRV }
            } else if pc == 5 {
                Action::Write { reg: MODE1, value: ALLCALL }
            } else if pc == 6 {
                Action::DelayMillis { millis: POWER_ON_SETTLE_MS }
            } else if pc == 7 {
                Action::ReadMode1
            } else if pc == 8 {
                Action::Write { reg: MODE1, value: wake_mode(saved) }
            } else {
                Action::DelayMillis { millis: POWER_ON_SETTLE_MS }
            }
        },
        Op::SetFrequency { hz } => {
            if pc == 0 {
                Action::ReadMode1
            } else if pc == 1 {
                Action::Write { reg: MODE1, value: sleep_mode(saved) }
            } else if pc == 2 {
                Action::Write { reg: PRESCALE, value: prescale_for_frequency(hz) }
            } else if pc == 3 {
                Action::Write { reg: MODE1, value: saved }
            } else if pc == 4 {
                Action::DelayMillis { millis: OSCILLATOR_RESTART_SETTLE_MS }
            } else {
                Action::Write { reg: MODE1, value: restart_mode(saved) }
            }
        },
        Op::SetChannelPwm { channel, on, off } => pwm_write_action_at(
            channel_base(channel),
            on,
            off,
            pc,
        ),
        Op::SetAllChannelsPwm { on, off } => pwm_write_action_at(ALL_LED_ON_L, on, off, pc),
        Op::SetPulseMicroseconds { channel, pulse_us } => pwm_write_action_at(
            channel_base(channel),
            0,
            pulse_off_ticks(pulse_us),
            pc,
        ),
        Op::SetAngleDegrees { channel, angle_deg } => pwm_write_action_at(
            channel_base(channel),
            0,
            angle_off_ticks(angle_deg),
            pc,
        ),
        Op::SetServoCenter { channel } => pwm_write_action_at(
            channel_base(channel),
            0,
            SERVO_CENTER_TICKS,
            pc,
        ),
    }
}

/// Record that the current write or delay completed; the session moves to
/// the next action of the same command.
pub fn step_ok(s: Session) -> (next: Session)
    requires
        s.wf(),
        !s.spec_done(),
        !(s.actions()[s.pos()] is ReadMode1),
    ensures
        next.wf(),
        next.op() == s.op(),
        next.saved_mode() == s.saved_mode(),
        next.pos() == s.pos() + 1,
        next.failure() is None,
{
    proof {
        lemma_script_len(s.op);
    }
    Session { pc: s.pc + 1, ..s }
}

/// Record the value the read of mode register 1 returned; the session
/// keeps it for the writes that follow.
pub fn step_read(s: Session, value: u8) -> (next: Session)
    requires
        s.wf(),
        !s.spec_done(),
        s.actions()[s.pos()] is ReadMode1,
    ensures
        next.wf(),
        next.op() == s.op(),
        next.saved_mode() == value,
        next.pos() == s.pos() + 1,
        next.failure() is None,
{
    proof {
        lemma_script_len(s.op);
    }
    Session { pc: s.pc + 1, saved: value, ..s }
}

/// Record that the current bus access failed.  The session is finished at
/// once: no further action is issued, and the outcome carries the
/// register whose access failed.
pub fn step_failed(s: Session) -> (next: Session)
    requires
        s.wf(),
        !s.spec_done(),
        !(s.actions()[s.pos()] is DelayMillis),
    ensures
        next.wf(),
        next.op() == s.op(),
        next.pos() == s.pos(),
        next.spec_done(),
        next.failure() == Some(action_register(s.actions()[s.pos()])),
{
    let a = current_action(&s);
    let reg = match a {
        Action::Write { reg, .. } => reg,
        Action::ReadMode1 => MODE1,
        Action::DelayMillis { .. } => MODE1,
    };
    Session { failed: Some(reg), ..s }
}

/// The result of a finished session: success, or the transport error
/// carrying the register whose access failed.
pub fn outcome(s: &Session) -> (r: Result<(), TransportError>)
    requires
        s.wf(),
        s.spec_done(),
    ensures
        r is Ok <==> s.failure() is None,
        s.failure() is Some ==> r == Err::<(), TransportError>(
            TransportError { reg: s.failure()->Some_0 },
        ),
{
    match s.failed {
        None => Ok(()),
        Some(reg) => Err(TransportError { reg }),
    }
}

} // verus!
