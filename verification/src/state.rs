//! System state of the flight controller: the flight state machine, the
//! failsafe action, and two sets of flags (reasons that block arming, and
//! system errors).
//!
//! The state is kept as the raw encodings (a state code, a failsafe code and
//! two flag words), exactly as they are stored for sharing between the
//! control tasks; the accessors decode them.

use vstd::prelude::*;

verus! {

/// The flight state.
#[derive(Clone, Copy, Debug, PartialEq, Eq, Structural)]
pub enum State {
    Init,
    Disarmed,
    Armed,
    Failsafe,
}

/// What the controller does once it is in failsafe.
#[derive(Clone, Copy, Debug, PartialEq, Eq, Structural)]
pub enum FailsafeAction {
    NoAction,
    Land,
}

/// The code under which a state is stored.
pub open spec fn state_code(state: State) -> u8 {
    match state {
        State::Init => 0,
        State::Disarmed => 1,
        State::Armed => 2,
        State::Failsafe => 3,
    }
}

/// The state that a stored code stands for; an unknown code reads as failsafe.
pub open spec fn decode_state(code: u8) -> State {
    if code == 0 {
        State::Init
    } else if code == 1 {
        State::Disarmed
    } else if code == 2 {
        State::Armed
    } else {
        State::Failsafe
    }
}

/// The code under which a failsafe action is stored.
pub open spec fn failsafe_code(action: FailsafeAction) -> u8 {
    match action {
        FailsafeAction::NoAction => 0,
        FailsafeAction::Land => 1,
    }
}

/// The failsafe action that a stored code stands for; an unknown code reads as landing.
pub open spec fn decode_failsafe(code: u8) -> FailsafeAction {
    if code == 0 {
        FailsafeAction::NoAction
    } else {
        FailsafeAction::Land
    }
}

/// The bits that name a known flag, in either flag word.
pub const FLAG_MASK: u16 = 0x000F;

/// Arm-blocking flag bits.
pub const ARM_THROTTLE_NOT_ZERO: u16 = 1;
pub const ARM_TOO_TILTED: u16 = 2;
pub const ARM_CALIBRATING: u16 = 4;
pub const ARM_NO_RX: u16 = 8;

/// System error flag bits.
pub const ERR_RX_LOST: u16 = 1;
pub const ERR_BAT_CRITICAL: u16 = 2;
pub const ERR_IMU_FAILURE: u16 = 4;
pub const ERR_SERVO_FAILURE: u16 = 8;

/// Reasons that keep the controller from arming.
#[derive(Clone, Copy, Debug, PartialEq, Eq, Structural)]
pub struct ArmBlockFlags {
    bits: u16,
}

impl ArmBlockFlags {
    /// The throttle stick is not at zero.
    pub fn throttle_not_zero() -> (f: ArmBlockFlags)
        ensures
            f.spec_bits() == ARM_THROTTLE_NOT_ZERO,
            f.wf(),
    {
        proof { lemma_single_flags_known(); }
        ArmBlockFlags { bits: ARM_THROTTLE_NOT_ZERO }
    }

    /// The craft is tilted too far to arm.
    pub fn too_tilted() -> (f: ArmBlockFlags)
        ensures
            f.spec_bits() == ARM_TOO_TILTED,
            f.wf(),
    {
        proof { lemma_single_flags_known(); }
        ArmBlockFlags { bits: ARM_TOO_TILTED }
    }

    /// The sensors are still being calibrated.
    pub fn calibrating() -> (f: ArmBlockFlags)
        ensures
            f.spec_bits() == ARM_CALIBRATING,
            f.wf(),
    {
        proof { lemma_single_flags_known(); }
        ArmBlockFlags { bits: ARM_CALIBRATING }
    }

    /// No receiver link.
    pub fn no_rx() -> (f: ArmBlockFlags)
        ensures
            f.spec_bits() == ARM_NO_RX,
            f.wf(),
    {
        proof { lemma_single_flags_known(); }
        ArmBlockFlags { bits: ARM_NO_RX }
    }

    /// The flag word.
    pub closed spec fn spec_bits(self) -> u16 {
        self.bits
    }

    /// A flag word holds only known flags.
    pub open spec fn wf(self) -> bool {
        self.spec_bits() & !FLAG_MASK == 0
    }

    /// The raw flag word.
    pub fn bits(&self) -> (b: u16)
        ensures
            b == self.spec_bits(),
    {
        self.bits
    }

    /// The flags of a raw word, with the unknown bits dropped.
    pub fn from_bits_truncate(bits: u16) -> (f: ArmBlockFlags)
        ensures
            f.spec_bits() == bits & FLAG_MASK,
            f.wf(),
    {
        let f = ArmBlockFlags { bits: bits & FLAG_MASK };
        assert((bits & 0x000Fu16) & !0x000Fu16 == 0u16) by (bit_vector);
        f
    }

    /// Whether no flag is set.
    pub fn is_empty(&self) -> (r: bool)
        ensures
            r == (self.spec_bits() == 0),
    {
        self.bits == 0
    }

    /// Whether every flag of `other` is set in `self`.
    pub fn contains(&self, other: ArmBlockFlags) -> (r: bool)
        ensures
            r == (self.spec_bits() & other.spec_bits() == other.spec_bits()),
    {
        self.bits & other.bits == other.bits
    }
}

/// Errors of the system as a whole.
#[derive(Clone, Copy, Debug, PartialEq, Eq, Structural)]
pub struct SystemErrorFlags {
    bits: u16,
}

impl SystemErrorFlags {
    /// The receiver link was lost.
    pub fn rx_lost() -> (f: SystemErrorFlags)
        ensures
            f.spec_bits() == ERR_RX_LOST,
            f.wf(),
    {
        proof { lemma_single_flags_known(); }
        SystemErrorFlags { bits: ERR_RX_LOST }
    }

    /// The battery is critically low.
    pub fn bat_critical() -> (f: SystemErrorFlags)
        ensures
            f.spec_bits() == ERR_BAT_CRITICAL,
            f.wf(),
    {
        proof { lemma_single_flags_known(); }
        SystemErrorFlags { bits: ERR_BAT_CRITICAL }
    }

    /// The inertial sensor failed.
    pub fn imu_failure() -> (f: SystemErrorFlags)
        ensures
            f.spec_bits() == ERR_IMU_FAILURE,
            f.wf(),
    {
        proof { lemma_single_flags_known(); }
        SystemErrorFlags { bits: ERR_IMU_FAILURE }
    }

    /// A servo failed.
    pub fn servo_failure() -> (f: SystemErrorFlags)
        ensures
            f.spec_bits() == ERR_SERVO_FAILURE,
            f.wf(),
    {
        proof { lemma_single_flags_known(); }
        SystemErrorFlags { bits: ERR_SERVO_FAILURE }
    }

    /// The flag word.
    pub closed spec fn spec_bits(self) -> u16 {
        self.bits
    }

    /// A flag word holds only known flags.
    pub open spec fn wf(self) -> bool {
        self.spec_bits() & !FLAG_MASK == 0
    }

    /// The raw flag word.
    pub fn bits(&self) -> (b: u16)
        ensures
            b == self.spec_bits(),
    {
        self.bits
    }

    /// The flags of a raw word, with the unknown bits dropped.
    pub fn from_bits_truncate(bits: u16) -> (f: SystemErrorFlags)
        ensures
            f.spec_bits() == bits & FLAG_MASK,
            f.wf(),
    {
        let f = SystemErrorFlags { bits: bits & FLAG_MASK };
        assert((bits & 0x000Fu16) & !0x000Fu16 == 0u16) by (bit_vector);
        f
    }

    /// Whether no flag is set.
    pub fn is_empty(&self) -> (r: bool)
        ensures
            r == (self.spec_bits() == 0),
    {
        self.bits == 0
    }

    /// Whether every flag of `other` is set in `self`.
    pub fn contains(&self, other: SystemErrorFlags) -> (r: bool)
        ensures
            r == (self.spec_bits() & other.spec_bits() == other.spec_bits()),
    {
        self.bits & other.bits == other.bits
    }
}

/// The shared system state: the stored state code, the two flag words and
/// the stored failsafe code.
pub struct SystemState {
    system_state: u8,
    arm_errors: u16,
    system_errors: u16,
    failsafe: u8,
}

impl SystemState {
    /// The stored state code.
    pub closed spec fn state_raw(&self) -> u8 {
        self.system_state
    }

    /// The stored word of arm-blocking flags.
    pub closed spec fn arm_errors_raw(&self) -> u16 {
        self.arm_errors
    }

    /// The stored word of system error flags.
    pub closed spec fn system_errors_raw(&self) -> u16 {
        self.system_errors
    }

    /// The stored failsafe code.
    pub closed spec fn failsafe_raw(&self) -> u8 {
        self.failsafe
    }

    /// The flight state that the stored code stands for.
    pub open spec fn state(&self) -> State {
        decode_state(self.state_raw())
    }

    /// The known arm-blocking flags that are set.
    pub open spec fn arm_blocks(&self) -> u16 {
        self.arm_errors_raw() & FLAG_MASK
    }

    /// The known system error flags that are set.
    pub open spec fn errors(&self) -> u16 {
        self.system_errors_raw() & FLAG_MASK
    }

    /// The state that `new` creates: initialising, arming blocked by the
    /// calibration, no system error, no failsafe action.
    pub open spec fn is_fresh(&self) -> bool {
        &&& self.state_raw() == state_code(State::Init)
        &&& self.arm_errors_raw() == ARM_CALIBRATING
        &&& self.system_errors_raw() == 0
        &&& self.failsafe_raw() == failsafe_code(FailsafeAction::NoAction)
    }

    /// Whether the state allows arming: nothing blocks it and no system error is set.
    pub open spec fn spec_can_arm(&self) -> bool {
        self.arm_blocks() == 0 && self.errors() == 0
    }

    /// A fresh system state: initialising, arming blocked by the calibration
    /// that is still to run, no system error and no failsafe action.
    pub fn new() -> (s: SystemState)
        ensures
            s.is_fresh(),
            s.state_raw() == state_code(State::Init),
            s.arm_errors_raw() == ARM_CALIBRATING,
            s.system_errors_raw() == 0,
            s.failsafe_raw() == failsafe_code(FailsafeAction::NoAction),
    {
        SystemState {
            system_state: 0,
            arm_errors: ARM_CALIBRATING,
            system_errors: 0,
            failsafe: 0,
        }
    }

    /// Stores a new flight state.
    pub fn set_state(&mut self, state: State)
        ensures
            system_step(*old(self), *final(self), SystemOp::SetState(state)),
            final(self).state_raw() == state_code(state),
            final(self).arm_errors_raw() == old(self).arm_errors_raw(),
            final(self).system_errors_raw() == old(self).system_errors_raw(),
            final(self).failsafe_raw() == old(self).failsafe_raw(),
    {
        self.system_state = match state {
            State::Init => 0,
            State::Disarmed => 1,
            State::Armed => 2,
            State::Failsafe => 3,
        };
    }

    /// The current flight state; an unknown stored code reads as failsafe.
    pub fn get_state(&self) -> (state: State)
        ensures
            state == decode_state(self.state_raw()),
    {
        match self.system_state {
            0 => State::Init,
            1 => State::Disarmed,
            2 => State::Armed,
            3 => State::Failsafe,
            _ => State::Failsafe,
        }
    }

    /// Stores the action to take in failsafe.
    pub fn set_failsafe(&mut self, action: FailsafeAction)
        ensures
            system_step(*old(self), *final(self), SystemOp::SetFailsafe(action)),
            final(self).failsafe_raw() == failsafe_code(action),
            final(self).state_raw() == old(self).state_raw(),
            final(self).arm_errors_raw() == old(self).arm_errors_raw(),
            final(self).system_errors_raw() == old(self).system_errors_raw(),
    {
        self.failsafe = match action {
            FailsafeAction::NoAction => 0,
            FailsafeAction::Land => 1,
        };
    }

    /// The action to take in failsafe; an unknown stored code reads as landing.
    pub fn get_failsafe(&self) -> (action: FailsafeAction)
        ensures
            action == decode_failsafe(self.failsafe_raw()),
    {
        match self.failsafe {
            0 => FailsafeAction::NoAction,
            1 => FailsafeAction::Land,
            _ => FailsafeAction::Land,
        }
    }

    /// Sets the flags of `flag` among the arm-blocking flags.
    pub fn add_arm_error(&mut self, flag: ArmBlockFlags)
        ensures
            system_step(*old(self), *final(self), SystemOp::AddArmError(flag)),
            final(self).arm_errors_raw() == old(self).arm_errors_raw() | flag.spec_bits(),
            final(self).state_raw() == old(self).state_raw(),
            final(self).system_errors_raw() == old(self).system_errors_raw(),
            final(self).failsafe_raw() == old(self).failsafe_raw(),
    {
        self.arm_errors = self.arm_errors | flag.bits;
    }

    /// Clears the flags of `flag` among the arm-blocking flags.
    pub fn clear_arm_error(&mut self, flag: ArmBlockFlags)
        ensures
            system_step(*old(self), *final(self), SystemOp::ClearArmError(flag)),
            final(self).arm_errors_raw() == old(self).arm_errors_raw() & !flag.spec_bits(),
            final(self).state_raw() == old(self).state_raw(),
            final(self).system_errors_raw() == old(self).system_errors_raw(),
            final(self).failsafe_raw() == old(self).failsafe_raw(),
    {
        self.arm_errors = self.arm_errors & !flag.bits;
    }

    /// The arm-blocking flags that are set (unknown bits dropped).
    pub fn get_arm_errors(&self) -> (flags: ArmBlockFlags)
        ensures
            flags.spec_bits() == self.arm_blocks(),
            flags.wf(),
    {
        ArmBlockFlags::from_bits_truncate(self.arm_errors)
    }

    /// Sets the flags of `flag` among the system errors.
    pub fn add_system_error(&mut self, flag: SystemErrorFlags)
        ensures
            system_step(*old(self), *final(self), SystemOp::AddSystemError(flag)),
            final(self).system_errors_raw() == old(self).system_errors_raw() | flag.spec_bits(),
            final(self).state_raw() == old(self).state_raw(),
            final(self).arm_errors_raw() == old(self).arm_errors_raw(),
            final(self).failsafe_raw() == old(self).failsafe_raw(),
    {
        self.system_errors = self.system_errors | flag.bits;
    }

    /// Clears the flags of `flag` among the system errors.
    pub fn clear_system_error(&mut self, flag: SystemErrorFlags)
        ensures
            system_step(*old(self), *final(self), SystemOp::ClearSystemError(flag)),
            final(self).system_errors_raw() == old(self).system_errors_raw() & !flag.spec_bits(),
            final(self).state_raw() == old(self).state_raw(),
            final(self).arm_errors_raw() == old(self).arm_errors_raw(),
            final(self).failsafe_raw() == old(self).failsafe_raw(),
    {
        self.system_errors = self.system_errors & !flag.bits;
    }

    /// The system error flags that are set (unknown bits dropped).
    pub fn get_system_errors(&self) -> (flags: SystemErrorFlags)
        ensures
            flags.spec_bits() == self.errors(),
            flags.wf(),
    {
        SystemErrorFlags::from_bits_truncate(self.system_errors)
    }

    /// Whether the controller is armed.
    pub fn is_armed(&self) -> (r: bool)
        ensures
            r == (self.state() == State::Armed),
    {
        self.get_state() == State::Armed
    }

    /// Whether the controller may arm: no arm-blocking flag and no system error is set.
    pub fn can_arm(&self) -> (r: bool)
        ensures
            r == self.spec_can_arm(),
    {
        self.get_arm_errors().is_empty() && self.get_system_errors().is_empty()
    }
}

/// A call of one of the methods of `SystemState` that change it.
#[derive(Clone, Copy, Debug, PartialEq, Eq, Structural)]
pub enum SystemOp {
    SetState(State),
    SetFailsafe(FailsafeAction),
    AddArmError(ArmBlockFlags),
    ClearArmError(ArmBlockFlags),
    AddSystemError(SystemErrorFlags),
    ClearSystemError(SystemErrorFlags),
}

/// What a call does to the stored codes and flag words: it changes the one
/// it is about, and keeps the others.
pub open spec fn system_step(before: SystemState, after: SystemState, op: SystemOp) -> bool {
    &&& after.state_raw() == match op {
        SystemOp::SetState(state) => state_code(state),
        _ => before.state_raw(),
    }
    &&& after.failsafe_raw() == match op {
        SystemOp::SetFailsafe(action) => failsafe_code(action),
        _ => before.failsafe_raw(),
    }
    &&& after.arm_errors_raw() == match op {
        SystemOp::AddArmError(flag) => before.arm_errors_raw() | flag.spec_bits(),
        SystemOp::ClearArmError(flag) => before.arm_errors_raw() & !flag.spec_bits(),
        _ => before.arm_errors_raw(),
    }
    &&& after.system_errors_raw() == match op {
        SystemOp::AddSystemError(flag) => before.system_errors_raw() | flag.spec_bits(),
        SystemOp::ClearSystemError(flag) => before.system_errors_raw() & !flag.spec_bits(),
        _ => before.system_errors_raw(),
    }
}

/// The state most recently set by a sequence of calls, or `Init` if none sets one.
pub open spec fn last_state_set(ops: Seq<SystemOp>) -> State
    decreases ops.len(),
{
    if ops.len() == 0 {
        State::Init
    } else {
        match ops.last() {
            SystemOp::SetState(state) => state,
            _ => last_state_set(ops.drop_last()),
        }
    }
}

/// The failsafe action most recently set by a sequence of calls, or no
/// action if none sets one.
pub open spec fn last_failsafe_set(ops: Seq<SystemOp>) -> FailsafeAction
    decreases ops.len(),
{
    if ops.len() == 0 {
        FailsafeAction::NoAction
    } else {
        match ops.last() {
            SystemOp::SetFailsafe(action) => action,
            _ => last_failsafe_set(ops.drop_last()),
        }
    }
}

/// After a fresh system state has gone through any sequence of calls, the
/// state it reads is the one most recently set (or `Init`), and the failsafe
/// action it reads is the one most recently set (or no action).
/// `states[i + 1]` is the system state after call `ops[i]` on `states[i]`.
pub proof fn lemma_state_after_calls(states: Seq<SystemState>, ops: Seq<SystemOp>)
    requires
        states.len() == ops.len() + 1,
        states[0].is_fresh(),
        forall|i: int| 0 <= i < ops.len() ==> system_step(#[trigger] states[i], states[i + 1], ops[i]),
    ensures
        decode_state(states.last().state_raw()) == last_state_set(ops),
        decode_failsafe(states.last().failsafe_raw()) == last_failsafe_set(ops),
    decreases ops.len(),
{
    if ops.len() > 0 {
        let n = ops.len() - 1;
        let prefix_states = states.drop_last();
        let prefix_ops = ops.drop_last();
        assert forall|i: int| 0 <= i < prefix_ops.len() implies system_step(
            #[trigger] prefix_states[i],
            prefix_states[i + 1],
            prefix_ops[i],
        ) by {
            assert(system_step(states[i], states[i + 1], ops[i]));
        }
        lemma_state_after_calls(prefix_states, prefix_ops);
        assert(system_step(states[n], states[n + 1], ops[n]));
        assert(prefix_states.last() == states[n]);
        lemma_state_roundtrip(State::Init);
        match ops[n] {
            SystemOp::SetState(state) => lemma_state_roundtrip(state),
            SystemOp::SetFailsafe(action) => lemma_failsafe_roundtrip(action),
            _ => {},
        }
    }
}

/// Each single flag bit lies within the known flags.
proof fn lemma_single_flags_known()
    ensures
        1u16 & !FLAG_MASK == 0,
        2u16 & !FLAG_MASK == 0,
        4u16 & !FLAG_MASK == 0,
        8u16 & !FLAG_MASK == 0,
{
    assert(1u16 & !0x000Fu16 == 0u16 && 2u16 & !0x000Fu16 == 0u16 && 4u16 & !0x000Fu16 == 0u16
        && 8u16 & !0x000Fu16 == 0u16) by (bit_vector);
}

/// Storing a state and reading it back gives the same state.
pub proof fn lemma_state_roundtrip(state: State)
    ensures
        decode_state(state_code(state)) == state,
{
}

/// Storing a failsafe action and reading it back gives the same action.
pub proof fn lemma_failsafe_roundtrip(action: FailsafeAction)
    ensures
        decode_failsafe(failsafe_code(action)) == action,
{
}

/// After a known flag is added to a flag word, the word read back holds it;
/// after it is cleared, the word read back no longer holds it; and in both
/// cases every other known flag reads as it did before.
pub proof fn lemma_flag_add_clear(raw: u16, flag: u16)
    requires
        flag & !FLAG_MASK == 0,
    ensures
        ((raw | flag) & FLAG_MASK) & flag == flag,
        ((raw & !flag) & FLAG_MASK) & flag == 0,
        ((raw | flag) & FLAG_MASK) & !flag == (raw & FLAG_MASK) & !flag,
        ((raw & !flag) & FLAG_MASK) & !flag == (raw & FLAG_MASK) & !flag,
{
    assert(((raw | flag) & 0x000Fu16) & flag == flag) by (bit_vector)
        requires flag & !0x000Fu16 == 0u16;
    assert(((raw & !flag) & 0x000Fu16) & flag == 0u16) by (bit_vector);
    assert(((raw | flag) & 0x000Fu16) & !flag == (raw & 0x000Fu16) & !flag) by (bit_vector);
    assert(((raw & !flag) & 0x000Fu16) & !flag == (raw & 0x000Fu16) & !flag) by (bit_vector);
}

} // verus!
