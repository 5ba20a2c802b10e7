//! The decisions of the control tasks: arming from receiver packets, what
//! the rate loop does in each flight state, and how sensor health and tilt
//! feed the system state. The tasks perform the I/O and the floating-point
//! control; these functions take what they observed and update the state.

use vstd::prelude::*;
use crate::state::{
    decode_failsafe, decode_state, state_code, ArmBlockFlags, FailsafeAction, State, SystemErrorFlags, SystemState,
    ARM_CALIBRATING, ARM_TOO_TILTED, ERR_IMU_FAILURE, ERR_RX_LOST,
};

verus! {

/// How long, in microseconds, the arm request must be held with the
/// throttle low before the controller arms.
pub const ARM_HOLD_US: u64 = 2_000_000;

/// What a receiver packet did.
#[derive(Clone, Copy, Debug, PartialEq, Eq, Structural)]
pub enum RxOutcome {
    /// The packet asked to disarm; the controller is disarmed.
    Disarmed,
    /// The arm request has been held long enough; the controller is armed.
    Armed,
    /// An arm request with the throttle low started the hold.
    HoldStarted,
    /// The arm request is still being held.
    Holding,
    /// No arm request with the throttle low; the hold is reset.
    Released,
}

/// What the receiver task observed in one packet: a disarm request, an arm
/// request, whether the throttle was low enough to arm, and when (in
/// microseconds) the packet was handled.
#[derive(Clone, Copy, Debug, PartialEq, Eq, Structural)]
pub struct RxCommand {
    pub disarm: bool,
    pub arm: bool,
    pub throttle_low: bool,
    pub now_us: u64,
}

/// Whether a packet keeps an arming hold going: it asks to arm, with the
/// throttle low, and does not ask to disarm.
pub open spec fn arm_held(cmd: RxCommand) -> bool {
    !cmd.disarm && cmd.arm && cmd.throttle_low
}

/// What a packet does, given when the running hold (if any) started.
pub open spec fn rx_outcome(start: Option<u64>, cmd: RxCommand) -> RxOutcome {
    if cmd.disarm {
        RxOutcome::Disarmed
    } else if !(cmd.arm && cmd.throttle_low) {
        RxOutcome::Released
    } else {
        match start {
            None => RxOutcome::HoldStarted,
            Some(s) => if cmd.now_us - s >= ARM_HOLD_US {
                RxOutcome::Armed
            } else {
                RxOutcome::Holding
            },
        }
    }
}

/// When the hold that runs after a packet started, if one runs.
pub open spec fn hold_after(start: Option<u64>, cmd: RxCommand) -> Option<u64> {
    match rx_outcome(start, cmd) {
        RxOutcome::HoldStarted => Some(cmd.now_us),
        RxOutcome::Holding => start,
        _ => None,
    }
}

/// The hold that runs after a sequence of packets, from the hold `start`.
pub open spec fn hold_after_all(start: Option<u64>, cmds: Seq<RxCommand>) -> Option<u64>
    decreases cmds.len(),
{
    if cmds.len() == 0 {
        start
    } else {
        hold_after(hold_after_all(start, cmds.drop_last()), cmds.last())
    }
}

/// The state code that a packet leaves, from the stored code `code`.
pub open spec fn state_after_rx(code: u8, outcome: RxOutcome) -> u8 {
    match outcome {
        RxOutcome::Disarmed => state_code(State::Disarmed),
        RxOutcome::Armed => state_code(State::Armed),
        _ => code,
    }
}

/// The arming hold of the receiver task: when the current arm request
/// (with the throttle low) started, in microseconds.
pub struct ArmingTimer {
    arm_start: Option<u64>,
}

/// The state code and flag words of `after` differ from `before` at most in
/// the state code.
pub open spec fn only_state_changed(before: SystemState, after: SystemState) -> bool {
    &&& after.arm_errors_raw() == before.arm_errors_raw()
    &&& after.system_errors_raw() == before.system_errors_raw()
    &&& after.failsafe_raw() == before.failsafe_raw()
}

impl ArmingTimer {
    /// When the current hold started, if one is running.
    pub closed spec fn started_at(&self) -> Option<u64> {
        self.arm_start
    }

    /// No hold running.
    pub fn new() -> (t: ArmingTimer)
        ensures
            t.started_at() == None::<u64>,
    {
        ArmingTimer { arm_start: None }
    }

    /// When the current hold started, if one is running.
    pub fn started_at_us(&self) -> (r: Option<u64>)
        ensures
            r == self.started_at(),
    {
        self.arm_start
    }

    /// Handles a packet: a disarm request disarms; an arm request with the
    /// throttle low starts the hold, or arms once it has been held for
    /// `ARM_HOLD_US`; anything else resets the hold.
    pub fn on_packet(&mut self, system: &mut SystemState, cmd: RxCommand) -> (outcome: RxOutcome)
        requires
            old(self).started_at() matches Some(s) ==> s <= cmd.now_us,
        ensures
            outcome == rx_outcome(old(self).started_at(), cmd),
            final(self).started_at() == hold_after(old(self).started_at(), cmd),
            final(system).state_raw() == state_after_rx(old(system).state_raw(), outcome),
            only_state_changed(*old(system), *final(system)),
            cmd.disarm ==> final(system).state_raw() == state_code(State::Disarmed),
            outcome == RxOutcome::Armed ==> final(system).state_raw() == state_code(State::Armed),
            !cmd.disarm && outcome != RxOutcome::Armed ==> final(system).state_raw() == old(system).state_raw(),
    {
        if cmd.disarm {
            system.set_state(State::Disarmed);
            self.arm_start = None;
            RxOutcome::Disarmed
        } else if cmd.arm && cmd.throttle_low {
            match self.arm_start {
                Some(start) => {
                    if cmd.now_us - start >= ARM_HOLD_US {
                        system.set_state(State::Armed);
                        self.arm_start = None;
                        RxOutcome::Armed
                    } else {
                        RxOutcome::Holding
                    }
                },
                None => {
                    self.arm_start = Some(cmd.now_us);
                    RxOutcome::HoldStarted
                },
            }
        } else {
            self.arm_start = None;
            RxOutcome::Released
        }
    }
}

/// A disarm request disarms the controller and ends any hold, whatever
/// came before it.
pub proof fn lemma_disarm_wins(start: Option<u64>, code: u8, cmd: RxCommand)
    requires
        cmd.disarm,
    ensures
        rx_outcome(start, cmd) == RxOutcome::Disarmed,
        hold_after(start, cmd) == None::<u64>,
        decode_state(state_after_rx(code, rx_outcome(start, cmd))) == State::Disarmed,
{
}

/// A packet changes the flight state only to disarm on a disarm request or
/// to arm when a hold completes: a packet that releases, starts or continues
/// a hold leaves the stored state as it was, and arming happens only on a
/// packet that asks to arm with the throttle low after a hold of at least
/// `ARM_HOLD_US`.
pub proof fn lemma_rx_state_changes(code: u8, start: Option<u64>, cmd: RxCommand)
    ensures
        cmd.disarm ==> state_after_rx(code, rx_outcome(start, cmd)) == state_code(State::Disarmed),
        !cmd.disarm && rx_outcome(start, cmd) != RxOutcome::Armed ==> state_after_rx(
            code,
            rx_outcome(start, cmd),
        ) == code,
        !cmd.disarm && !(cmd.arm && cmd.throttle_low) ==> state_after_rx(code, rx_outcome(start, cmd))
            == code,
        !cmd.disarm && cmd.arm && cmd.throttle_low && start is None ==> state_after_rx(
            code,
            rx_outcome(start, cmd),
        ) == code,
        state_after_rx(code, rx_outcome(start, cmd)) != code ==> cmd.disarm || (arm_held(cmd)
            && (start matches Some(s) && cmd.now_us - s >= ARM_HOLD_US)),
        (rx_outcome(start, cmd) == RxOutcome::Disarmed) == cmd.disarm,
        !arm_held(cmd) ==> hold_after(start, cmd) is None,
        arm_held(cmd) && start is None ==> hold_after(start, cmd) == Some(cmd.now_us),
        rx_outcome(start, cmd) == RxOutcome::Armed ==> arm_held(cmd) && (start matches Some(s)
            && cmd.now_us - s >= ARM_HOLD_US) && state_after_rx(code, rx_outcome(start, cmd))
            == state_code(State::Armed),
{
}

/// A running hold started at a packet that asked to arm with the throttle
/// low, and every packet since has kept asking so.
pub proof fn lemma_hold_has_witness(cmds: Seq<RxCommand>)
    ensures
        hold_after_all(None, cmds) matches Some(s) ==> exists|i: int|
            0 <= i < cmds.len() && #[trigger] cmds[i].now_us == s && (forall|j: int|
                i <= j < cmds.len() ==> arm_held(#[trigger] cmds[j])),
    decreases cmds.len(),
{
    if cmds.len() > 0 {
        let prefix = cmds.drop_last();
        lemma_hold_has_witness(prefix);
        let prev = hold_after_all(None, prefix);
        let last = cmds.last();
        match hold_after_all(None, cmds) {
            Some(s) => {
                if rx_outcome(prev, last) == RxOutcome::HoldStarted {
                    let i = cmds.len() - 1;
                    assert(cmds[i].now_us == s);
                    assert forall|j: int| i <= j < cmds.len() implies arm_held(#[trigger] cmds[j]) by {
                        assert(j == i);
                    }
                } else {
                    let i = choose|i: int|
                        0 <= i < prefix.len() && #[trigger] prefix[i].now_us == s && (forall|j: int|
                            i <= j < prefix.len() ==> arm_held(#[trigger] prefix[j]));
                    assert(cmds[i].now_us == s);
                    assert forall|j: int| i <= j < cmds.len() implies arm_held(#[trigger] cmds[j]) by {
                        if j < cmds.len() - 1 {
                            assert(cmds[j] == prefix[j]);
                        }
                    }
                }
            },
            None => {},
        }
    }
}

/// Arming takes a hold: a packet arms the controller only if it ends a run
/// of packets that all asked to arm with the throttle low, the first of
/// which came at least `ARM_HOLD_US` earlier.
pub proof fn lemma_arming_needs_hold(cmds: Seq<RxCommand>)
    requires
        cmds.len() > 0,
    ensures
        rx_outcome(hold_after_all(None, cmds.drop_last()), cmds.last()) == RxOutcome::Armed ==> exists|i: int|
            0 <= i < cmds.len() - 1 && cmds.last().now_us - #[trigger] cmds[i].now_us >= ARM_HOLD_US
                && (forall|j: int| i <= j < cmds.len() ==> arm_held(#[trigger] cmds[j])),
{
    let prefix = cmds.drop_last();
    lemma_hold_has_witness(prefix);
    if rx_outcome(hold_after_all(None, prefix), cmds.last()) == RxOutcome::Armed {
        let s = hold_after_all(None, prefix).unwrap();
        let i = choose|i: int|
            0 <= i < prefix.len() && #[trigger] prefix[i].now_us == s && (forall|j: int|
                i <= j < prefix.len() ==> arm_held(#[trigger] prefix[j]));
        assert(cmds[i].now_us == s);
        assert forall|j: int| i <= j < cmds.len() implies arm_held(#[trigger] cmds[j]) by {
            if j < cmds.len() - 1 {
                assert(cmds[j] == prefix[j]);
            }
        }
    }
}

/// Handles a failed or timed-out receive: the link is marked lost and the
/// controller disarmed. A running arming hold is left as it is.
pub fn receiver_link_lost(system: &mut SystemState)
    ensures
        final(system).state_raw() == state_code(State::Disarmed),
        final(system).system_errors_raw() == old(system).system_errors_raw() | ERR_RX_LOST,
        final(system).arm_errors_raw() == old(system).arm_errors_raw(),
        final(system).failsafe_raw() == old(system).failsafe_raw(),
{
    system.add_system_error(SystemErrorFlags::rx_lost());
    system.set_state(State::Disarmed);
}

/// What the rate loop does in a tick.
#[derive(Clone, Copy, Debug, PartialEq, Eq, Structural)]
pub enum RateAction {
    /// Run the rate controllers and drive the actuators.
    Fly,
    /// Reset the rate controllers and stop the actuators.
    Stop,
    /// Reset the rate controllers, stop the actuators and carry out the
    /// failsafe action.
    Failsafe(FailsafeAction),
}

/// The rate loop's action in the current flight state.
pub fn rate_action(system: &SystemState) -> (action: RateAction)
    ensures
        action == (match system.state() {
            State::Armed => RateAction::Fly,
            State::Disarmed | State::Init => RateAction::Stop,
            State::Failsafe => RateAction::Failsafe(decode_failsafe(system.failsafe_raw())),
        }),
{
    match system.get_state() {
        State::Armed => RateAction::Fly,
        State::Disarmed | State::Init => RateAction::Stop,
        State::Failsafe => RateAction::Failsafe(system.get_failsafe()),
    }
}

/// Records the result of a sensor read in the rate loop: a good read clears
/// the sensor failure; a failed read sets it and sends the controller into
/// failsafe.
pub fn record_imu_read(system: &mut SystemState, ok: bool)
    ensures
        final(system).arm_errors_raw() == old(system).arm_errors_raw(),
        final(system).failsafe_raw() == old(system).failsafe_raw(),
        ok ==> final(system).system_errors_raw() == old(system).system_errors_raw() & !ERR_IMU_FAILURE,
        ok ==> final(system).state_raw() == old(system).state_raw(),
        !ok ==> final(system).system_errors_raw() == old(system).system_errors_raw() | ERR_IMU_FAILURE,
        !ok ==> final(system).state_raw() == state_code(State::Failsafe),
{
    if ok {
        system.clear_system_error(SystemErrorFlags::imu_failure());
    } else {
        system.add_system_error(SystemErrorFlags::imu_failure());
        system.set_state(State::Failsafe);
    }
}

/// Marks the start of sensor calibration: arming is blocked until it ends.
pub fn begin_calibration(system: &mut SystemState)
    ensures
        final(system).arm_errors_raw() == old(system).arm_errors_raw() | ARM_CALIBRATING,
        final(system).state_raw() == old(system).state_raw(),
        final(system).system_errors_raw() == old(system).system_errors_raw(),
        final(system).failsafe_raw() == old(system).failsafe_raw(),
{
    system.add_arm_error(ArmBlockFlags::calibrating());
}

/// Records the end of sensor calibration: a successful calibration lifts
/// its block on arming; a failed one leaves arming blocked.
pub fn record_calibration(system: &mut SystemState, ok: bool)
    ensures
        ok ==> final(system).arm_errors_raw() == old(system).arm_errors_raw() & !ARM_CALIBRATING,
        !ok ==> final(system).arm_errors_raw() == old(system).arm_errors_raw(),
        final(system).state_raw() == old(system).state_raw(),
        final(system).system_errors_raw() == old(system).system_errors_raw(),
        final(system).failsafe_raw() == old(system).failsafe_raw(),
{
    if ok {
        system.clear_arm_error(ArmBlockFlags::calibrating());
    }
}

/// Records the attitude loop's tilt check: while disarmed, a craft tilted
/// too far blocks arming, and one that is level no longer does. Once armed,
/// the flags are left alone.
pub fn update_tilt_block(system: &mut SystemState, too_tilted: bool)
    ensures
        final(system).state_raw() == old(system).state_raw(),
        final(system).system_errors_raw() == old(system).system_errors_raw(),
        final(system).failsafe_raw() == old(system).failsafe_raw(),
        old(system).state() == State::Armed ==> final(system).arm_errors_raw() == old(system).arm_errors_raw(),
        old(system).state() != State::Armed && too_tilted ==> final(system).arm_errors_raw()
            == old(system).arm_errors_raw() | ARM_TOO_TILTED,
        old(system).state() != State::Armed && !too_tilted ==> final(system).arm_errors_raw()
            == old(system).arm_errors_raw() & !ARM_TOO_TILTED,
{
    if !system.is_armed() {
        if too_tilted {
            system.add_arm_error(ArmBlockFlags::too_tilted());
        } else {
            system.clear_arm_error(ArmBlockFlags::too_tilted());
        }
    }
}

} // verus!
