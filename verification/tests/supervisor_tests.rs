use rust_fc::state::{ArmBlockFlags, FailsafeAction, State, SystemErrorFlags, SystemState};
use rust_fc::supervisor::{
    begin_calibration, record_calibration, rate_action, receiver_link_lost, record_imu_read, update_tilt_block, ArmingTimer, RateAction,
    RxCommand, RxOutcome, ARM_HOLD_US,
};

fn arm_at(now_us: u64) -> RxCommand {
    RxCommand { disarm: false, arm: true, throttle_low: true, now_us }
}

#[test]
fn arming_needs_a_two_second_hold() {
    let mut s = SystemState::new();
    s.set_state(State::Disarmed);
    let mut t = ArmingTimer::new();
    assert_eq!(t.on_packet(&mut s, arm_at(1_000)), RxOutcome::HoldStarted);
    assert_eq!(t.started_at_us(), Some(1_000));
    assert_eq!(t.on_packet(&mut s, arm_at(1_500_000)), RxOutcome::Holding);
    assert_eq!(s.get_state(), State::Disarmed);
    assert_eq!(t.on_packet(&mut s, arm_at(2_000_999)), RxOutcome::Holding);
    assert_eq!(t.on_packet(&mut s, arm_at(1_000 + ARM_HOLD_US)), RxOutcome::Armed);
    assert_eq!(s.get_state(), State::Armed);
    assert_eq!(t.started_at_us(), None);
}

#[test]
fn high_throttle_resets_the_hold() {
    let mut s = SystemState::new();
    s.set_state(State::Disarmed);
    let mut t = ArmingTimer::new();
    t.on_packet(&mut s, arm_at(0));
    let cmd = RxCommand { disarm: false, arm: true, throttle_low: false, now_us: 1_000_000 };
    assert_eq!(t.on_packet(&mut s, cmd), RxOutcome::Released);
    assert_eq!(t.started_at_us(), None);
    assert_eq!(t.on_packet(&mut s, arm_at(2_500_000)), RxOutcome::HoldStarted);
    assert_eq!(s.get_state(), State::Disarmed);
}

#[test]
fn disarm_request_disarms() {
    let mut s = SystemState::new();
    s.set_state(State::Armed);
    let mut t = ArmingTimer::new();
    t.on_packet(&mut s, arm_at(5));
    let cmd = RxCommand { disarm: true, arm: true, throttle_low: true, now_us: 10 };
    assert_eq!(t.on_packet(&mut s, cmd), RxOutcome::Disarmed);
    assert_eq!(s.get_state(), State::Disarmed);
    assert_eq!(t.started_at_us(), None);
}

#[test]
fn link_loss_disarms_and_flags_rx() {
    let mut s = SystemState::new();
    s.set_state(State::Armed);
    receiver_link_lost(&mut s);
    assert_eq!(s.get_state(), State::Disarmed);
    assert!(s.get_system_errors().contains(SystemErrorFlags::rx_lost()));
    assert!(!s.can_arm());
}

#[test]
fn rate_action_follows_state() {
    let mut s = SystemState::new();
    assert_eq!(rate_action(&s), RateAction::Stop);
    s.set_state(State::Armed);
    assert_eq!(rate_action(&s), RateAction::Fly);
    s.set_state(State::Disarmed);
    assert_eq!(rate_action(&s), RateAction::Stop);
    s.set_state(State::Failsafe);
    assert_eq!(rate_action(&s), RateAction::Failsafe(FailsafeAction::NoAction));
    s.set_failsafe(FailsafeAction::Land);
    assert_eq!(rate_action(&s), RateAction::Failsafe(FailsafeAction::Land));
}

#[test]
fn sensor_failure_sends_to_failsafe() {
    let mut s = SystemState::new();
    s.set_state(State::Armed);
    record_imu_read(&mut s, true);
    assert_eq!(s.get_state(), State::Armed);
    record_imu_read(&mut s, false);
    assert_eq!(s.get_state(), State::Failsafe);
    assert!(s.get_system_errors().contains(SystemErrorFlags::imu_failure()));
    record_imu_read(&mut s, true);
    assert!(!s.get_system_errors().contains(SystemErrorFlags::imu_failure()));
    assert_eq!(s.get_state(), State::Failsafe);
}

#[test]
fn tilt_blocks_arming_only_while_disarmed() {
    let mut s = SystemState::new();
    s.set_state(State::Disarmed);
    update_tilt_block(&mut s, true);
    assert!(s.get_arm_errors().contains(ArmBlockFlags::too_tilted()));
    update_tilt_block(&mut s, false);
    assert!(!s.get_arm_errors().contains(ArmBlockFlags::too_tilted()));
    s.set_state(State::Armed);
    update_tilt_block(&mut s, true);
    assert!(!s.get_arm_errors().contains(ArmBlockFlags::too_tilted()));
}

#[test]
fn calibration_blocks_arming_until_it_succeeds() {
    let mut s = SystemState::new();
    s.clear_arm_error(ArmBlockFlags::calibrating());
    begin_calibration(&mut s);
    assert!(!s.can_arm());
    record_calibration(&mut s, false);
    assert!(s.get_arm_errors().contains(ArmBlockFlags::calibrating()));
    record_calibration(&mut s, true);
    assert!(s.can_arm());
}
