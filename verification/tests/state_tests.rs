use rust_fc::state::{ArmBlockFlags, FailsafeAction, State, SystemErrorFlags, SystemState};

#[test]
fn new_state_is_init_and_blocked_by_calibration() {
    let s = SystemState::new();
    assert_eq!(s.get_state(), State::Init);
    assert_eq!(s.get_failsafe(), FailsafeAction::NoAction);
    assert!(s.get_arm_errors().contains(ArmBlockFlags::calibrating()));
    assert_eq!(s.get_arm_errors().bits(), 4);
    assert!(s.get_system_errors().is_empty());
    assert!(!s.can_arm());
    assert!(!s.is_armed());
}

#[test]
fn state_reads_back_what_was_set() {
    let mut s = SystemState::new();
    for st in [State::Disarmed, State::Armed, State::Failsafe, State::Init] {
        s.set_state(st);
        assert_eq!(s.get_state(), st);
        assert_eq!(s.is_armed(), st == State::Armed);
    }
}

#[test]
fn failsafe_reads_back_what_was_set() {
    let mut s = SystemState::new();
    s.set_failsafe(FailsafeAction::Land);
    assert_eq!(s.get_failsafe(), FailsafeAction::Land);
    s.set_failsafe(FailsafeAction::NoAction);
    assert_eq!(s.get_failsafe(), FailsafeAction::NoAction);
}

#[test]
fn clearing_calibration_allows_arming() {
    let mut s = SystemState::new();
    s.clear_arm_error(ArmBlockFlags::calibrating());
    assert!(s.get_arm_errors().is_empty());
    assert!(s.can_arm());
}

#[test]
fn arm_flags_add_and_clear_independently() {
    let mut s = SystemState::new();
    s.add_arm_error(ArmBlockFlags::too_tilted());
    s.add_arm_error(ArmBlockFlags::no_rx());
    assert_eq!(s.get_arm_errors().bits(), 4 | 2 | 8);
    s.clear_arm_error(ArmBlockFlags::calibrating());
    assert_eq!(s.get_arm_errors().bits(), 2 | 8);
    assert!(s.get_arm_errors().contains(ArmBlockFlags::too_tilted()));
    assert!(!s.get_arm_errors().contains(ArmBlockFlags::throttle_not_zero()));
    s.clear_arm_error(ArmBlockFlags::too_tilted());
    s.clear_arm_error(ArmBlockFlags::no_rx());
    assert!(s.can_arm());
}

#[test]
fn a_system_error_blocks_arming() {
    let mut s = SystemState::new();
    s.clear_arm_error(ArmBlockFlags::calibrating());
    s.add_system_error(SystemErrorFlags::bat_critical());
    assert!(!s.can_arm());
    assert!(s.get_system_errors().contains(SystemErrorFlags::bat_critical()));
    s.add_system_error(SystemErrorFlags::servo_failure());
    assert_eq!(s.get_system_errors().bits(), 2 | 8);
    s.clear_system_error(SystemErrorFlags::bat_critical());
    assert_eq!(s.get_system_errors().bits(), 8);
    s.clear_system_error(SystemErrorFlags::servo_failure());
    assert!(s.can_arm());
}

#[test]
fn from_bits_truncate_drops_unknown_bits() {
    assert_eq!(ArmBlockFlags::from_bits_truncate(0xFFF5).bits(), 0x5);
    assert_eq!(SystemErrorFlags::from_bits_truncate(0x0130).bits(), 0);
    assert!(SystemErrorFlags::from_bits_truncate(0x0130).is_empty());
}

#[test]
fn flag_constants() {
    assert_eq!(ArmBlockFlags::throttle_not_zero().bits(), 1);
    assert_eq!(ArmBlockFlags::too_tilted().bits(), 2);
    assert_eq!(ArmBlockFlags::calibrating().bits(), 4);
    assert_eq!(ArmBlockFlags::no_rx().bits(), 8);
    assert_eq!(SystemErrorFlags::rx_lost().bits(), 1);
    assert_eq!(SystemErrorFlags::bat_critical().bits(), 2);
    assert_eq!(SystemErrorFlags::imu_failure().bits(), 4);
    assert_eq!(SystemErrorFlags::servo_failure().bits(), 8);
}

#[test]
fn reads_give_the_last_value_set_after_any_calls() {
    let mut s = SystemState::new();
    s.add_arm_error(ArmBlockFlags::too_tilted());
    s.add_system_error(SystemErrorFlags::rx_lost());
    assert_eq!(s.get_state(), State::Init);
    assert_eq!(s.get_failsafe(), FailsafeAction::NoAction);
    s.set_state(State::Armed);
    s.set_failsafe(FailsafeAction::Land);
    s.clear_arm_error(ArmBlockFlags::too_tilted());
    s.clear_system_error(SystemErrorFlags::rx_lost());
    s.add_arm_error(ArmBlockFlags::no_rx());
    assert_eq!(s.get_state(), State::Armed);
    assert_eq!(s.get_failsafe(), FailsafeAction::Land);
    s.set_state(State::Failsafe);
    assert_eq!(s.get_state(), State::Failsafe);
    assert_eq!(s.get_failsafe(), FailsafeAction::Land);
}
