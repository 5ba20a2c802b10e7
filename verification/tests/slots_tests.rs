use rust_fc::actuator_slots::{ActuatorSlots, MotorGrant, ServoGrant};

#[test]
fn servos_come_in_pairs_per_slice() {
    let mut slots = ActuatorSlots::new();
    assert_eq!(slots.take_servo(), Some(ServoGrant::Split(1)));
    assert_eq!(slots.take_servo(), Some(ServoGrant::Parked(1)));
    assert_eq!(slots.take_servo(), Some(ServoGrant::Split(2)));
    assert_eq!(slots.take_servo(), Some(ServoGrant::Parked(2)));
    assert_eq!(slots.take_servo(), None);
    assert_eq!(slots.take_servo(), None);
}

#[test]
fn motors_pair_pins_with_state_machines() {
    let mut slots = ActuatorSlots::new();
    assert_eq!(slots.motors_available(), 4);
    assert_eq!(slots.take_motor(), MotorGrant { pin: 6, state_machine: Some(0) });
    assert_eq!(slots.take_motor(), MotorGrant { pin: 7, state_machine: Some(1) });
    assert_eq!(slots.take_motor(), MotorGrant { pin: 8, state_machine: Some(2) });
    assert_eq!(slots.take_motor(), MotorGrant { pin: 9, state_machine: Some(3) });
    assert_eq!(slots.motors_available(), 0);
}

#[test]
fn taking_every_motor_leaves_servos_alone() {
    let mut slots = ActuatorSlots::new();
    for _ in 0..4 {
        slots.take_motor();
    }
    assert_eq!(slots.motors_available(), 0);
    assert_eq!(slots.take_servo(), Some(ServoGrant::Split(1)));
}

#[test]
fn servo_and_motor_allocation_are_independent() {
    let mut slots = ActuatorSlots::new();
    assert_eq!(slots.take_motor(), MotorGrant { pin: 6, state_machine: Some(0) });
    assert_eq!(slots.take_servo(), Some(ServoGrant::Split(1)));
    assert_eq!(slots.motors_available(), 3);
    assert_eq!(slots.take_servo(), Some(ServoGrant::Parked(1)));
}
