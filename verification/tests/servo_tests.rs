use rust_fc::servo::servo_period_us;

#[test]
fn servo_period_at_common_rates() {
    assert_eq!(servo_period_us(250), 4_000);
    assert_eq!(servo_period_us(50), 20_000);
    assert_eq!(servo_period_us(333), 3_003);
    assert_eq!(servo_period_us(1), 1_000_000);
    assert_eq!(servo_period_us(2_000_000), 0);
}
