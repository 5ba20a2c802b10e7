//! Servo timing.

use vstd::prelude::*;

verus! {

/// The PWM period, in whole microseconds, of a servo driven at `servo_freq_hz`.
pub fn servo_period_us(servo_freq_hz: u32) -> (period: u32)
    requires
        servo_freq_hz > 0,
    ensures
        period == 1_000_000u32 / servo_freq_hz,
{
    1_000_000 / servo_freq_hz
}

} // verus!
