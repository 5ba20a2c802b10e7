//! Plain data shared between the board and the actuators.

use vstd::prelude::*;

verus! {

/// Four PWM outputs of a board.
pub struct PwmChannels<P> {
    pub pwm1: P,
    pub pwm2: P,
    pub pwm3: P,
    pub pwm4: P,
}

} // verus!
