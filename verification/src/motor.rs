//! Motors driven by DShot packets over a channel that the board provides.

use vstd::prelude::*;

verus! {

/// A channel that transmits DShot packets to one motor.
pub trait MotorChannel {
    type Error;

    /// The last packet that this channel was asked to transmit, if any.
    spec fn last_packet(&self) -> Option<u16>;

    /// How many packets this channel has been asked to transmit (counting
    /// modulo 2^64).
    spec fn packets_sent(&self) -> u64;

    /// Hands one packet to the channel for transmission.
    fn set_throttle(&mut self, packet: u16) -> (r: Result<(), Self::Error>)
        ensures
            final(self).last_packet() == Some(packet),
            final(self).packets_sent() == (old(self).packets_sent() + 1) as u64,
    ;
}

/// One motor: its packet channel and its spin direction.
pub struct MotorController<M> {
    channel: M,
    pub cw: bool,
}

impl<M: MotorChannel> MotorController<M> {
    /// The channel that drives this motor.
    pub closed spec fn channel(&self) -> M {
        self.channel
    }

    /// Whether this motor spins clockwise.
    pub closed spec fn clockwise(&self) -> bool {
        self.cw
    }

    /// A motor on `channel` that spins clockwise when `cw` is set.
    pub fn new(channel: M, cw: bool) -> (m: Self)
        ensures
            m.channel() == channel,
            m.clockwise() == cw,
    {
        MotorController { channel, cw }
    }

    /// Sends a DShot packet to the motor, as the one packet handed to its
    /// channel; a failure of the channel is ignored.
    pub fn apply(&mut self, packet: u16)
        ensures
            final(self).channel().last_packet() == Some(packet),
            final(self).channel().packets_sent() == (old(self).channel().packets_sent() + 1) as u64,
            final(self).clockwise() == old(self).clockwise(),
    {
        let _ = self.channel.set_throttle(packet);
    }
}

/// The error of the board's PIO DShot channel.
pub enum PioDshotChannelError {
    Placeholder,
}

/// A DShot output on one PIO pin.
#[allow(non_camel_case_types)]
pub struct Dshot_pio {
    pin: u8,
}

} // verus!
