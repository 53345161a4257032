//! Audio-synthesis unit, at its timing and control boundary.
//!
//! The detailed channel synthesis is out of this core's scope; what the
//! control deck needs from the unit is the per-channel enable switches it
//! exposes to the caller.  Sample generation itself lives with the shell.

use vstd::prelude::*;

verus! {

/// One of the audio unit's channels.
#[derive(Debug, Copy, Clone, PartialEq, Eq, Structural, Hash)]
#[must_use]
pub enum Channel {
    Pulse1,
    Pulse2,
    Triangle,
    Noise,
    Dmc,
}

/// Control state of the audio unit: which channels the caller has enabled.
#[derive(Debug, Copy, Clone, PartialEq, Eq, Structural, Hash)]
#[must_use]
pub struct Apu {
    pub pulse1_enabled: bool,
    pub pulse2_enabled: bool,
    pub triangle_enabled: bool,
    pub noise_enabled: bool,
    pub dmc_enabled: bool,
}

impl Apu {
    /// A unit with every channel audible.
    pub fn new() -> (r: Apu)
        ensures
            forall|c: Channel| r.spec_channel_enabled(c),
    {
        Apu {
            pulse1_enabled: true,
            pulse2_enabled: true,
            triangle_enabled: true,
            noise_enabled: true,
            dmc_enabled: true,
        }
    }

    /// Whether `channel` is currently audible.
    pub open spec fn spec_channel_enabled(self, channel: Channel) -> bool {
        match channel {
            Channel::Pulse1 => self.pulse1_enabled,
            Channel::Pulse2 => self.pulse2_enabled,
            Channel::Triangle => self.triangle_enabled,
            Channel::Noise => self.noise_enabled,
            Channel::Dmc => self.dmc_enabled,
        }
    }

    /// Whether `channel` is currently audible.
    pub fn channel_enabled(&self, channel: Channel) -> (r: bool)
        ensures
            r == self.spec_channel_enabled(channel),
    {
        match channel {
            Channel::Pulse1 => self.pulse1_enabled,
            Channel::Pulse2 => self.pulse2_enabled,
            Channel::Triangle => self.triangle_enabled,
            Channel::Noise => self.noise_enabled,
            Channel::Dmc => self.dmc_enabled,
        }
    }

    /// Flip the audibility of `channel`, leaving the other channels as
    /// they are.
    pub fn toggle_channel(&mut self, channel: Channel)
        ensures
            final(self).spec_channel_enabled(channel) == !old(self).spec_channel_enabled(channel),
            forall|c: Channel|
                c != channel ==> final(self).spec_channel_enabled(c) == old(
                    self,
                ).spec_channel_enabled(c),
    {
        match channel {
            Channel::Pulse1 => self.pulse1_enabled = !self.pulse1_enabled,
            Channel::Pulse2 => self.pulse2_enabled = !self.pulse2_enabled,
            Channel::Triangle => self.triangle_enabled = !self.triangle_enabled,
            Channel::Noise => self.noise_enabled = !self.noise_enabled,
            Channel::Dmc => self.dmc_enabled = !self.dmc_enabled,
        }
    }
}

} // verus!
