//! Console-wide value types: timing regions, reset kinds, RAM power-on
//! policies, and the capability traits shared by the clocked components.

use vstd::prelude::*;

verus! {

/// Broadcast/timing standard of the emulated console.  The region fixes the
/// processor clock rate and the number of scanlines the picture unit produces
/// per frame.  Exactly one region is active at a time; the default is NTSC.
#[derive(Debug, Copy, Clone, PartialEq, Eq, Structural, Hash)]
#[must_use]
pub enum NesRegion {
    Ntsc,
    Pal,
    Dendy,
}

impl NesRegion {
    /// All supported regions, in a fixed order.
    pub fn as_slice() -> (r: Vec<NesRegion>)
        ensures
            r@ == seq![NesRegion::Ntsc, NesRegion::Pal, NesRegion::Dendy],
    {
        let mut v: Vec<NesRegion> = Vec::new();
        v.push(NesRegion::Ntsc);
        v.push(NesRegion::Pal);
        v.push(NesRegion::Dendy);
        proof {
            assert(v@ =~= seq![NesRegion::Ntsc, NesRegion::Pal, NesRegion::Dendy]);
        }
        v
    }

    /// Processor clock rate of the region, in whole cycles per second.
    pub open spec fn spec_clock_rate_hz(self) -> u32 {
        match self {
            NesRegion::Ntsc => 1_789_773,
            NesRegion::Pal => 1_662_607,
            NesRegion::Dendy => 1_773_448,
        }
    }

    /// Processor clock rate in cycles per second (Hz), rounded to a whole
    /// number of cycles.
    #[verifier::when_used_as_spec(spec_clock_rate_hz)]
    pub fn clock_rate_hz(self) -> (r: u32)
        ensures
            r == self.spec_clock_rate_hz(),
    {
        match self {
            NesRegion::Ntsc => 1_789_773,
            NesRegion::Pal => 1_662_607,
            NesRegion::Dendy => 1_773_448,
        }
    }

    /// Scanlines the picture unit produces per frame in this region.
    pub open spec fn spec_scanlines_per_frame(self) -> u32 {
        match self {
            NesRegion::Ntsc => 262,
            NesRegion::Pal => 312,
            NesRegion::Dendy => 312,
        }
    }

    /// Scanlines per frame (including the vertical blanking interval).
    #[verifier::when_used_as_spec(spec_scanlines_per_frame)]
    pub fn scanlines_per_frame(self) -> (r: u32)
        ensures
            r == self.spec_scanlines_per_frame(),
    {
        match self {
            NesRegion::Ntsc => 262,
            NesRegion::Pal => 312,
            NesRegion::Dendy => 312,
        }
    }
}

impl NesRegion {
    /// The region's display name.
    pub open spec fn spec_name(self) -> Seq<char> {
        match self {
            NesRegion::Ntsc => seq!['N', 'T', 'S', 'C'],
            NesRegion::Pal => seq!['P', 'A', 'L'],
            NesRegion::Dendy => seq!['D', 'e', 'n', 'd', 'y'],
        }
    }

    /// The region's display name.
    pub fn name(&self) -> (r: String)
        ensures
            r@ == self.spec_name(),
    {
        proof {
            reveal_strlit("NTSC");
            reveal_strlit("PAL");
            reveal_strlit("Dendy");
            assert("NTSC"@ =~= NesRegion::Ntsc.spec_name());
            assert("PAL"@ =~= NesRegion::Pal.spec_name());
            assert("Dendy"@ =~= NesRegion::Dendy.spec_name());
        }
        match self {
            NesRegion::Ntsc => String::from_str("NTSC"),
            NesRegion::Pal => String::from_str("PAL"),
            NesRegion::Dendy => String::from_str("Dendy"),
        }
    }

    /// The region a display name denotes, if any.
    pub open spec fn spec_from_name(s: Seq<char>) -> Option<NesRegion> {
        if s == NesRegion::Ntsc.spec_name() {
            Some(NesRegion::Ntsc)
        } else if s == NesRegion::Pal.spec_name() {
            Some(NesRegion::Pal)
        } else if s == NesRegion::Dendy.spec_name() {
            Some(NesRegion::Dendy)
        } else {
            None
        }
    }

    /// Parse a region from its display name; names outside the three
    /// regions are rejected.
    pub fn from_name(value: &str) -> (r: Option<NesRegion>)
        ensures
            r == Self::spec_from_name(value@),
    {
        let n = value.unicode_len();
        if n == 4 && value.get_char(0) == 'N' && value.get_char(1) == 'T' && value.get_char(2)
            == 'S' && value.get_char(3) == 'C' {
            proof {
                assert(value@ =~= NesRegion::Ntsc.spec_name());
            }
            Some(NesRegion::Ntsc)
        } else if n == 3 && value.get_char(0) == 'P' && value.get_char(1) == 'A' && value.get_char(
            2,
        ) == 'L' {
            proof {
                assert(value@ =~= NesRegion::Pal.spec_name());
            }
            Some(NesRegion::Pal)
        } else if n == 5 && value.get_char(0) == 'D' && value.get_char(1) == 'e' && value.get_char(
            2,
        ) == 'n' && value.get_char(3) == 'd' && value.get_char(4) == 'y' {
            proof {
                assert(value@ =~= NesRegion::Dendy.spec_name());
            }
            Some(NesRegion::Dendy)
        } else {
            None
        }
    }

    /// The region a header or configuration index selects: 1 is PAL, 2 is
    /// Dendy, and everything else falls back to NTSC.
    pub fn from_index(value: usize) -> (r: NesRegion)
        ensures
            r == (if value == 1 {
                NesRegion::Pal
            } else if value == 2 {
                NesRegion::Dendy
            } else {
                NesRegion::Ntsc
            }),
    {
        match value {
            1 => NesRegion::Pal,
            2 => NesRegion::Dendy,
            _ => NesRegion::Ntsc,
        }
    }
}

/// Region names round-trip: parsing a region's own display name yields
/// that region back, for every region.
pub proof fn lemma_region_name_round_trip(region: NesRegion)
    ensures
        NesRegion::spec_from_name(region.spec_name()) == Some(region),
{
}

impl Default for NesRegion {
    /// The default region is NTSC.
    fn default() -> (r: Self)
        ensures
            r == NesRegion::Ntsc,
    {
        NesRegion::Ntsc
    }
}

/// Kind of console reset.  A hard reset re-initializes all power-on state
/// (RAM contents, bank registers); a soft reset only restarts execution.
#[derive(Debug, Copy, Clone, PartialEq, Eq, Structural, Hash)]
#[must_use]
pub enum ResetKind {
    Soft,
    Hard,
}

/// RAM-initialization policy applied to work RAM at power-on and hard reset.
#[derive(Debug, Copy, Clone, PartialEq, Eq, Structural, Hash)]
#[must_use]
pub enum RamState {
    AllZeros,
    AllOnes,
    Random,
}

/// Capability of components that carry a timing region.
pub trait Regional {
    /// Structural invariant the component maintains across region changes.
    spec fn regional_inv(&self) -> bool;

    /// Region the component currently operates in.
    fn region(&self) -> NesRegion
        requires
            self.regional_inv(),
    ;

    /// Switch the component to `region`, effective immediately.
    fn set_region(&mut self, region: NesRegion)
        requires
            old(self).regional_inv(),
        ensures
            final(self).regional_inv(),
    ;
}

/// Capability of components that can be reset.
pub trait Reset {
    /// Structural invariant the component maintains across resets.
    spec fn reset_inv(&self) -> bool;

    /// Reset the component; `kind` selects a soft or a hard reset.
    fn reset(&mut self, kind: ResetKind)
        requires
            old(self).reset_inv(),
        ensures
            final(self).reset_inv(),
    ;
}

/// Capability of components driven by the master clock.
pub trait Clock {
    /// Structural invariant the component maintains as it is clocked.
    spec fn clock_inv(&self) -> bool;

    /// Advance the component by one step and report the elapsed cycles.
    fn clock(&mut self) -> (cycles: usize)
        requires
            old(self).clock_inv(),
        ensures
            final(self).clock_inv(),
    ;
}

} // verus!
