//! Cartridge mapper layer: the polymorphic cartridge-hardware abstraction.
//!
//! Every cartridge board is one variant of the closed [`Mapper`] enum and
//! answers the same capability surface: map a processor-side or
//! picture-unit-side address to a storage pool and index (or a literal
//! byte), report its mirroring mode and region, reset, and observe
//! picture-unit-bus writes (used by boards whose interrupt timers snoop
//! picture-unit address activity).  The variant is selected once, at
//! cartridge load, from the header's mapper number; its state mutates as the
//! console runs, its identity never does.

use vstd::prelude::*;
use crate::common::{NesRegion, ResetKind};

verus! {

/// Nametable mirroring mode of the cartridge.  The mode controls which of
/// the four logical nametables alias onto the two physical 1 KiB halves of
/// console video RAM; `FourScreen` bypasses the shared table entirely and
/// is resolved by the mapper itself.
#[derive(Debug, Copy, Clone, PartialEq, Eq, Structural, Hash)]
#[must_use]
pub enum Mirroring {
    Vertical,
    Horizontal,
    SingleScreenA,
    SingleScreenB,
    FourScreen,
}

impl Mirroring {
    /// The "mirror shift" the picture-unit bus derives from the mode: the
    /// address bit (counted from bit 10) that selects the physical half of
    /// the nametable RAM.
    pub open spec fn spec_shift(self) -> u32 {
        match self {
            Mirroring::Vertical => 0,
            Mirroring::Horizontal => 1,
            Mirroring::SingleScreenA => 2,
            Mirroring::SingleScreenB => 3,
            Mirroring::FourScreen => 4,
        }
    }

    /// The mirror shift used by the picture-unit bus address decode.
    #[verifier::when_used_as_spec(spec_shift)]
    pub fn shift(self) -> (r: u32)
        ensures
            r == self.spec_shift(),
    {
        match self {
            Mirroring::Vertical => 0,
            Mirroring::Horizontal => 1,
            Mirroring::SingleScreenA => 2,
            Mirroring::SingleScreenB => 3,
            Mirroring::FourScreen => 4,
        }
    }
}

impl Default for Mirroring {
    /// The default mode, used before any cartridge is loaded.
    fn default() -> (r: Self)
        ensures
            r == Mirroring::Horizontal,
    {
        Mirroring::Horizontal
    }
}

/// Outcome of mapping a read: every address maps to exactly one of these.
/// `PpuRam` routes to nametable RAM through the shared mirroring decode;
/// `CIRam`, `ExRam`, `Chr`, `PrgRom` and `PrgRam` route to a storage pool at
/// a mapper-chosen index; `Data` is a literal byte driven by the board;
/// `Bus` leaves the bus floating (open bus).
#[derive(Debug, Copy, Clone, PartialEq, Eq, Structural, Hash)]
#[must_use]
pub enum MappedRead {
    Bus,
    PpuRam,
    CIRam(usize),
    ExRam(usize),
    Data(u8),
    Chr(usize),
    PrgRom(usize),
    PrgRam(usize),
}

/// Outcome of mapping a write; the tagged variants carry the byte to store.
/// `Bus` means the write lands nowhere (for example a store into read-only
/// program memory).
#[derive(Debug, Copy, Clone, PartialEq, Eq, Structural, Hash)]
#[must_use]
pub enum MappedWrite {
    Bus,
    PpuRam,
    CIRam(usize, u8),
    ExRam(usize, u8),
    Chr(usize, u8),
    PrgRam(usize, u8),
    PrgRamProtect(bool),
}

/// The NROM family board: fixed program memory (16 KiB mirrored, or
/// 32 KiB), fixed pattern memory, optional battery-backed program RAM, and
/// header-selected mirroring.
#[derive(Debug, Clone, PartialEq, Eq)]
#[must_use]
pub struct Nrom {
    /// Bytes of program memory the board decodes; always `0x4000` or `0x8000`.
    pub prg_len: usize,
    /// Whether pattern memory is RAM (writable) rather than ROM.
    pub chr_ram: bool,
    pub mirroring: Mirroring,
    pub battery: bool,
    pub region: NesRegion,
}

impl Nrom {
    pub open spec fn wf(self) -> bool {
        self.prg_len == 0x4000 || self.prg_len == 0x8000
    }

    /// Build the board from its header-decoded facts.
    pub fn new(prg_len: usize, chr_ram: bool, mirroring: Mirroring, battery: bool) -> (r: Nrom)
        requires
            prg_len == 0x4000 || prg_len == 0x8000,
        ensures
            r.wf(),
            r.prg_len == prg_len,
            r.chr_ram == chr_ram,
            r.mirroring == mirroring,
            r.battery == battery,
            r.region == NesRegion::Ntsc,
    {
        Nrom { prg_len, chr_ram, mirroring, battery, region: NesRegion::Ntsc }
    }
}

/// The closed set of supported cartridge boards, plus the empty slot used
/// before any cartridge is loaded.  Dispatch is by exhaustive match, so
/// adding a board extends every capability in one place.
#[derive(Debug, Clone, PartialEq, Eq)]
#[must_use]
pub enum Mapper {
    /// No cartridge inserted: every mapped access floats.
    Empty,
    Nrom(Nrom),
}

impl Mapper {
    /// The empty cartridge slot.
    pub fn none() -> (r: Mapper)
        ensures
            r == Mapper::Empty,
    {
        Mapper::Empty
    }

    pub open spec fn wf(self) -> bool {
        match self {
            Mapper::Empty => true,
            Mapper::Nrom(nrom) => nrom.wf(),
        }
    }

    /// Whether a cartridge is inserted.
    pub open spec fn spec_is_loaded(self) -> bool {
        !(self is Empty)
    }

    pub fn is_loaded(&self) -> (r: bool)
        ensures
            r == self.spec_is_loaded(),
    {
        !matches!(self, Mapper::Empty)
    }

    /// Program-memory bytes the board decodes; 0 for the empty slot.
    pub open spec fn spec_prg_len(self) -> usize {
        match self {
            Mapper::Empty => 0,
            Mapper::Nrom(nrom) => nrom.prg_len,
        }
    }

    pub fn prg_len(&self) -> (r: usize)
        ensures
            r == self.spec_prg_len(),
    {
        match self {
            Mapper::Empty => 0,
            Mapper::Nrom(nrom) => nrom.prg_len,
        }
    }

    /// Whether the board's pattern memory is writable RAM.
    pub open spec fn spec_chr_ram(self) -> bool {
        match self {
            Mapper::Empty => false,
            Mapper::Nrom(nrom) => nrom.chr_ram,
        }
    }

    /// Whether the board carries battery-backed program RAM.
    pub open spec fn spec_battery_backed(self) -> bool {
        match self {
            Mapper::Empty => false,
            Mapper::Nrom(nrom) => nrom.battery,
        }
    }

    pub fn battery_backed(&self) -> (r: bool)
        ensures
            r == self.spec_battery_backed(),
    {
        match self {
            Mapper::Empty => false,
            Mapper::Nrom(nrom) => nrom.battery,
        }
    }

    /// Current mirroring mode reported by the board.
    pub open spec fn spec_mirroring(self) -> Mirroring {
        match self {
            Mapper::Empty => Mirroring::Horizontal,
            Mapper::Nrom(nrom) => nrom.mirroring,
        }
    }

    pub fn mirroring(&self) -> (r: Mirroring)
        ensures
            r == self.spec_mirroring(),
    {
        match self {
            Mapper::Empty => Mirroring::Horizontal,
            Mapper::Nrom(nrom) => nrom.mirroring,
        }
    }

    /// Where a read of `addr` routes.  Addresses below `0x2000` are
    /// picture-unit pattern space; `0x2000..=0x3EFF` is picture-unit
    /// nametable space; `0x4020` and up is processor-side cartridge space.
    pub open spec fn spec_map_read(self, addr: u16) -> MappedRead {
        match self {
            Mapper::Empty => if 0x2000 <= addr && addr <= 0x3EFF {
                MappedRead::PpuRam
            } else {
                MappedRead::Bus
            },
            Mapper::Nrom(nrom) => if addr < 0x2000 {
                MappedRead::Chr(addr as usize)
            } else if addr <= 0x3EFF {
                MappedRead::PpuRam
            } else if 0x6000 <= addr && addr <= 0x7FFF {
                MappedRead::PrgRam((addr & 0x1FFF) as usize)
            } else if 0x8000 <= addr {
                MappedRead::PrgRom(((addr - 0x8000) as usize) % nrom.prg_len as usize)
            } else {
                MappedRead::Bus
            },
        }
    }

    /// Route a read of `addr`; NROM-family boards have no read side effects,
    /// so this agrees with `map_peek`.
    pub fn map_read(&mut self, addr: u16) -> (r: MappedRead)
        requires
            old(self).wf(),
        ensures
            *final(self) == *old(self),
            r == old(self).spec_map_read(addr),
    {
        self.map_peek(addr)
    }

    /// Route a read of `addr` without committing any side effect.
    pub fn map_peek(&self, addr: u16) -> (r: MappedRead)
        requires
            self.wf(),
        ensures
            r == self.spec_map_read(addr),
    {
        match self {
            Mapper::Empty => if 0x2000 <= addr && addr <= 0x3EFF {
                MappedRead::PpuRam
            } else {
                MappedRead::Bus
            },
            Mapper::Nrom(nrom) => if addr < 0x2000 {
                MappedRead::Chr(addr as usize)
            } else if addr <= 0x3EFF {
                MappedRead::PpuRam
            } else if 0x6000 <= addr && addr <= 0x7FFF {
                MappedRead::PrgRam((addr & 0x1FFF) as usize)
            } else if 0x8000 <= addr {
                MappedRead::PrgRom(((addr - 0x8000) as usize) % nrom.prg_len)
            } else {
                MappedRead::Bus
            },
        }
    }

    /// Where a write of `val` to `addr` routes.
    pub open spec fn spec_map_write(self, addr: u16, val: u8) -> MappedWrite {
        match self {
            Mapper::Empty => if 0x2000 <= addr && addr <= 0x3EFF {
                MappedWrite::PpuRam
            } else {
                MappedWrite::Bus
            },
            Mapper::Nrom(nrom) => if addr < 0x2000 {
                if nrom.chr_ram {
                    MappedWrite::Chr(addr as usize, val)
                } else {
                    MappedWrite::Bus
                }
            } else if addr <= 0x3EFF {
                MappedWrite::PpuRam
            } else if 0x6000 <= addr && addr <= 0x7FFF {
                MappedWrite::PrgRam((addr & 0x1FFF) as usize, val)
            } else {
                MappedWrite::Bus
            },
        }
    }

    /// Route a write of `val` to `addr`.  The supported boards have no
    /// write-triggered bank registers, so the mapper state is unchanged.
    pub fn map_write(&mut self, addr: u16, val: u8) -> (r: MappedWrite)
        requires
            old(self).wf(),
        ensures
            *final(self) == *old(self),
            r == old(self).spec_map_write(addr, val),
    {
        match self {
            Mapper::Empty => if 0x2000 <= addr && addr <= 0x3EFF {
                MappedWrite::PpuRam
            } else {
                MappedWrite::Bus
            },
            Mapper::Nrom(nrom) => if addr < 0x2000 {
                if nrom.chr_ram {
                    MappedWrite::Chr(addr as usize, val)
                } else {
                    MappedWrite::Bus
                }
            } else if addr <= 0x3EFF {
                MappedWrite::PpuRam
            } else if 0x6000 <= addr && addr <= 0x7FFF {
                MappedWrite::PrgRam((addr & 0x1FFF) as usize, val)
            } else {
                MappedWrite::Bus
            },
        }
    }

    /// Observe a write on the picture-unit bus.  Boards whose interrupt
    /// timers count picture-unit address transitions react here; the
    /// supported boards do nothing.
    pub fn ppu_bus_write(&mut self, addr: u16, val: u8)
        ensures
            *final(self) == *old(self),
    {
        let _ = addr;
        let _ = val;
    }

    /// Region the board operates in.
    pub open spec fn spec_region(self) -> NesRegion {
        match self {
            Mapper::Empty => NesRegion::Ntsc,
            Mapper::Nrom(nrom) => nrom.region,
        }
    }

    pub fn region(&self) -> (r: NesRegion)
        ensures
            r == self.spec_region(),
    {
        match self {
            Mapper::Empty => NesRegion::Ntsc,
            Mapper::Nrom(nrom) => nrom.region,
        }
    }

    /// The board with its region switched to `region` and nothing else
    /// touched; the empty slot is region-agnostic and stays as it is.
    pub open spec fn spec_with_region(self, region: NesRegion) -> Mapper {
        match self {
            Mapper::Empty => Mapper::Empty,
            Mapper::Nrom(nrom) => Mapper::Nrom(Nrom { region, ..nrom }),
        }
    }

    /// Switch the board to `region`.  The empty slot is region-agnostic.
    pub fn set_region(&mut self, region: NesRegion)
        requires
            old(self).wf(),
        ensures
            final(self).wf(),
            *final(self) == old(self).spec_with_region(region),
            final(self).spec_map_read_unchanged(*old(self)),
            (*old(self)) is Nrom ==> final(self).spec_region() == region,
    {
        match self {
            Mapper::Empty => {},
            Mapper::Nrom(nrom) => {
                nrom.region = region;
            },
        }
    }

    /// The routing behaviour, mirroring mode and sizing of `self` agree
    /// with `other`; only incidental state (the region) may differ.
    pub open spec fn spec_map_read_unchanged(self, other: Mapper) -> bool {
        &&& forall|addr: u16| self.spec_map_read(addr) == other.spec_map_read(addr)
        &&& forall|addr: u16, val: u8|
            self.spec_map_write(addr, val) == other.spec_map_write(addr, val)
        &&& self.spec_mirroring() == other.spec_mirroring()
        &&& self.spec_prg_len() == other.spec_prg_len()
        &&& self.spec_chr_ram() == other.spec_chr_ram()
        &&& self.spec_battery_backed() == other.spec_battery_backed()
    }

    /// Reset the board.  A hard reset re-initializes bank registers to their
    /// power-on state; the supported boards have none, so both kinds leave
    /// the board as it is.
    pub fn reset(&mut self, kind: ResetKind)
        ensures
            *final(self) == *old(self),
    {
        let _ = kind;
    }

    /// Override the board's hardware revision at run time, without
    /// re-selecting the base variant.  Boards with several historical
    /// revisions adjust their counter semantics here; the supported
    /// boards have a single revision and ignore the override.
    pub fn set_revision(&mut self, revision: MapperRevision)
        ensures
            *final(self) == *old(self),
    {
        let _ = revision;
    }
}

/// Hardware revision of the scanline-counting board family: the original
/// revision, the common B/C revision, and the accumulator variant.
#[derive(Debug, Copy, Clone, PartialEq, Eq, Structural, Hash)]
#[must_use]
pub enum Mmc3Revision {
    A,
    BC,
    Acc,
}

/// A runtime revision override for a board family.
#[derive(Debug, Copy, Clone, PartialEq, Eq, Structural, Hash)]
#[must_use]
pub enum MapperRevision {
    Mmc3(Mmc3Revision),
}

} // verus!
