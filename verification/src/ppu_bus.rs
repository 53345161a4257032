//! Picture-unit bus: nametable RAM, palette RAM, pattern memory, and the
//! address decode that ties them to the cartridge mapper.
//!
//! The decode is total: every 16-bit address yields exactly one outcome —
//! a storage cell chosen by range and mirroring, a mapper-driven literal,
//! or the open-bus latch (the last value driven on the bus), which stands in
//! for floating address space.  Nothing here fails.

use vstd::prelude::*;
use vstd::pervasive::VecAdditionalExecFns;
use crate::common::{NesRegion, ResetKind};
use crate::mapper::{MappedRead, MappedWrite, Mapper, Mirroring};

verus! {

/// Classification helpers on picture-unit addresses.
pub trait PpuAddr {
    /// Whether this address fetches a nametable attribute byte.
    fn is_attr(&self) -> bool;

    /// Whether this address lies in palette RAM space.
    fn is_palette(&self) -> bool;
}

impl PpuAddr for u16 {
    /// The last 64 bytes of each 1 KiB nametable hold its attribute table.
    fn is_attr(&self) -> (r: bool)
        ensures
            r == ((*self & 0x03FF) >= 0x03C0),
    {
        (*self & 0x03FF) >= 0x03C0
    }

    /// Palette RAM occupies `0x3F00` and above in picture-unit space.
    fn is_palette(&self) -> (r: bool)
        ensures
            r == (*self >= 0x3F00),
    {
        *self >= 0x3F00
    }
}

/// Physical nametable-RAM index that address `addr` reaches under mirror
/// shift `shift`: bit `shift + 10` of the address selects the physical
/// 1 KiB half, and the low 10 bits give the offset inside it.
pub open spec fn spec_ciram_index(shift: u32, addr: usize) -> usize {
    (((addr >> (shift + 10)) & 1) * 0x400 + (addr & 0x03FF)) as usize
}

/// Palette-RAM cell that address `addr` reaches: the low 5 bits, with the
/// four sprite-side mirrors (`0x10`, `0x14`, `0x18`, `0x1C`) folded onto
/// the background cells 16 bytes below them.
pub open spec fn spec_palette_index(addr: usize) -> usize {
    let i = addr & 0x001F;
    if i == 0x10 || i == 0x14 || i == 0x18 || i == 0x1C {
        (i - 0x10) as usize
    } else {
        i as usize
    }
}

/// The picture-unit-local bus.  It owns the console's 2 KiB nametable RAM,
/// the 32-byte palette RAM, the cartridge pattern memory, the optional
/// extra RAM of boards that carry it, and the single cartridge mapper
/// shared with the processor-side bus.
#[derive(Debug, Clone, PartialEq, Eq)]
#[must_use]
pub struct PpuBus {
    pub mapper: Mapper,
    pub ciram: Vec<u8>,
    pub palette: Vec<u8>,
    pub chr: Vec<u8>,
    pub exram: Vec<u8>,
    pub mirror_shift: u32,
    pub open_bus: u8,
}

impl PpuBus {
    /// Nametable RAM size: two physical 1 KiB tables.
    pub open spec fn spec_vram_size() -> usize {
        0x0800
    }

    /// Palette RAM size: 32 colour cells.
    pub open spec fn spec_palette_size() -> usize {
        32
    }

    /// Structural invariant: the fixed tables have their hardware sizes and
    /// the mirror shift is one derived from a mirroring mode.
    pub open spec fn wf(self) -> bool {
        &&& self.mapper.wf()
        &&& self.ciram@.len() == Self::spec_vram_size()
        &&& self.palette@.len() == Self::spec_palette_size()
        &&& self.mirror_shift <= 4
    }

    /// A bus with no cartridge: zeroed tables, empty pattern memory.
    pub fn new() -> (r: PpuBus)
        ensures
            r.wf(),
            r.mapper == Mapper::Empty,
            r.ciram@ == Seq::new(0x0800nat, |i: int| 0u8),
            r.palette@ == Seq::new(32nat, |i: int| 0u8),
            r.chr@.len() == 0,
            r.exram@.len() == 0,
            r.mirror_shift == Mirroring::Horizontal.spec_shift(),
            r.open_bus == 0,
    {
        PpuBus {
            mapper: Mapper::none(),
            ciram: vec![0u8; 0x0800],
            palette: vec![0u8; 32],
            chr: Vec::new(),
            exram: Vec::new(),
            mirror_shift: Mirroring::Horizontal.shift(),
            open_bus: 0x00,
        }
    }

    /// Mirroring mode currently reported by the mapper.
    pub fn mirroring(&self) -> (r: Mirroring)
        ensures
            r == self.mapper.spec_mirroring(),
    {
        self.mapper.mirroring()
    }

    /// Re-derive the cached mirror shift from the mapper's current mode.
    /// Boards that switch mirroring at run time call this after every
    /// register write that can change the mode.
    pub fn update_mirroring(&mut self)
        requires
            old(self).wf(),
        ensures
            final(self).wf(),
            final(self).mirror_shift == old(self).mapper.spec_mirroring().spec_shift(),
            final(self).unchanged_but_mirror_shift(*old(self)),
    {
        self.mirror_shift = self.mapper.mirroring().shift();
    }

    /// Install pattern memory from a freshly loaded cartridge.
    pub fn load_chr(&mut self, chr: Vec<u8>)
        requires
            old(self).wf(),
        ensures
            final(self).wf(),
            final(self).chr@ == chr@,
            final(self).mapper == old(self).mapper,
            final(self).ciram@ == old(self).ciram@,
            final(self).palette@ == old(self).palette@,
            final(self).exram@ == old(self).exram@,
            final(self).mirror_shift == old(self).mirror_shift,
            final(self).open_bus == old(self).open_bus,
    {
        self.chr = chr;
    }

    /// Install extra RAM for boards that carry it.
    pub fn load_ex_ram(&mut self, ex_ram: Vec<u8>)
        requires
            old(self).wf(),
        ensures
            final(self).wf(),
            final(self).exram@ == ex_ram@,
            final(self).mapper == old(self).mapper,
            final(self).ciram@ == old(self).ciram@,
            final(self).palette@ == old(self).palette@,
            final(self).chr@ == old(self).chr@,
            final(self).mirror_shift == old(self).mirror_shift,
            final(self).open_bus == old(self).open_bus,
    {
        self.exram = ex_ram;
    }

    /// Map `addr` to its physical nametable-RAM index under the current
    /// mirror shift.
    ///
    /// The decode takes the address's nametable-select bits, shifts them
    /// right by the mirror shift, masks to the table-half indicator bit,
    /// and combines it with the low 10 offset bits.  The result always
    /// addresses one of the two physical 1 KiB halves.
    pub fn ciram_mirror(&self, addr: usize) -> (r: usize)
        requires
            self.wf(),
        ensures
            r == spec_ciram_index(self.mirror_shift, addr),
            r < 0x0800,
    {
        let nametable = (addr >> self.mirror_shift) & (0x0400usize);
        let r = nametable | (!nametable & addr & 0x03FF);
        proof {
            let shift = self.mirror_shift;
            assert(shift <= 4 ==> (addr >> shift) & 0x0400usize == ((addr >> (shift + 10)) & 1)
                * 0x400) by (bit_vector);
            assert(((addr >> shift) & 0x0400usize) | (!((addr >> shift) & 0x0400usize) & addr
                & 0x03FF) == ((addr >> shift) & 0x0400usize) + (addr & 0x03FF)) by (bit_vector);
            assert(addr & 0x03FF < 0x400) by (bit_vector);
            assert(((addr >> (shift + 10)) & 1) <= 1) by (bit_vector);
        }
        r
    }

    /// Map `addr` to its palette-RAM cell: low 5 bits, with the four
    /// sprite-side mirror cells folded onto their background cells.
    pub fn palette_mirror(&self, addr: usize) -> (r: usize)
        ensures
            r == spec_palette_index(addr),
            r < 32,
    {
        let i = addr & 0x001F;
        proof {
            assert(addr & 0x001F < 32) by (bit_vector);
        }
        if i == 0x10 || i == 0x14 || i == 0x18 || i == 0x1C {
            i - 0x10
        } else {
            i
        }
    }

    /// The byte a read of `addr` observes, as a function of the current
    /// bus state.  This is the single source of truth for both `read` and
    /// `peek`.
    pub open spec fn spec_peek(self, addr: u16) -> u8 {
        if 0x2000 <= addr && addr <= 0x3EFF {
            match self.mapper.spec_map_read(addr) {
                MappedRead::PpuRam => self.ciram@[spec_ciram_index(
                    self.mirror_shift,
                    addr as usize,
                ) as int],
                MappedRead::CIRam(i) => self.ciram@[(i & 0x07FF) as int],
                MappedRead::ExRam(i) => if i < self.exram@.len() {
                    self.exram@[i as int]
                } else {
                    self.open_bus
                },
                MappedRead::Data(d) => d,
                _ => self.open_bus,
            }
        } else if addr < 0x2000 {
            let i = match self.mapper.spec_map_read(addr) {
                MappedRead::Chr(m) => m,
                _ => addr as usize,
            };
            if i < self.chr@.len() {
                self.chr@[i as int]
            } else {
                self.open_bus
            }
        } else if 0x3F00 <= addr && addr <= 0x3FFF {
            self.palette@[spec_palette_index(addr as usize) as int]
        } else {
            self.open_bus
        }
    }

    /// Nametable RAM contents after a write of `val` to `addr`.
    pub open spec fn spec_ciram_after_write(self, addr: u16, val: u8) -> Seq<u8> {
        if 0x2000 <= addr && addr <= 0x3EFF {
            match self.mapper.spec_map_write(addr, val) {
                MappedWrite::PpuRam => self.ciram@.update(
                    spec_ciram_index(self.mirror_shift, addr as usize) as int,
                    val,
                ),
                MappedWrite::CIRam(i, v) => self.ciram@.update((i & 0x07FF) as int, v),
                _ => self.ciram@,
            }
        } else {
            self.ciram@
        }
    }

    /// Palette RAM contents after a write of `val` to `addr`.
    pub open spec fn spec_palette_after_write(self, addr: u16, val: u8) -> Seq<u8> {
        if 0x3F00 <= addr && addr <= 0x3FFF {
            self.palette@.update(spec_palette_index(addr as usize) as int, val)
        } else {
            self.palette@
        }
    }

    /// Pattern memory contents after a write of `val` to `addr`: only
    /// boards with pattern RAM accept the store, and only in bounds.
    pub open spec fn spec_chr_after_write(self, addr: u16, val: u8) -> Seq<u8> {
        if addr < 0x2000 {
            match self.mapper.spec_map_write(addr, val) {
                MappedWrite::Chr(i, v) => if i < self.chr@.len() {
                    self.chr@.update(i as int, v)
                } else {
                    self.chr@
                },
                _ => self.chr@,
            }
        } else {
            self.chr@
        }
    }

    /// Extra RAM contents after a write of `val` to `addr`.
    pub open spec fn spec_exram_after_write(self, addr: u16, val: u8) -> Seq<u8> {
        if 0x2000 <= addr && addr <= 0x3EFF {
            match self.mapper.spec_map_write(addr, val) {
                MappedWrite::ExRam(i, v) => if i < self.exram@.len() {
                    self.exram@.update(i as int, v)
                } else {
                    self.exram@
                },
                _ => self.exram@,
            }
        } else {
            self.exram@
        }
    }

    /// Everything except the mirror shift agrees with `other`.
    pub open spec fn unchanged_but_mirror_shift(self, other: PpuBus) -> bool {
        &&& self.mapper == other.mapper
        &&& self.ciram@ == other.ciram@
        &&& self.palette@ == other.palette@
        &&& self.chr@ == other.chr@
        &&& self.exram@ == other.exram@
        &&& self.open_bus == other.open_bus
    }

    /// All storage pools, the mapper and the mirror shift agree with
    /// `other`; only the open-bus latch may differ.
    pub open spec fn unchanged_but_open_bus(self, other: PpuBus) -> bool {
        &&& self.mapper == other.mapper
        &&& self.ciram@ == other.ciram@
        &&& self.palette@ == other.palette@
        &&& self.chr@ == other.chr@
        &&& self.exram@ == other.exram@
        &&& self.mirror_shift == other.mirror_shift
    }

    /// Read the byte at `addr` and latch it on the bus.
    pub fn read(&mut self, addr: u16) -> (r: u8)
        requires
            old(self).wf(),
        ensures
            final(self).wf(),
            r == old(self).spec_peek(addr),
            final(self).unchanged_but_open_bus(*old(self)),
            final(self).open_bus == r,
    {
        let val = self.peek(addr);
        self.open_bus = val;
        val
    }

    /// Read the byte at `addr` without committing any side effect: the
    /// open-bus latch is left as it is.
    pub fn peek(&self, addr: u16) -> (r: u8)
        requires
            self.wf(),
        ensures
            r == self.spec_peek(addr),
    {
        if 0x2000 <= addr && addr <= 0x3EFF {
            match self.mapper.map_peek(addr) {
                MappedRead::PpuRam => {
                    let idx = self.ciram_mirror(addr as usize);
                    self.ciram[idx]
                },
                MappedRead::CIRam(i) => self.ciram[i & 0x07FF],
                MappedRead::ExRam(i) => {
                    if i < self.exram.len() {
                        self.exram[i]
                    } else {
                        self.open_bus
                    }
                },
                MappedRead::Data(d) => d,
                _ => self.open_bus,
            }
        } else if addr < 0x2000 {
            let i = match self.mapper.map_peek(addr) {
                MappedRead::Chr(m) => m,
                _ => addr as usize,
            };
            if i < self.chr.len() {
                self.chr[i]
            } else {
                self.open_bus
            }
        } else if 0x3F00 <= addr && addr <= 0x3FFF {
            let idx = self.palette_mirror(addr as usize);
            self.palette[idx]
        } else {
            self.open_bus
        }
    }

    /// Write `val` to `addr`: route through the mapper, store into the
    /// selected pool, notify the mapper of the picture-unit-bus activity,
    /// and latch the value on the bus.
    pub fn write(&mut self, addr: u16, val: u8)
        requires
            old(self).wf(),
        ensures
            final(self).wf(),
            final(self).mapper == old(self).mapper,
            final(self).mirror_shift == old(self).mirror_shift,
            final(self).ciram@ == old(self).spec_ciram_after_write(addr, val),
            final(self).palette@ == old(self).spec_palette_after_write(addr, val),
            final(self).chr@ == old(self).spec_chr_after_write(addr, val),
            final(self).exram@ == old(self).spec_exram_after_write(addr, val),
            final(self).open_bus == val,
    {
        if 0x2000 <= addr && addr <= 0x3EFF {
            match self.mapper.map_write(addr, val) {
                MappedWrite::PpuRam => {
                    let idx = self.ciram_mirror(addr as usize);
                    self.ciram.set(idx, val);
                },
                MappedWrite::CIRam(i, v) => {
                    self.ciram.set(i & 0x07FF, v);
                },
                MappedWrite::ExRam(i, v) => {
                    if i < self.exram.len() {
                        self.exram.set(i, v);
                    }
                },
                _ => {},
            }
        } else if addr < 0x2000 {
            if let MappedWrite::Chr(i, v) = self.mapper.map_write(addr, val) {
                if i < self.chr.len() {
                    self.chr.set(i, v);
                }
            }
        } else if 0x3F00 <= addr && addr <= 0x3FFF {
            let idx = self.palette_mirror(addr as usize);
            self.palette.set(idx, val);
        }
        self.mapper.ppu_bus_write(addr, val);
        self.open_bus = val;
    }

    /// Region the cartridge operates in.
    pub fn region(&self) -> (r: NesRegion)
        ensures
            r == self.mapper.spec_region(),
    {
        self.mapper.region()
    }

    /// Switch the cartridge to `region`: exactly the mapper's region
    /// moves, nothing else.
    pub fn set_region(&mut self, region: NesRegion)
        requires
            old(self).wf(),
        ensures
            final(self).wf(),
            *final(self) == (PpuBus {
                mapper: old(self).mapper.spec_with_region(region),
                ..*old(self)
            }),
            final(self).mapper.spec_map_read_unchanged(old(self).mapper),
            old(self).mapper is Nrom ==> final(self).mapper.spec_region() == region,
    {
        self.mapper.set_region(region);
    }

    /// Reset the bus: clear the open-bus latch and reset the mapper.
    pub fn reset(&mut self, kind: ResetKind)
        requires
            old(self).wf(),
        ensures
            final(self).wf(),
            final(self).open_bus == 0,
            final(self).mapper == old(self).mapper,
            final(self).ciram@ == old(self).ciram@,
            final(self).palette@ == old(self).palette@,
            final(self).chr@ == old(self).chr@,
            final(self).exram@ == old(self).exram@,
            final(self).mirror_shift == old(self).mirror_shift,
    {
        self.open_bus = 0x00;
        self.mapper.reset(kind);
    }
}

/// Nametable mirroring is self-consistent: under any mirror shift, two
/// nametable addresses that select the same physical half and the same
/// offset map to the same nametable-RAM cell — and only those do.  The
/// physical half is bit `shift + 10` of the address; the offset is its low
/// 10 bits.
pub proof fn lemma_ciram_index_characterized(shift: u32, a1: usize, a2: usize)
    requires
        shift <= 3,
    ensures
        spec_ciram_index(shift, a1) == spec_ciram_index(shift, a2) <==> ((a1 >> (shift + 10)) & 1
            == (a2 >> (shift + 10)) & 1 && a1 & 0x03FF == a2 & 0x03FF),
{
    assert((((a1 >> (shift + 10)) & 1) * 0x400 + (a1 & 0x03FF)) as usize == (((a2 >> (shift + 10))
        & 1) * 0x400 + (a2 & 0x03FF)) as usize <==> ((a1 >> (shift + 10)) & 1 == (a2 >> (shift
        + 10)) & 1 && a1 & 0x03FF == a2 & 0x03FF)) by (bit_vector)
        requires
            shift <= 3,
    ;
}

/// A byte written through one nametable address is read back through every
/// address that shares its physical half and offset: writing `val` through
/// `wa` and then peeking `ra` observes `val` whenever both addresses route
/// to nametable RAM and mirror to the same cell.
pub proof fn lemma_mirrored_write_read(pre: PpuBus, post: PpuBus, wa: u16, ra: u16, val: u8)
    requires
        pre.wf(),
        0x2000 <= wa <= 0x3EFF,
        0x2000 <= ra <= 0x3EFF,
        pre.mapper.spec_map_write(wa, val) is PpuRam,
        pre.mapper.spec_map_read(ra) is PpuRam,
        spec_ciram_index(pre.mirror_shift, wa as usize) == spec_ciram_index(
            pre.mirror_shift,
            ra as usize,
        ),
        // the state `post` is what `write` leaves behind
        post.mapper == pre.mapper,
        post.mirror_shift == pre.mirror_shift,
        post.ciram@ == pre.spec_ciram_after_write(wa, val),
    ensures
        post.spec_peek(ra) == val,
{
    let shift = pre.mirror_shift;
    assert(shift <= 4 ==> (((wa as usize) >> (shift + 10)) & 1) * 0x400 + ((wa as usize) & 0x03FF)
        < 0x800) by (bit_vector);
}

/// Under horizontal mirroring (mirror shift 1) the first two logical
/// nametables alias — `0x2000` and `0x2400` reach the same cell — while
/// `0x2000` and `0x2800` lie in different physical halves.
pub proof fn lemma_horizontal_nametable_aliases()
    ensures
        spec_ciram_index(Mirroring::Horizontal.spec_shift(), 0x2000) == spec_ciram_index(
            Mirroring::Horizontal.spec_shift(),
            0x2400,
        ),
        spec_ciram_index(Mirroring::Horizontal.spec_shift(), 0x2000) != spec_ciram_index(
            Mirroring::Horizontal.spec_shift(),
            0x2800,
        ),
{
    assert(((0x2000usize >> 11) & 1) * 0x400 + (0x2000usize & 0x03FF) == 0) by (bit_vector);
    assert(((0x2400usize >> 11) & 1) * 0x400 + (0x2400usize & 0x03FF) == 0) by (bit_vector);
    assert(((0x2800usize >> 11) & 1) * 0x400 + (0x2800usize & 0x03FF) == 0x400) by (bit_vector);
}

/// Palette aliasing: two palette-space addresses reach the same colour
/// cell exactly when their low five bits agree after folding the four
/// sprite-side mirror cells onto their background cells.  In particular
/// every address congruent to another modulo 32 aliases it.
pub proof fn lemma_palette_index_mod32(a1: usize, a2: usize)
    requires
        a1 & 0x001F == a2 & 0x001F,
    ensures
        spec_palette_index(a1) == spec_palette_index(a2),
{
}

/// The four sprite-side palette cells alias their background cells: any
/// palette address whose low five bits are `0x10`, `0x14`, `0x18` or
/// `0x1C` reaches the cell 16 bytes below it.
pub proof fn lemma_palette_alias_pairs(a: usize)
    requires
        a >= 0x10,
        a & 0x001F == 0x10 || a & 0x001F == 0x14 || a & 0x001F == 0x18 || a & 0x001F == 0x1C,
    ensures
        spec_palette_index(a) == spec_palette_index((a - 0x10) as usize),
{
    let b = (a - 0x10) as usize;
    assert(a >= 0x10 && (a & 0x001F == 0x10 || a & 0x001F == 0x14 || a & 0x001F == 0x18 || a
        & 0x001F == 0x1C) ==> ((a - 0x10) as usize) & 0x001F == (a & 0x001F) - 0x10) by (bit_vector);
}

/// A byte written through one palette address is read back through every
/// palette address that aliases it: writing `val` through `wa` and then
/// peeking `ra` observes `val` whenever both addresses lie in palette
/// space and fold to the same cell.
pub proof fn lemma_palette_write_read(pre: PpuBus, post: PpuBus, wa: u16, ra: u16, val: u8)
    requires
        pre.wf(),
        0x3F00 <= wa <= 0x3FFF,
        0x3F00 <= ra <= 0x3FFF,
        spec_palette_index(wa as usize) == spec_palette_index(ra as usize),
        post.mapper == pre.mapper,
        post.palette@ == pre.spec_palette_after_write(wa, val),
    ensures
        post.spec_peek(ra) == val,
{
    assert((wa as usize) & 0x001F < 32) by (bit_vector);
    assert((ra as usize) & 0x001F < 32) by (bit_vector);
}

} // verus!
