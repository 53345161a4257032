//! Picture-generation unit, at its timing and register boundary.
//!
//! The unit's detailed rendering pipeline is out of this core's scope; what
//! the scheduler consumes is its timing contract: 341 dots to a scanline,
//! a region-dependent number of scanlines to a frame, three dots for every
//! processor cycle, and a frame counter that advances exactly at the frame
//! boundary.  The unit also answers the processor's memory-mapped register
//! accesses, which drive its bus: the address latch, the data port with its
//! read buffer, and the control register's increment mode.

use vstd::prelude::*;
use crate::common::{NesRegion, ResetKind};
use crate::ppu_bus::PpuBus;

verus! {

/// Frame width in pixels.
pub const PPU_WIDTH: u32 = 256;

/// Frame height in pixels (visible scanlines).
pub const PPU_HEIGHT: u32 = 240;

/// Dots (pixel clocks) in one scanline.
pub const DOTS_PER_SCANLINE: u32 = 341;

/// The picture unit: its bus, the register file the processor reaches, and
/// the frame/scanline/dot position of its beam.
#[derive(Debug, Clone, PartialEq, Eq)]
#[must_use]
pub struct Ppu {
    pub bus: PpuBus,
    /// Control register (`0x2000`): bit 2 selects the data-port address
    /// increment (1 across, 32 down).
    pub ctrl: u8,
    /// Current video-memory address driven by the address latch, 15 bits.
    pub vram_addr: u16,
    /// High byte staged by the first of the two address-latch writes.
    pub addr_latch_hi: u8,
    /// Which half of the two-write address sequence comes next.
    pub write_toggle: bool,
    /// Buffered byte the data port returns for non-palette reads.
    pub read_buffer: u8,
    pub scanline: u32,
    pub dot: u32,
    pub frame: u32,
    pub region: NesRegion,
    /// Raw frame of palette indices handed to the video post-processor.
    pub frame_buffer: Vec<u8>,
}

impl Ppu {
    /// Structural invariant: the beam position lies inside the region's
    /// frame, the video address stays in its 15-bit space, and the frame
    /// buffer holds one byte per pixel.
    pub open spec fn wf(self) -> bool {
        &&& self.bus.wf()
        &&& self.dot < DOTS_PER_SCANLINE
        &&& self.scanline < self.region.spec_scanlines_per_frame()
        &&& self.vram_addr < 0x8000
        &&& self.addr_latch_hi <= 0x3F
        &&& self.frame_buffer@.len() == 61440
    }

    /// Dots in one full frame of this region.
    pub open spec fn spec_frame_dots(self) -> int {
        DOTS_PER_SCANLINE * self.region.spec_scanlines_per_frame()
    }

    /// Beam position inside the current frame, in dots.
    pub open spec fn spec_pos(self) -> int {
        self.scanline * DOTS_PER_SCANLINE + self.dot
    }

    /// Everything but the beam position agrees with `other`.
    pub open spec fn spec_timing_only_changed(self, other: Ppu) -> bool {
        &&& self.bus == other.bus
        &&& self.ctrl == other.ctrl
        &&& self.vram_addr == other.vram_addr
        &&& self.addr_latch_hi == other.addr_latch_hi
        &&& self.write_toggle == other.write_toggle
        &&& self.read_buffer == other.read_buffer
        &&& self.region == other.region
        &&& self.frame_buffer@ == other.frame_buffer@
    }

    /// Everything but the register file (and the bus it drives) agrees
    /// with `other`: the beam position, region and frame buffer are kept.
    pub open spec fn spec_registers_only_changed(self, other: Ppu) -> bool {
        &&& self.scanline == other.scanline
        &&& self.dot == other.dot
        &&& self.frame == other.frame
        &&& self.region == other.region
        &&& self.frame_buffer@ == other.frame_buffer@
    }

    /// A powered-on unit with no cartridge.
    pub fn new() -> (r: Ppu)
        ensures
            r.wf(),
            r.bus.mapper == crate::mapper::Mapper::Empty,
            r.bus.ciram@ == Seq::new(0x0800nat, |i: int| 0u8),
            r.bus.palette@ == Seq::new(32nat, |i: int| 0u8),
            r.bus.chr@.len() == 0,
            r.bus.open_bus == 0,
            r.frame_buffer@ == Seq::new(61440nat, |i: int| 0u8),
            r.frame == 0,
            r.scanline == 0,
            r.dot == 0,
            r.region == NesRegion::Ntsc,
            r.ctrl == 0,
            r.vram_addr == 0,
            r.write_toggle == false,
            r.read_buffer == 0,
    {
        Ppu {
            bus: PpuBus::new(),
            ctrl: 0,
            vram_addr: 0,
            addr_latch_hi: 0,
            write_toggle: false,
            read_buffer: 0,
            scanline: 0,
            dot: 0,
            frame: 0,
            region: NesRegion::Ntsc,
            frame_buffer: vec![0u8; 61440],
        }
    }

    /// Completed-frame counter.  It saturates at the largest 32-bit value
    /// instead of wrapping; reaching it would take years of wall-clock
    /// playback.
    pub fn frame_number(&self) -> (r: u32)
        ensures
            r == self.frame,
    {
        self.frame
    }

    /// Current scanline of the beam.
    pub fn scanline(&self) -> (r: u32)
        ensures
            r == self.scanline,
    {
        self.scanline
    }

    /// Advance the beam by `dots` dot clocks (at most one scanline's
    /// worth per call).  The new position is the old one advanced by
    /// `dots`, carrying into the frame counter exactly at the frame
    /// boundary; the frame counter saturates instead of overflowing.
    pub fn clock_dots(&mut self, dots: u32)
        requires
            old(self).wf(),
            dots <= DOTS_PER_SCANLINE,
        ensures
            final(self).wf(),
            final(self).spec_timing_only_changed(*old(self)),
            old(self).spec_pos() + dots < old(self).spec_frame_dots() ==> {
                &&& final(self).frame == old(self).frame
                &&& final(self).spec_pos() == old(self).spec_pos() + dots
            },
            old(self).spec_pos() + dots >= old(self).spec_frame_dots() ==> {
                &&& final(self).frame == if old(self).frame < u32::MAX {
                    (old(self).frame + 1) as u32
                } else {
                    u32::MAX
                }
                &&& final(self).spec_pos() == old(self).spec_pos() + dots - old(
                    self,
                ).spec_frame_dots()
            },
    {
        let spf = self.region.scanlines_per_frame();
        self.dot = self.dot + dots;
        if self.dot >= DOTS_PER_SCANLINE {
            self.dot = self.dot - DOTS_PER_SCANLINE;
            self.scanline = self.scanline + 1;
            if self.scanline == spf {
                self.scanline = 0;
                if self.frame < u32::MAX {
                    self.frame = self.frame + 1;
                }
            }
        }
    }

    /// Data-port address increment selected by the control register:
    /// one across the nametable row, or 32 to step down a row.
    pub open spec fn spec_vram_increment(self) -> u16 {
        if self.ctrl & 0x04u8 != 0 {
            32u16
        } else {
            1u16
        }
    }

    /// The video-memory address the data port targets: the latched
    /// address folded into the unit's 14-bit address space.
    pub open spec fn spec_data_addr(self) -> u16 {
        self.vram_addr & 0x3FFF
    }

    /// The byte a register read observes, as a function of the current
    /// state: the data port returns its buffer for non-palette targets and
    /// the palette byte directly; every other register floats, reading the
    /// bus latch.
    pub open spec fn spec_reg_read_result(self, reg: u16) -> u8 {
        if reg == 0x2007 {
            if self.spec_data_addr() < 0x3F00 {
                self.read_buffer
            } else {
                self.bus.spec_peek(self.spec_data_addr())
            }
        } else {
            self.bus.open_bus
        }
    }

    /// Answer a processor read of register `reg` (`0x2000..=0x2007`).
    ///
    /// Reading the status register (`0x2002`) rewinds the two-write
    /// address sequence.  Reading the data port (`0x2007`) returns the
    /// buffered byte for non-palette targets (refilling the buffer from
    /// the target), returns palette bytes directly, and advances the video
    /// address by the control register's increment.
    pub fn read_register(&mut self, reg: u16) -> (r: u8)
        requires
            old(self).wf(),
        ensures
            final(self).wf(),
            final(self).spec_registers_only_changed(*old(self)),
            r == old(self).spec_reg_read_result(reg),
            final(self).ctrl == old(self).ctrl,
            final(self).addr_latch_hi == old(self).addr_latch_hi,
            final(self).write_toggle == (if reg == 0x2002 {
                false
            } else {
                old(self).write_toggle
            }),
            final(self).vram_addr == (if reg == 0x2007 {
                (old(self).vram_addr + old(self).spec_vram_increment()) as u16 & 0x7FFF
            } else {
                old(self).vram_addr
            }),
            reg == 0x2007 ==> {
                &&& final(self).read_buffer == old(self).bus.spec_peek(old(self).spec_data_addr())
                &&& final(self).bus.unchanged_but_open_bus(old(self).bus)
                &&& final(self).bus.open_bus == old(self).bus.spec_peek(old(self).spec_data_addr())
            },
            reg != 0x2007 ==> {
                &&& final(self).read_buffer == old(self).read_buffer
                &&& final(self).bus == old(self).bus
            },
    {
        if reg == 0x2002 {
            self.write_toggle = false;
            self.bus.open_bus
        } else if reg == 0x2007 {
            let addr = self.vram_addr & 0x3FFF;
            proof {
                let v = old(self).vram_addr;
                assert(v & 0x3FFF < 0x4000) by (bit_vector);
            }
            let fetched = self.bus.read(addr);
            let result = if addr < 0x3F00 {
                let buffered = self.read_buffer;
                self.read_buffer = fetched;
                buffered
            } else {
                self.read_buffer = fetched;
                fetched
            };
            let inc = if self.ctrl & 0x04 != 0 {
                32u16
            } else {
                1u16
            };
            let next = (self.vram_addr + inc) & 0x7FFF;
            proof {
                let v = old(self).vram_addr;
                let i = old(self).spec_vram_increment();
                assert(v < 0x8000 && i <= 32 ==> ((v + i) as u16) & 0x7FFF
                    < 0x8000) by (bit_vector);
            }
            self.vram_addr = next;
            result
        } else {
            self.bus.open_bus
        }
    }

    /// Answer a processor write of `val` to register `reg`.
    ///
    /// The control register stores its value; the address latch takes the
    /// high 6 bits on its first write and the low byte on its second; the
    /// data port stores through the unit's bus at the latched address and
    /// advances it by the configured increment.  Other registers ignore
    /// the write.
    pub fn write_register(&mut self, reg: u16, val: u8)
        requires
            old(self).wf(),
        ensures
            final(self).wf(),
            final(self).spec_registers_only_changed(*old(self)),
            final(self).read_buffer == old(self).read_buffer,
            final(self).ctrl == (if reg == 0x2000 {
                val
            } else {
                old(self).ctrl
            }),
            reg == 0x2006 && !old(self).write_toggle ==> {
                &&& final(self).addr_latch_hi == (val & 0x3F)
                &&& final(self).write_toggle == true
                &&& final(self).vram_addr == old(self).vram_addr
                &&& final(self).bus == old(self).bus
            },
            reg == 0x2006 && old(self).write_toggle ==> {
                &&& final(self).vram_addr == (((old(self).addr_latch_hi as u16) << 8) | (
                val as u16))
                &&& final(self).write_toggle == false
                &&& final(self).bus == old(self).bus
            },
            reg == 0x2007 ==> {
                &&& final(self).bus.ciram@ == old(self).bus.spec_ciram_after_write(
                    old(self).spec_data_addr(),
                    val,
                )
                &&& final(self).bus.palette@ == old(self).bus.spec_palette_after_write(
                    old(self).spec_data_addr(),
                    val,
                )
                &&& final(self).bus.chr@ == old(self).bus.spec_chr_after_write(
                    old(self).spec_data_addr(),
                    val,
                )
                &&& final(self).bus.exram@ == old(self).bus.spec_exram_after_write(
                    old(self).spec_data_addr(),
                    val,
                )
                &&& final(self).bus.mapper == old(self).bus.mapper
                &&& final(self).bus.mirror_shift == old(self).bus.mirror_shift
                &&& final(self).vram_addr == (old(self).vram_addr + old(
                    self,
                ).spec_vram_increment()) as u16 & 0x7FFF
            },
            reg != 0x2000 && reg != 0x2006 && reg != 0x2007 ==> {
                &&& final(self).bus == old(self).bus
                &&& final(self).vram_addr == old(self).vram_addr
                &&& final(self).write_toggle == old(self).write_toggle
                &&& final(self).addr_latch_hi == old(self).addr_latch_hi
            },
            reg == 0x2000 ==> {
                &&& final(self).bus == old(self).bus
                &&& final(self).vram_addr == old(self).vram_addr
                &&& final(self).write_toggle == old(self).write_toggle
            },
            reg == 0x2007 ==> {
                &&& final(self).write_toggle == old(self).write_toggle
                &&& final(self).addr_latch_hi == old(self).addr_latch_hi
            },
    {
        if reg == 0x2000 {
            self.ctrl = val;
        } else if reg == 0x2006 {
            if !self.write_toggle {
                self.addr_latch_hi = val & 0x3F;
                proof {
                    assert(val & 0x3F <= 0x3F) by (bit_vector);
                }
                self.write_toggle = true;
            } else {
                let hi = self.addr_latch_hi;
                proof {
                    let h = old(self).addr_latch_hi;
                    assert(h <= 0x3F ==> (((h as u16) << 8) | (val as u16))
                        < 0x8000) by (bit_vector);
                }
                self.vram_addr = ((hi as u16) << 8) | (val as u16);
                self.write_toggle = false;
            }
        } else if reg == 0x2007 {
            let addr = self.vram_addr & 0x3FFF;
            proof {
                let v = old(self).vram_addr;
                assert(v & 0x3FFF < 0x4000) by (bit_vector);
            }
            self.bus.write(addr, val);
            let inc = if self.ctrl & 0x04 != 0 {
                32u16
            } else {
                1u16
            };
            let next = (self.vram_addr + inc) & 0x7FFF;
            proof {
                let v = old(self).vram_addr;
                assert(v < 0x8000 ==> ((v + 32) as u16) & 0x7FFF < 0x8000) by (bit_vector);
                assert(v < 0x8000 ==> ((v + 1) as u16) & 0x7FFF < 0x8000) by (bit_vector);
            }
            self.vram_addr = next;
        }
    }

    /// Region the unit times its frames for.
    pub fn region(&self) -> (r: NesRegion)
        ensures
            r == self.region,
    {
        self.region
    }

    /// Switch the unit to `region` and restart the current frame: the
    /// beam returns to the frame's first dot so the position always lies
    /// inside the new region's scanline count.
    pub fn set_region(&mut self, region: NesRegion)
        requires
            old(self).wf(),
        ensures
            final(self).wf(),
            *final(self) == (Ppu { region, scanline: 0, dot: 0, ..*old(self) }),
    {
        self.region = region;
        self.scanline = 0;
        self.dot = 0;
    }

    /// Reset the unit: clear the register file and return the beam to the
    /// frame's first dot.  A hard reset also rewinds the frame counter.
    pub fn reset(&mut self, kind: ResetKind)
        requires
            old(self).wf(),
        ensures
            final(self).wf(),
            final(self).ctrl == 0,
            final(self).vram_addr == 0,
            final(self).write_toggle == false,
            final(self).read_buffer == 0,
            final(self).scanline == 0,
            final(self).dot == 0,
            final(self).frame == (if kind == ResetKind::Hard {
                0u32
            } else {
                old(self).frame
            }),
            final(self).region == old(self).region,
            final(self).frame_buffer@ == old(self).frame_buffer@,
            final(self).bus.open_bus == 0,
            final(self).bus.mapper == old(self).bus.mapper,
            final(self).bus.ciram@ == old(self).bus.ciram@,
            final(self).bus.palette@ == old(self).bus.palette@,
            final(self).bus.chr@ == old(self).bus.chr@,
            final(self).bus.exram@ == old(self).bus.exram@,
            final(self).bus.mirror_shift == old(self).bus.mirror_shift,
    {
        self.ctrl = 0;
        self.vram_addr = 0;
        self.addr_latch_hi = 0;
        self.write_toggle = false;
        self.read_buffer = 0;
        self.scanline = 0;
        self.dot = 0;
        if matches!(kind, ResetKind::Hard) {
            self.frame = 0;
        }
        self.bus.reset(kind);
    }
}

} // verus!
