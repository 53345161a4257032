//! Processor-side memory-mapped bus.
//!
//! The bus is a pure address decoder: work RAM below `0x2000` (mirrored
//! every 2 KiB), the picture unit's register file up to `0x3FFF` (mirrored
//! every 8 bytes), the controller ports at `0x4016` and `0x4017`, and the
//! cartridge space from `0x4020` up, routed through the mapper to program
//! ROM or RAM.  Reads in cartridge program space pass through the active
//! cheat codes.  Every address decodes to exactly one outcome; floating
//! ranges read the open-bus latch and never fail.

use vstd::prelude::*;
use vstd::pervasive::VecAdditionalExecFns;
use crate::apu::Apu;
use crate::common::RamState;
use crate::genie::{apply_genie_codes, spec_genie_apply, GenieCode};
use crate::input::{FourPlayer, Joypad, Zapper};
use crate::mapper::{MappedRead, MappedWrite};
use crate::ppu::Ppu;

verus! {

/// The processor-side bus and every device it reaches.  The cartridge
/// mapper itself lives inside the picture unit's bus, so that the single
/// mapper instance serves both sides.
#[derive(Debug, Clone, PartialEq, Eq)]
#[must_use]
pub struct Bus {
    pub wram: Vec<u8>,
    pub sram: Vec<u8>,
    pub prg_rom: Vec<u8>,
    pub ppu: Ppu,
    pub apu: Apu,
    pub joypads: Vec<Joypad>,
    pub four_player: FourPlayer,
    pub zapper: Zapper,
    pub genie_codes: Vec<GenieCode>,
    pub ram_state: RamState,
    pub open_bus: u8,
}

impl Bus {
    /// Work RAM size: 2 KiB, mirrored four times.
    pub open spec fn spec_wram_size() -> usize {
        0x0800
    }

    /// Battery-backable program RAM size: 8 KiB.
    pub open spec fn spec_sram_size() -> usize {
        0x2000
    }

    /// Structural invariant: fixed pools have their hardware sizes, one
    /// joypad per port, program ROM matches what the mapper decodes, and
    /// boards with pattern memory have their full 8 KiB loaded.
    pub open spec fn spec_wf(self) -> bool {
        &&& self.wram@.len() == Self::spec_wram_size()
        &&& self.sram@.len() == Self::spec_sram_size()
        &&& self.joypads@.len() == 4
        &&& self.ppu.wf()
        &&& self.prg_rom@.len() == self.ppu.bus.mapper.spec_prg_len()
        &&& (self.ppu.bus.mapper is Nrom ==> self.ppu.bus.chr@.len() == 0x2000)
    }

    /// A powered-on bus with no cartridge: zeroed work RAM and program
    /// RAM, idle controllers, no cheat codes.
    pub fn new(ram_state: RamState) -> (r: Bus)
        ensures
            r.spec_wf(),
            r.wram@ == Seq::new(0x0800nat, |i: int| 0u8),
            r.sram@ == Seq::new(0x2000nat, |i: int| 0u8),
            r.prg_rom@.len() == 0,
            r.ppu.bus.mapper == crate::mapper::Mapper::Empty,
            r.ppu.frame == 0,
            r.genie_codes@.len() == 0,
            r.ram_state == ram_state,
            r.open_bus == 0,
            r.four_player == FourPlayer::Disabled,
            forall|i: int| 0 <= i < 4 ==> r.joypads@[i] == Joypad::spec_idle(),
    {
        let mut joypads: Vec<Joypad> = Vec::new();
        joypads.push(Joypad::new());
        joypads.push(Joypad::new());
        joypads.push(Joypad::new());
        joypads.push(Joypad::new());
        Bus {
            wram: vec![0u8; 0x0800],
            sram: vec![0u8; 0x2000],
            prg_rom: Vec::new(),
            ppu: Ppu::new(),
            apu: Apu::new(),
            joypads,
            four_player: FourPlayer::Disabled,
            zapper: Zapper::new(),
            genie_codes: Vec::new(),
            ram_state,
            open_bus: 0x00,
        }
    }

    /// Register the picture unit reaches for a processor access to `addr`
    /// in `0x2000..=0x3FFF`: the eight registers mirror through the range.
    pub open spec fn spec_ppu_reg(addr: u16) -> u16 {
        (0x2000u16 | (addr & 7)) as u16
    }

    /// The byte a read of `addr` observes, as a function of the current
    /// bus state.
    pub open spec fn spec_peek(self, addr: u16) -> u8 {
        if addr < 0x2000 {
            self.wram@[(addr & 0x07FF) as int]
        } else if addr < 0x4000 {
            self.ppu.spec_reg_read_result(Self::spec_ppu_reg(addr))
        } else if addr == 0x4016 {
            self.joypads@[0].spec_read_result()
        } else if addr == 0x4017 {
            self.joypads@[1].spec_read_result()
        } else if addr < 0x4020 {
            self.open_bus
        } else {
            match self.ppu.bus.mapper.spec_map_read(addr) {
                MappedRead::PrgRom(i) => spec_genie_apply(
                    self.genie_codes@,
                    addr,
                    if i < self.prg_rom@.len() {
                        self.prg_rom@[i as int]
                    } else {
                        self.open_bus
                    },
                ),
                MappedRead::PrgRam(i) => if i < self.sram@.len() {
                    self.sram@[i as int]
                } else {
                    self.open_bus
                },
                MappedRead::Data(d) => d,
                _ => self.open_bus,
            }
        }
    }

    /// The cartridge, memory pools, peripherals and cheat codes agree with
    /// `other`; the picture unit's beam and frame are also kept.  What may
    /// differ: the open-bus latches, the picture unit's register file, and
    /// the controllers' shift positions.
    pub open spec fn spec_read_frame(self, other: Bus) -> bool {
        &&& self.wram@ == other.wram@
        &&& self.sram@ == other.sram@
        &&& self.prg_rom@ == other.prg_rom@
        &&& self.genie_codes@ == other.genie_codes@
        &&& self.apu == other.apu
        &&& self.four_player == other.four_player
        &&& self.zapper == other.zapper
        &&& self.ram_state == other.ram_state
        &&& self.ppu.spec_registers_only_changed(other.ppu)
        &&& self.ppu.bus.mapper == other.ppu.bus.mapper
        &&& self.ppu.bus.mirror_shift == other.ppu.bus.mirror_shift
        &&& self.ppu.bus.ciram@ == other.ppu.bus.ciram@
        &&& self.ppu.bus.palette@ == other.ppu.bus.palette@
        &&& self.ppu.bus.chr@ == other.ppu.bus.chr@
        &&& self.ppu.bus.exram@ == other.ppu.bus.exram@
    }

    /// Read the byte at `addr` and latch it on the bus.  Reads never
    /// change any storage pool: at most the open-bus latches, the picture
    /// unit's register file and the controllers' shift positions move.
    pub fn read(&mut self, addr: u16) -> (r: u8)
        requires
            old(self).spec_wf(),
        ensures
            final(self).spec_wf(),
            r == old(self).spec_peek(addr),
            final(self).spec_read_frame(*old(self)),
            final(self).open_bus == r,
            final(self).joypads@ == (if addr == 0x4016 {
                old(self).joypads@.update(0, old(self).joypads@[0].spec_after_read())
            } else if addr == 0x4017 {
                old(self).joypads@.update(1, old(self).joypads@[1].spec_after_read())
            } else {
                old(self).joypads@
            }),
            // the picture unit's register file moves exactly as one
            // register read moves it
            final(self).ppu.write_toggle == (if 0x2000 <= addr < 0x4000 && Self::spec_ppu_reg(addr)
                == 0x2002 {
                false
            } else {
                old(self).ppu.write_toggle
            }),
            final(self).ppu.vram_addr == (if 0x2000 <= addr < 0x4000 && Self::spec_ppu_reg(addr)
                == 0x2007 {
                (old(self).ppu.vram_addr + old(self).ppu.spec_vram_increment()) as u16 & 0x7FFF
            } else {
                old(self).ppu.vram_addr
            }),
            final(self).ppu.read_buffer == (if 0x2000 <= addr < 0x4000 && Self::spec_ppu_reg(addr)
                == 0x2007 {
                old(self).ppu.bus.spec_peek(old(self).ppu.spec_data_addr())
            } else {
                old(self).ppu.read_buffer
            }),
            final(self).ppu.ctrl == old(self).ppu.ctrl,
            final(self).ppu.addr_latch_hi == old(self).ppu.addr_latch_hi,
    {
        let val: u8 = if addr < 0x2000 {
            proof {
                assert(addr & 0x07FF < 0x800) by (bit_vector);
            }
            self.wram[(addr & 0x07FF) as usize]
        } else if addr < 0x4000 {
            proof {
                assert((0x2000u16 | (addr & 7)) as u16 == Bus::spec_ppu_reg(addr));
            }
            self.ppu.read_register(0x2000u16 | (addr & 7))
        } else if addr == 0x4016 {
            let mut pad = self.joypads[0];
            let bit = pad.read();
            self.joypads.set(0, pad);
            proof {
                assert(self.joypads@ =~= old(self).joypads@.update(
                    0,
                    old(self).joypads@[0].spec_after_read(),
                ));
            }
            bit
        } else if addr == 0x4017 {
            let mut pad = self.joypads[1];
            let bit = pad.read();
            self.joypads.set(1, pad);
            proof {
                assert(self.joypads@ =~= old(self).joypads@.update(
                    1,
                    old(self).joypads@[1].spec_after_read(),
                ));
            }
            bit
        } else if addr < 0x4020 {
            self.open_bus
        } else {
            match self.ppu.bus.mapper.map_peek(addr) {
                MappedRead::PrgRom(i) => {
                    let raw = if i < self.prg_rom.len() {
                        self.prg_rom[i]
                    } else {
                        self.open_bus
                    };
                    apply_genie_codes(&self.genie_codes, addr, raw)
                },
                MappedRead::PrgRam(i) => {
                    if i < self.sram.len() {
                        self.sram[i]
                    } else {
                        self.open_bus
                    }
                },
                MappedRead::Data(d) => d,
                _ => self.open_bus,
            }
        };
        self.open_bus = val;
        val
    }

    /// Read the byte at `addr` without committing any side effect.
    pub fn peek(&self, addr: u16) -> (r: u8)
        requires
            self.spec_wf(),
        ensures
            r == self.spec_peek(addr),
    {
        if addr < 0x2000 {
            proof {
                assert(addr & 0x07FF < 0x800) by (bit_vector);
            }
            self.wram[(addr & 0x07FF) as usize]
        } else if addr < 0x4000 {
            self.ppu_reg_peek(0x2000u16 | (addr & 7))
        } else if addr == 0x4016 {
            self.joypads[0].peek()
        } else if addr == 0x4017 {
            self.joypads[1].peek()
        } else if addr < 0x4020 {
            self.open_bus
        } else {
            match self.ppu.bus.mapper.map_peek(addr) {
                MappedRead::PrgRom(i) => {
                    let raw = if i < self.prg_rom.len() {
                        self.prg_rom[i]
                    } else {
                        self.open_bus
                    };
                    apply_genie_codes(&self.genie_codes, addr, raw)
                },
                MappedRead::PrgRam(i) => {
                    if i < self.sram.len() {
                        self.sram[i]
                    } else {
                        self.open_bus
                    }
                },
                MappedRead::Data(d) => d,
                _ => self.open_bus,
            }
        }
    }

    /// Observe what a register read would return, without side effects.
    fn ppu_reg_peek(&self, reg: u16) -> (r: u8)
        requires
            self.ppu.wf(),
        ensures
            r == self.ppu.spec_reg_read_result(reg),
    {
        if reg == 0x2007 {
            let addr = self.ppu.vram_addr & 0x3FFF;
            if addr < 0x3F00 {
                self.ppu.read_buffer
            } else {
                self.ppu.bus.peek(addr)
            }
        } else {
            self.ppu.bus.open_bus
        }
    }

    /// Write `val` to `addr`: store into work RAM, drive the picture
    /// unit's register file, strobe the controllers, or route through the
    /// mapper into cartridge RAM.  The open-bus latch takes the value.
    pub fn write(&mut self, addr: u16, val: u8)
        requires
            old(self).spec_wf(),
        ensures
            final(self).spec_wf(),
            final(self).open_bus == val,
            final(self).prg_rom@ == old(self).prg_rom@,
            final(self).genie_codes@ == old(self).genie_codes@,
            final(self).apu == old(self).apu,
            final(self).four_player == old(self).four_player,
            final(self).zapper == old(self).zapper,
            final(self).ram_state == old(self).ram_state,
            final(self).ppu.spec_registers_only_changed(old(self).ppu),
            final(self).ppu.bus.mapper == old(self).ppu.bus.mapper,
            final(self).ppu.bus.mirror_shift == old(self).ppu.bus.mirror_shift,
            // work RAM takes the store exactly below 0x2000
            final(self).wram@ == (if addr < 0x2000 {
                old(self).wram@.update((addr & 0x07FF) as int, val)
            } else {
                old(self).wram@
            }),
            // program RAM takes the store exactly when the mapper routes it there
            final(self).sram@ == (if addr >= 0x4020 && old(self).ppu.bus.mapper.spec_map_write(
                addr,
                val,
            ) is PrgRam {
                (match old(self).ppu.bus.mapper.spec_map_write(addr, val) {
                    MappedWrite::PrgRam(i, v) => if i < old(self).sram@.len() {
                        old(self).sram@.update(i as int, v)
                    } else {
                        old(self).sram@
                    },
                    _ => old(self).sram@,
                })
            } else {
                old(self).sram@
            }),
            // the controllers see exactly the strobe writes
            final(self).joypads@ == (if addr == 0x4016 {
                Seq::new(
                    old(self).joypads@.len(),
                    |i: int| old(self).joypads@[i].spec_after_write(val),
                )
            } else {
                old(self).joypads@
            }),
            // the picture unit's storage moves exactly through its data port
            (0x2000 <= addr < 0x4000 && Self::spec_ppu_reg(addr) == 0x2007) ==> {
                &&& final(self).ppu.bus.ciram@ == old(self).ppu.bus.spec_ciram_after_write(
                    old(self).ppu.spec_data_addr(),
                    val,
                )
                &&& final(self).ppu.bus.palette@ == old(self).ppu.bus.spec_palette_after_write(
                    old(self).ppu.spec_data_addr(),
                    val,
                )
                &&& final(self).ppu.bus.chr@ == old(self).ppu.bus.spec_chr_after_write(
                    old(self).ppu.spec_data_addr(),
                    val,
                )
                &&& final(self).ppu.bus.exram@ == old(self).ppu.bus.spec_exram_after_write(
                    old(self).ppu.spec_data_addr(),
                    val,
                )
            },
            !(0x2000 <= addr < 0x4000 && Self::spec_ppu_reg(addr) == 0x2007) ==> {
                &&& final(self).ppu.bus.ciram@ == old(self).ppu.bus.ciram@
                &&& final(self).ppu.bus.palette@ == old(self).ppu.bus.palette@
                &&& final(self).ppu.bus.chr@ == old(self).ppu.bus.chr@
                &&& final(self).ppu.bus.exram@ == old(self).ppu.bus.exram@
            },
            // the control register and address latch follow the writes
            final(self).ppu.ctrl == (if 0x2000 <= addr < 0x4000 && Self::spec_ppu_reg(addr)
                == 0x2000 {
                val
            } else {
                old(self).ppu.ctrl
            }),
    {
        if addr < 0x2000 {
            proof {
                assert(addr & 0x07FF < 0x800) by (bit_vector);
            }
            self.wram.set((addr & 0x07FF) as usize, val);
        } else if addr < 0x4000 {
            self.ppu.write_register(0x2000u16 | (addr & 7), val);
        } else if addr == 0x4016 {
            let mut k: usize = 0;
            while k < 4
                invariant
                    old(self).spec_wf(),
                    k <= 4,
                    self.joypads@.len() == 4,
                    forall|i: int|
                        0 <= i < k ==> self.joypads@[i] == old(self).joypads@[i].spec_after_write(
                            val,
                        ),
                    forall|i: int| k <= i < 4 ==> self.joypads@[i] == old(self).joypads@[i],
                    self.wram == old(self).wram,
                    self.sram == old(self).sram,
                    self.prg_rom == old(self).prg_rom,
                    self.ppu == old(self).ppu,
                    self.apu == old(self).apu,
                    self.four_player == old(self).four_player,
                    self.zapper == old(self).zapper,
                    self.genie_codes == old(self).genie_codes,
                    self.ram_state == old(self).ram_state,
                    self.open_bus == old(self).open_bus,
                decreases 4 - k,
            {
                let mut pad = self.joypads[k];
                pad.write(val);
                self.joypads.set(k, pad);
                k = k + 1;
            }
            proof {
                assert(self.joypads@ =~= Seq::new(
                    old(self).joypads@.len(),
                    |i: int| old(self).joypads@[i].spec_after_write(val),
                ));
            }
        } else if addr >= 0x4020 {
            match self.ppu.bus.mapper.map_write(addr, val) {
                MappedWrite::PrgRam(i, v) => {
                    if i < self.sram.len() {
                        self.sram.set(i, v);
                    }
                },
                _ => {},
            }
        }
        self.open_bus = val;
    }
}

} // verus!
