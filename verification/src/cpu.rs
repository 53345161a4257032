//! Processor, at its stepping and corruption boundary.
//!
//! The full instruction set of the original processor is a large, separate
//! hardware specification; this core carries the clocking and dispatch
//! protocol it participates in, over a compact subset of the official
//! instructions (loads, stores, transfers, increments, jumps and the two
//! zero-flag branches).  One call to [`Cpu::clock`] executes exactly one
//! instruction against the bus, drives the picture unit three dots per
//! elapsed cycle, and reports the elapsed cycles.  An opcode outside the
//! subset is a reserved/illegal opcode: it puts the processor into the
//! terminal corrupted state, in which every further step refuses to run
//! until a reset.

use vstd::prelude::*;
use vstd::pervasive::VecAdditionalExecFns;
use crate::bus::Bus;
use crate::cart::Cart;
use crate::common::{NesRegion, RamState, ResetKind};

verus! {

/// Byte `i` of freshly initialized RAM under `state`: all zeros, all
/// ones, or a fixed pseudo-random pattern (deterministic, so powered-on
/// behaviour is bit-reproducible across runs).
pub open spec fn spec_power_on_byte(state: RamState, i: int) -> u8 {
    match state {
        RamState::AllZeros => 0u8,
        RamState::AllOnes => 0xFFu8,
        RamState::Random => ((i * 197 + 91) % 256) as u8,
    }
}

/// Freshly initialized RAM of `len` bytes under `state`.
pub open spec fn spec_power_on_ram(state: RamState, len: int) -> Seq<u8> {
    Seq::new(len as nat, |i: int| spec_power_on_byte(state, i))
}

/// Build a freshly initialized RAM pool of `len` bytes.
pub fn power_on_ram(state: RamState, len: usize) -> (r: Vec<u8>)
    requires
        len <= 0x2000,
    ensures
        r@ == spec_power_on_ram(state, len as int),
{
    let mut out: Vec<u8> = Vec::new();
    for i in 0..len
        invariant
            len <= 0x2000,
            out@.len() == i,
            forall|j: int| 0 <= j < i ==> out@[j] == spec_power_on_byte(state, j),
    {
        let b: u8 = match state {
            RamState::AllZeros => 0u8,
            RamState::AllOnes => 0xFFu8,
            RamState::Random => ((i * 197 + 91) % 256) as u8,
        };
        out.push(b);
    }
    proof {
        assert(out@ =~= spec_power_on_ram(state, len as int));
    }
    out
}

/// One instruction of the implemented subset costs at most this many
/// processor cycles.
pub const MAX_INSTR_CYCLES: u64 = 4;

/// Whether `op` is in the implemented instruction subset.  Everything
/// else is treated as a reserved/illegal opcode and corrupts the
/// processor.
pub open spec fn spec_opcode_supported(op: u8) -> bool {
    ||| op == 0xEAu8  // NOP
    ||| op == 0xA9u8  // LDA immediate
    ||| op == 0xA2u8  // LDX immediate
    ||| op == 0xA0u8  // LDY immediate
    ||| op == 0xADu8  // LDA absolute
    ||| op == 0x8Du8  // STA absolute
    ||| op == 0x8Eu8  // STX absolute
    ||| op == 0x8Cu8  // STY absolute
    ||| op == 0x4Cu8  // JMP absolute
    ||| op == 0xE8u8  // INX
    ||| op == 0xC8u8  // INY
    ||| op == 0xCAu8  // DEX
    ||| op == 0x88u8  // DEY
    ||| op == 0xAAu8  // TAX
    ||| op == 0x8Au8  // TXA
    ||| op == 0xD0u8  // BNE relative
    ||| op == 0xF0u8  // BEQ relative
}

/// The processor: its registers, the terminal corrupted flag, and the bus
/// it owns (which transitively owns the picture unit and the cartridge).
#[derive(Debug, Clone, PartialEq, Eq)]
#[must_use]
pub struct Cpu {
    pub bus: Bus,
    pub a: u8,
    pub x: u8,
    pub y: u8,
    pub pc: u16,
    pub zero: bool,
    pub negative: bool,
    pub corrupted: bool,
    pub region: NesRegion,
    pub cycle_accurate: bool,
}

impl Cpu {
    pub open spec fn wf(self) -> bool {
        self.bus.spec_wf()
    }

    /// The cartridge identity, memory mapping, cheat codes, configuration
    /// and picture-unit frame geometry agree with `other`: one processor
    /// step never changes them.
    pub open spec fn spec_cart_unchanged(self, other: Cpu) -> bool {
        &&& self.bus.prg_rom@ == other.bus.prg_rom@
        &&& self.bus.genie_codes@ == other.bus.genie_codes@
        &&& self.bus.ppu.bus.mapper == other.bus.ppu.bus.mapper
        &&& self.bus.ppu.bus.mirror_shift == other.bus.ppu.bus.mirror_shift
        &&& self.bus.ram_state == other.bus.ram_state
        &&& self.bus.four_player == other.bus.four_player
        &&& self.bus.zapper == other.bus.zapper
        &&& self.bus.apu == other.bus.apu
        &&& self.bus.ppu.region == other.bus.ppu.region
        &&& self.bus.ppu.frame_buffer@ == other.bus.ppu.frame_buffer@
        &&& self.region == other.region
        &&& self.cycle_accurate == other.cycle_accurate
    }

    /// A powered-on processor on the given bus.
    pub fn new(bus: Bus) -> (r: Cpu)
        requires
            bus.spec_wf(),
        ensures
            r.wf(),
            r.bus == bus,
            r.corrupted == false,
            r.region == NesRegion::Ntsc,
            r.pc == 0,
    {
        Cpu {
            bus,
            a: 0,
            x: 0,
            y: 0,
            pc: 0,
            zero: true,
            negative: false,
            corrupted: false,
            region: NesRegion::Ntsc,
            cycle_accurate: true,
        }
    }

    /// Whether the processor is in the terminal corrupted state.
    pub fn corrupted(&self) -> (r: bool)
        ensures
            r == self.corrupted,
    {
        self.corrupted
    }

    /// Fetch one byte at the program counter and advance it.
    fn fetch_byte(&mut self) -> (r: u8)
        requires
            old(self).wf(),
        ensures
            final(self).wf(),
            r == old(self).bus.spec_peek(old(self).pc),
            final(self).pc == vstd::wrapping::u16_specs::wrapping_add(old(self).pc, 1),
            final(self).bus.spec_read_frame(old(self).bus),
            final(self).a == old(self).a,
            final(self).x == old(self).x,
            final(self).y == old(self).y,
            final(self).zero == old(self).zero,
            final(self).negative == old(self).negative,
            final(self).corrupted == old(self).corrupted,
            final(self).region == old(self).region,
            final(self).cycle_accurate == old(self).cycle_accurate,
            final(self).bus.wram@ == old(self).bus.wram@,
            final(self).bus.sram@ == old(self).bus.sram@,
    {
        let b = self.bus.read(self.pc);
        self.pc = self.pc.wrapping_add(1);
        b
    }

    /// Fetch a little-endian 16-bit operand.
    fn fetch_word(&mut self) -> (r: u16)
        requires
            old(self).wf(),
        ensures
            final(self).wf(),
            final(self).bus.spec_read_frame(old(self).bus),
            final(self).a == old(self).a,
            final(self).x == old(self).x,
            final(self).y == old(self).y,
            final(self).zero == old(self).zero,
            final(self).negative == old(self).negative,
            final(self).corrupted == old(self).corrupted,
            final(self).region == old(self).region,
            final(self).cycle_accurate == old(self).cycle_accurate,
            final(self).bus.wram@ == old(self).bus.wram@,
            final(self).bus.sram@ == old(self).bus.sram@,
    {
        let lo = self.fetch_byte();
        let hi = self.fetch_byte();
        ((hi as u16) << 8) | (lo as u16)
    }

    /// Record the zero and negative flags of `v`.
    fn set_zn(&mut self, v: u8)
        ensures
            *final(self) == (Cpu {
                zero: v == 0,
                negative: v >= 0x80,
                ..*old(self)
            }),
    {
        self.zero = v == 0;
        self.negative = v >= 0x80;
    }

    /// Execute exactly one instruction.
    ///
    /// A corrupted processor refuses to run: the call returns 0 cycles
    /// and changes nothing.  Otherwise the opcode at the program counter
    /// decides: an implemented instruction executes against the bus,
    /// drives the picture unit three dots per cycle, and reports its
    /// cycle count (between 2 and 4); a reserved/illegal opcode sets the
    /// corrupted state and reports 0 cycles.  The picture unit's frame
    /// counter advances exactly when the elapsed dots cross the frame
    /// boundary.
    #[verifier::rlimit(100)]
    pub fn clock(&mut self) -> (cycles: usize)
        requires
            old(self).wf(),
        ensures
            final(self).wf(),
            spec_step_rel(*old(self), *final(self), cycles),
            final(self).spec_cart_unchanged(*old(self)),
            old(self).corrupted ==> (cycles == 0 && *final(self) == *old(self)),
            !old(self).corrupted ==> final(self).corrupted == !spec_opcode_supported(
                old(self).bus.spec_peek(old(self).pc),
            ),
            final(self).corrupted ==> cycles == 0,
            !final(self).corrupted && !old(self).corrupted ==> 2 <= cycles <= 4,
            // timing: the beam advances three dots per cycle, carrying
            // into the (saturating) frame counter exactly at the boundary
            old(self).bus.ppu.spec_pos() + 3 * cycles < old(self).bus.ppu.spec_frame_dots() ==> {
                &&& final(self).bus.ppu.frame == old(self).bus.ppu.frame
                &&& final(self).bus.ppu.spec_pos() == old(self).bus.ppu.spec_pos() + 3 * cycles
            },
            old(self).bus.ppu.spec_pos() + 3 * cycles >= old(self).bus.ppu.spec_frame_dots() ==> {
                &&& final(self).bus.ppu.frame == (if old(self).bus.ppu.frame < u32::MAX {
                    (old(self).bus.ppu.frame + 1) as u32
                } else {
                    u32::MAX
                })
                &&& final(self).bus.ppu.spec_pos() == old(self).bus.ppu.spec_pos() + 3 * cycles
                    - old(self).bus.ppu.spec_frame_dots()
            },
    {
        if self.corrupted {
            return 0;
        }
        let op = self.fetch_byte();
        let cycles: usize = match op {
            0xEA => 2,
            0xA9 => {
                let v = self.fetch_byte();
                self.a = v;
                self.set_zn(v);
                2
            },
            0xA2 => {
                let v = self.fetch_byte();
                self.x = v;
                self.set_zn(v);
                2
            },
            0xA0 => {
                let v = self.fetch_byte();
                self.y = v;
                self.set_zn(v);
                2
            },
            0xAD => {
                let addr = self.fetch_word();
                let v = self.bus.read(addr);
                self.a = v;
                self.set_zn(v);
                4
            },
            0x8D => {
                let addr = self.fetch_word();
                let v = self.a;
                self.bus.write(addr, v);
                4
            },
            0x8E => {
                let addr = self.fetch_word();
                let v = self.x;
                self.bus.write(addr, v);
                4
            },
            0x8C => {
                let addr = self.fetch_word();
                let v = self.y;
                self.bus.write(addr, v);
                4
            },
            0x4C => {
                let addr = self.fetch_word();
                self.pc = addr;
                3
            },
            0xE8 => {
                let v = self.x.wrapping_add(1);
                self.x = v;
                self.set_zn(v);
                2
            },
            0xC8 => {
                let v = self.y.wrapping_add(1);
                self.y = v;
                self.set_zn(v);
                2
            },
            0xCA => {
                let v = self.x.wrapping_sub(1);
                self.x = v;
                self.set_zn(v);
                2
            },
            0x88 => {
                let v = self.y.wrapping_sub(1);
                self.y = v;
                self.set_zn(v);
                2
            },
            0xAA => {
                let v = self.a;
                self.x = v;
                self.set_zn(v);
                2
            },
            0x8A => {
                let v = self.x;
                self.a = v;
                self.set_zn(v);
                2
            },
            0xD0 => {
                let off = self.fetch_byte();
                if !self.zero {
                    self.pc = self.pc.wrapping_add_signed((off as i8) as i16);
                    3
                } else {
                    2
                }
            },
            0xF0 => {
                let off = self.fetch_byte();
                if self.zero {
                    self.pc = self.pc.wrapping_add_signed((off as i8) as i16);
                    3
                } else {
                    2
                }
            },
            _ => {
                self.corrupted = true;
                0
            },
        };
        if cycles > 0 {
            self.bus.ppu.clock_dots(3 * (cycles as u32));
        }
        cycles
    }

    /// Install a freshly decoded cartridge: program memory onto the bus,
    /// pattern memory and the selected board into the picture unit, a
    /// fresh program-RAM pool, and the board's mirroring.
    pub fn load_cart(&mut self, cart: Cart)
        requires
            old(self).wf(),
            cart.wf(),
        ensures
            final(self).wf(),
            final(self).bus.ppu.bus.mapper.spec_is_loaded(),
            final(self).bus.ppu.bus.mapper.spec_battery_backed() == cart.battery,
            final(self).bus.ppu.bus.mapper.spec_mirroring() == cart.mirroring,
            final(self).bus.prg_rom@ == cart.prg_rom@,
            final(self).bus.ppu.bus.chr@ == cart.chr@,
            final(self).bus.ppu.bus.mirror_shift == cart.mirroring.spec_shift(),
            final(self).bus.sram@ == spec_power_on_ram(cart.ram_state, 0x2000),
            final(self).bus.genie_codes@ == old(self).bus.genie_codes@,
            final(self).bus.ram_state == old(self).bus.ram_state,
            final(self).corrupted == old(self).corrupted,
            final(self).region == old(self).region,
    {
        let mapper = cart.build_mapper();
        self.bus.prg_rom = cart.prg_rom;
        self.bus.ppu.bus.load_chr(cart.chr);
        self.bus.ppu.bus.mapper = mapper;
        self.bus.ppu.bus.update_mirroring();
        self.bus.sram = power_on_ram(cart.ram_state, 0x2000);
    }

    /// Remove the cartridge: back to the empty slot, no program or
    /// pattern memory.
    pub fn unload_cart(&mut self)
        requires
            old(self).wf(),
        ensures
            final(self).wf(),
            !final(self).bus.ppu.bus.mapper.spec_is_loaded(),
            final(self).bus.prg_rom@.len() == 0,
            final(self).bus.genie_codes@ == old(self).bus.genie_codes@,
            final(self).bus.sram@ == old(self).bus.sram@,
            final(self).bus.wram@ == old(self).bus.wram@,
            final(self).corrupted == old(self).corrupted,
            final(self).region == old(self).region,
    {
        self.bus.prg_rom = Vec::new();
        self.bus.ppu.bus.load_chr(Vec::new());
        self.bus.ppu.bus.mapper = crate::mapper::Mapper::none();
        self.bus.ppu.bus.update_mirroring();
    }

    /// The reset vector: the 16-bit address the processor starts at,
    /// read little-endian from the top of cartridge program space.
    pub open spec fn spec_reset_vector(self) -> u16 {
        (((self.bus.spec_peek(0xFFFD) as u16) << 8) | (self.bus.spec_peek(0xFFFC) as u16)) as u16
    }

    /// Reset the processor: clear the corrupted state, reload the program
    /// counter from the reset vector, clear the registers, and reset the
    /// picture unit.  A hard reset also re-initializes work RAM under the
    /// configured power-on policy.
    pub fn reset(&mut self, kind: ResetKind)
        requires
            old(self).wf(),
        ensures
            final(self).wf(),
            final(self).corrupted == false,
            final(self).pc == old(self).spec_reset_vector(),
            final(self).bus.ppu.frame == (if kind == ResetKind::Hard {
                0u32
            } else {
                old(self).bus.ppu.frame
            }),
            final(self).bus.ppu.scanline == 0,
            final(self).bus.ppu.dot == 0,
            final(self).bus.wram@ == (if kind == ResetKind::Hard {
                spec_power_on_ram(old(self).bus.ram_state, 0x0800)
            } else {
                old(self).bus.wram@
            }),
            final(self).bus.sram@ == old(self).bus.sram@,
            final(self).bus.prg_rom@ == old(self).bus.prg_rom@,
            final(self).bus.genie_codes@ == old(self).bus.genie_codes@,
            final(self).bus.ppu.bus.mapper == old(self).bus.ppu.bus.mapper,
            final(self).bus.ppu.bus.mirror_shift == old(self).bus.ppu.bus.mirror_shift,
            final(self).bus.ppu.bus.chr@ == old(self).bus.ppu.bus.chr@,
            final(self).region == old(self).region,
            final(self).bus.ram_state == old(self).bus.ram_state,
    {
        let lo = self.bus.peek(0xFFFC);
        let hi = self.bus.peek(0xFFFD);
        self.pc = ((hi as u16) << 8) | (lo as u16);
        self.a = 0;
        self.x = 0;
        self.y = 0;
        self.zero = true;
        self.negative = false;
        self.corrupted = false;
        if matches!(kind, ResetKind::Hard) {
            self.bus.wram = power_on_ram(self.bus.ram_state, 0x0800);
        }
        self.bus.ppu.reset(kind);
        self.bus.open_bus = 0;
    }

    /// The processor with its region — and, transitively, the picture
    /// unit's and the cartridge board's — switched to `region`, the beam
    /// returned to the frame's first dot, and everything else untouched.
    pub open spec fn spec_with_region(self, region: NesRegion) -> Cpu {
        Cpu {
            region,
            bus: Bus {
                ppu: crate::ppu::Ppu {
                    region,
                    scanline: 0,
                    dot: 0,
                    bus: crate::ppu_bus::PpuBus {
                        mapper: self.bus.ppu.bus.mapper.spec_with_region(region),
                        ..self.bus.ppu.bus
                    },
                    ..self.bus.ppu
                },
                ..self.bus
            },
            ..self
        }
    }

    /// Region the processor clocks at.
    pub fn set_region(&mut self, region: NesRegion)
        requires
            old(self).wf(),
        ensures
            final(self).wf(),
            *final(self) == old(self).spec_with_region(region),
            final(self).region == region,
            final(self).bus.ppu.region == region,
            old(self).bus.ppu.bus.mapper is Nrom ==> final(self).bus.ppu.bus.mapper.spec_region()
                == region,
            final(self).corrupted == old(self).corrupted,
            final(self).bus.prg_rom@ == old(self).bus.prg_rom@,
            final(self).bus.genie_codes@ == old(self).bus.genie_codes@,
            final(self).bus.ppu.bus.mapper.spec_is_loaded() == old(
                self,
            ).bus.ppu.bus.mapper.spec_is_loaded(),
            final(self).bus.ppu.frame == old(self).bus.ppu.frame,
            final(self).bus.ram_state == old(self).bus.ram_state,
            final(self).bus.four_player == old(self).bus.four_player,
            final(self).bus.zapper == old(self).bus.zapper,
            final(self).bus.apu == old(self).bus.apu,
            final(self).bus.joypads@ == old(self).bus.joypads@,
            final(self).bus.wram@ == old(self).bus.wram@,
            final(self).bus.sram@ == old(self).bus.sram@,
            final(self).bus.ppu.bus.mapper.spec_battery_backed() == old(
                self,
            ).bus.ppu.bus.mapper.spec_battery_backed(),
            final(self).cycle_accurate == old(self).cycle_accurate,
            final(self).pc == old(self).pc,
    {
        self.region = region;
        self.bus.ppu.set_region(region);
        self.bus.ppu.bus.set_region(region);
    }
}

/// The one-instruction transition relation of the processor: everything
/// [`Cpu::clock`] guarantees of a single step, as a predicate over the
/// state before, the state after, and the elapsed cycles.  A corrupted
/// processor steps to itself with 0 cycles; a clean one corrupts exactly
/// when the opcode fetched at its program counter is reserved/illegal,
/// costs 2 to 4 cycles otherwise, and drives the picture unit's beam
/// three dots per cycle with the exact frame carry.
pub open spec fn spec_step_rel(pre: Cpu, post: Cpu, cycles: usize) -> bool {
    if pre.corrupted {
        &&& post == pre
        &&& cycles == 0
    } else {
        &&& post.spec_cart_unchanged(pre)
        &&& post.corrupted == !spec_opcode_supported(pre.bus.spec_peek(pre.pc))
        &&& (post.corrupted ==> cycles == 0)
        &&& (!post.corrupted ==> 2 <= cycles <= MAX_INSTR_CYCLES)
        &&& (pre.bus.ppu.spec_pos() + 3 * cycles < pre.bus.ppu.spec_frame_dots() ==> {
            &&& post.bus.ppu.frame == pre.bus.ppu.frame
            &&& post.bus.ppu.spec_pos() == pre.bus.ppu.spec_pos() + 3 * cycles
        })
        &&& (pre.bus.ppu.spec_pos() + 3 * cycles >= pre.bus.ppu.spec_frame_dots() ==> {
            &&& post.bus.ppu.frame == (if pre.bus.ppu.frame < u32::MAX {
                (pre.bus.ppu.frame + 1) as u32
            } else {
                u32::MAX
            })
            &&& post.bus.ppu.spec_pos() == pre.bus.ppu.spec_pos() + 3 * cycles
                - pre.bus.ppu.spec_frame_dots()
        })
    }
}

/// The processor state `post` is reached from `pre` by running exactly
/// `n` instructions whose cycle counts sum to `total`.  This is what ties
/// a multi-instruction stepping primitive's outcome to the machine's
/// actual run: no final state is admissible unless a chain of real
/// instruction steps produces it.
pub open spec fn spec_runs_to(pre: Cpu, post: Cpu, total: int, n: nat) -> bool
    decreases n,
{
    if n == 0 {
        &&& post == pre
        &&& total == 0
    } else {
        exists|mid: Cpu, c: usize|
            {
                &&& #[trigger] spec_step_rel(mid, post, c)
                &&& spec_runs_to(pre, mid, total - c, (n - 1) as nat)
            }
    }
}

/// The state `post` is reached from `pre` by some finite run whose
/// cycles sum to `total`.
pub open spec fn spec_runs_to_some(pre: Cpu, post: Cpu, total: int) -> bool {
    exists|n: nat| spec_runs_to(pre, post, total, n)
}

/// The state `post` is reached from `pre` by some finite run.
pub open spec fn spec_reachable(pre: Cpu, post: Cpu) -> bool {
    exists|n: nat, t: int| spec_runs_to(pre, post, t, n)
}

/// Chain one more instruction onto a run.
pub proof fn lemma_runs_to_step(pre: Cpu, mid: Cpu, post: Cpu, total: int, c: usize, n: nat)
    requires
        spec_runs_to(pre, mid, total, n),
        spec_step_rel(mid, post, c),
    ensures
        spec_runs_to(pre, post, total + c, (n + 1) as nat),
{
    assert(spec_runs_to(pre, mid, (total + c) - c, n));
}

} // verus!
