//! The control deck: the top-level orchestrator of the console.
//!
//! The deck owns the processor (and transitively the buses, the cartridge
//! mapper and the picture and audio units), exposes the stepping
//! primitives that drive playback — one instruction, a duration, one
//! frame, one scanline — together with the cartridge lifecycle and the
//! runtime configuration surface.  A corrupted processor is the only
//! fatal condition in the stepping path: every primitive keeps failing
//! until a reset, and none of them ever steps a corrupted processor
//! further.

use vstd::prelude::*;
use crate::apu::{Apu, Channel};
use crate::bus::Bus;
use crate::cart::Cart;
use crate::cart::{spec_rom_error, spec_rom_mirroring, spec_rom_prg, spec_rom_region,
    spec_rom_valid};
use crate::common::{Clock, NesRegion, RamState, Regional, Reset, ResetKind};
use crate::cpu::{lemma_runs_to_step, spec_reachable, spec_runs_to, spec_runs_to_some,
    spec_step_rel, Cpu, MAX_INSTR_CYCLES};
use crate::errors::{CpuCorrupted, GenieError, RomError};
use crate::genie::{spec_genie_code_valid, spec_valid_code_texts, GenieCode};
use crate::input::{FourPlayer, Joypad, JoypadBtn, Player};
use crate::mapper::Mapper;
use crate::ppu::Ppu;
use crate::video::{Video, VideoFilter};

verus! {

/// The accumulator of `clock_micros` counts in millionths of a cycle.
pub const CYCLE_MICRO: i64 = 1_000_000;

/// Construction-time configuration of a deck.  Every entry can also be
/// changed later through the deck's setters, which propagate immediately
/// to the owned subsystems.
#[must_use]
pub struct Config {
    pub filter: VideoFilter,
    pub region: NesRegion,
    pub ram_state: RamState,
    pub four_player: FourPlayer,
    pub zapper: bool,
    pub genie_codes: Vec<String>,
}

impl Default for Config {
    /// NTSC, zero-filled RAM, the plain pixel filter, no peripherals and
    /// no cheat codes.
    fn default() -> (r: Self)
        ensures
            r.filter == VideoFilter::Pixellate,
            r.region == NesRegion::Ntsc,
            r.ram_state == RamState::AllZeros,
            r.four_player == FourPlayer::Disabled,
            r.zapper == false,
            r.genie_codes@.len() == 0,
    {
        Config {
            filter: VideoFilter::Pixellate,
            region: NesRegion::Ntsc,
            ram_state: RamState::AllZeros,
            four_player: FourPlayer::Disabled,
            zapper: false,
            genie_codes: Vec::new(),
        }
    }
}

/// The console's control deck.
#[must_use]
pub struct ControlDeck {
    pub running: bool,
    pub video: Video,
    pub loaded_rom: Option<String>,
    /// Leftover duration budget of `clock_micros`, in millionths of a
    /// cycle; never positive between calls.
    pub cycles_remaining: i64,
    pub cpu: Cpu,
}

impl ControlDeck {
    /// Structural invariant: the owned subsystems are well formed and a
    /// cartridge is present exactly when a ROM identity is recorded.
    pub open spec fn wf(self) -> bool {
        &&& self.cpu.wf()
        &&& self.video.wf()
        &&& (self.loaded_rom is Some <==> self.cpu.bus.ppu.bus.mapper.spec_is_loaded())
    }

    /// Between calls the leftover duration budget is never positive and
    /// lags by less than one instruction's worth of cycles.
    pub open spec fn spec_budget_ok(self) -> bool {
        -(MAX_INSTR_CYCLES as int) * (CYCLE_MICRO as int) < self.cycles_remaining <= 0
    }

    /// The cartridge, configuration and recorded ROM identity agree with
    /// `other`; stepping primitives never change them.
    pub open spec fn spec_session_unchanged(self, other: ControlDeck) -> bool {
        &&& self.loaded_rom == other.loaded_rom
        &&& self.running == other.running
        &&& self.video.filter == other.video.filter
        &&& self.cpu.spec_cart_unchanged(other.cpu)
    }

    /// A deck with the default configuration.
    pub fn new() -> (r: ControlDeck)
        ensures
            r.wf(),
            r.running == false,
            r.loaded_rom is None,
            r.cycles_remaining == 0,
            r.cpu.region == NesRegion::Ntsc,
            r.cpu.corrupted == false,
            r.cpu.bus.genie_codes@.len() == 0,
    {
        Self::with_config(Config::default())
    }

    /// A deck configured by `config`.  The configured cheat codes are
    /// registered in order; malformed ones are skipped, as registration
    /// failures are non-fatal.
    pub fn with_config(config: Config) -> (r: ControlDeck)
        ensures
            r.wf(),
            r.running == false,
            r.loaded_rom is None,
            r.cycles_remaining == 0,
            r.cpu.region == config.region,
            r.cpu.corrupted == false,
            r.video.filter == config.filter,
            r.cpu.bus.ram_state == config.ram_state,
            r.cpu.bus.four_player == config.four_player,
            r.cpu.bus.zapper.connected == config.zapper,
            r.cpu.bus.genie_codes@.len() == spec_valid_code_texts(config.genie_codes@).len(),
            forall|i: int|
                0 <= i < r.cpu.bus.genie_codes@.len() ==> {
                    &&& (#[trigger] r.cpu.bus.genie_codes@[i]).wf()
                    &&& r.cpu.bus.genie_codes@[i].spec_code() == spec_valid_code_texts(
                        config.genie_codes@,
                    )[i]
                },
    {
        let mut cpu = Cpu::new(Bus::new(config.ram_state));
        cpu.set_region(config.region);
        cpu.bus.four_player = config.four_player;
        cpu.bus.zapper.set_connected(config.zapper);
        let n = config.genie_codes.len();
        let mut k: usize = 0;
        while k < n
            invariant
                cpu.wf(),
                n == config.genie_codes@.len(),
                k <= n,
                cpu.bus.genie_codes@.len() == spec_valid_code_texts(
                    config.genie_codes@.take(k as int),
                ).len(),
                forall|i: int|
                    0 <= i < cpu.bus.genie_codes@.len() ==> {
                        &&& (#[trigger] cpu.bus.genie_codes@[i]).wf()
                        &&& cpu.bus.genie_codes@[i].spec_code() == spec_valid_code_texts(
                            config.genie_codes@.take(k as int),
                        )[i]
                    },
                cpu.region == config.region,
                cpu.corrupted == false,
                cpu.bus.ram_state == config.ram_state,
                cpu.bus.four_player == config.four_player,
                cpu.bus.zapper.connected == config.zapper,
                !cpu.bus.ppu.bus.mapper.spec_is_loaded(),
            decreases n - k,
        {
            proof {
                assert(config.genie_codes@.take(k + 1).drop_last() =~= config.genie_codes@.take(
                    k as int,
                ));
                assert(config.genie_codes@.take(k + 1).last() == config.genie_codes@[k as int]);
            }
            let code = config.genie_codes[k].clone();
            match GenieCode::new(code) {
                Ok(decoded) => {
                    cpu.bus.genie_codes.push(decoded);
                },
                Err(_) => {},
            }
            k = k + 1;
        }
        proof {
            assert(config.genie_codes@.take(n as int) =~= config.genie_codes@);
        }
        let mut video = Video::new();
        video.set_filter(config.filter);
        ControlDeck { running: false, video, loaded_rom: None, cycles_remaining: 0, cpu }
    }

    /// Load a cartridge image.
    ///
    /// The image is decoded before anything is touched: a rejected image
    /// returns its [`RomError`] and leaves the deck — including any
    /// previously loaded cartridge and its running state — exactly as it
    /// was.  On success the previous cartridge is replaced, the region
    /// follows the image's header, a hard reset brings the console to its
    /// power-on state, and the deck is running.
    pub fn load_rom(&mut self, name: String, rom: Vec<u8>) -> (r: Result<(), RomError>)
        requires
            old(self).wf(),
        ensures
            final(self).wf(),
            r is Ok <==> spec_rom_valid(rom@),
            r is Err ==> r == Result::<(), RomError>::Err(spec_rom_error(rom@)) && *final(self)
                == *old(self),
            r is Ok ==> {
                &&& final(self).loaded_rom matches Some(n) && n@ == name@
                &&& final(self).running == true
                &&& final(self).cpu.corrupted == false
                &&& final(self).cpu.region == spec_rom_region(rom@)
                &&& final(self).cpu.bus.ppu.frame == 0
                &&& final(self).cpu.bus.prg_rom@ == spec_rom_prg(rom@)
                &&& final(self).cpu.bus.ppu.bus.mirror_shift == spec_rom_mirroring(
                    rom@,
                ).spec_shift()
                &&& final(self).cpu.pc == final(self).cpu.spec_reset_vector()
                &&& final(self).cpu.bus.genie_codes@ == old(self).cpu.bus.genie_codes@
                &&& final(self).cycles_remaining == old(self).cycles_remaining
            },
    {
        let cart = match Cart::from_rom(name, rom, self.cpu.bus.ram_state) {
            Ok(cart) => cart,
            Err(e) => {
                return Err(e);
            },
        };
        let rom_name = cart.name.clone();
        self.set_region(cart.region());
        self.cpu.load_cart(cart);
        self.cpu.reset(ResetKind::Hard);
        self.running = true;
        self.loaded_rom = Some(rom_name);
        Ok(())
    }

    /// Install a whole processor snapshot (for example a restored save
    /// state).  The snapshot must carry a cartridge exactly when the deck
    /// records a loaded ROM.
    pub fn load_cpu(&mut self, cpu: Cpu)
        requires
            old(self).wf(),
            cpu.wf(),
            cpu.bus.ppu.bus.mapper.spec_is_loaded() <==> old(self).loaded_rom is Some,
        ensures
            final(self).wf(),
            final(self).cpu == cpu,
            final(self).loaded_rom == old(self).loaded_rom,
            final(self).running == old(self).running,
            final(self).video == old(self).video,
            final(self).cycles_remaining == old(self).cycles_remaining,
    {
        self.cpu = cpu;
    }

    /// Eject the cartridge: the deck stops running and the ROM identity
    /// is cleared.  Battery-backed RAM is read through [`Self::sram`]
    /// before or after; persistence is the caller's responsibility.  The
    /// call is idempotent.
    pub fn unload_rom(&mut self)
        requires
            old(self).wf(),
        ensures
            final(self).wf(),
            final(self).loaded_rom is None,
            final(self).running == false,
            !final(self).cpu.bus.ppu.bus.mapper.spec_is_loaded(),
            final(self).cpu.bus.genie_codes@ == old(self).cpu.bus.genie_codes@,
            final(self).cycles_remaining == old(self).cycles_remaining,
            final(self).cpu.bus.sram@ == old(self).cpu.bus.sram@,
    {
        self.cpu.unload_cart();
        self.loaded_rom = None;
        self.running = false;
    }

    /// The name of the loaded cartridge, absent when none is loaded.
    pub fn loaded_rom(&self) -> (r: &Option<String>)
        ensures
            *r == self.loaded_rom,
    {
        &self.loaded_rom
    }

    /// Whether the loaded cartridge carries battery-backed program RAM.
    pub fn cart_battery_backed(&self) -> (r: bool)
        ensures
            r == self.cpu.bus.ppu.bus.mapper.spec_battery_backed(),
    {
        self.cpu.bus.ppu.bus.mapper.battery_backed()
    }

    /// Battery-backable program RAM, for persistence.
    pub fn sram(&self) -> (r: &Vec<u8>)
        ensures
            r@ == self.cpu.bus.sram@,
    {
        &self.cpu.bus.sram
    }

    /// Restore battery-backed program RAM from `sram`.  Only an image of
    /// the exact hardware size is accepted; anything else is ignored.
    pub fn load_sram(&mut self, sram: Vec<u8>)
        requires
            old(self).wf(),
        ensures
            final(self).wf(),
            final(self).cpu.bus.sram@ == (if sram@.len() == 0x2000 {
                sram@
            } else {
                old(self).cpu.bus.sram@
            }),
            final(self).spec_session_unchanged(*old(self)),
            final(self).cycles_remaining == old(self).cycles_remaining,
    {
        if sram.len() == 0x2000 {
            self.cpu.bus.sram = sram;
        }
    }

    /// Console work RAM.
    pub fn wram(&self) -> (r: &Vec<u8>)
        ensures
            r@ == self.cpu.bus.wram@,
    {
        &self.cpu.bus.wram
    }

    /// Apply the configured video filter to the picture unit's current
    /// frame and return the RGBA bytes.  The slice is regenerated on
    /// every call; callers copy it before clocking further.
    pub fn frame_buffer(&mut self) -> (r: &Vec<u8>)
        requires
            old(self).wf(),
        ensures
            final(self).wf(),
            r@.len() == 4 * 61440,
            forall|i: int|
                0 <= i < r@.len() ==> r@[i] == crate::video::spec_rgba_byte(
                    old(self).cpu.bus.ppu.frame_buffer@,
                    i,
                ),
            final(self).cpu == old(self).cpu,
            final(self).loaded_rom == old(self).loaded_rom,
            final(self).running == old(self).running,
            final(self).cycles_remaining == old(self).cycles_remaining,
            final(self).video.filter == old(self).video.filter,
    {
        let frame_number = self.cpu.bus.ppu.frame;
        self.video.apply_filter(&self.cpu.bus.ppu.frame_buffer, frame_number);
        self.video.output()
    }

    /// The picture unit's completed-frame counter.
    pub fn frame_number(&self) -> (r: u32)
        ensures
            r == self.cpu.bus.ppu.frame,
    {
        self.cpu.bus.ppu.frame
    }

    /// Processor clock rate of the active region, in cycles per second.
    pub fn clock_rate_hz(&self) -> (r: u32)
        ensures
            r == self.cpu.region.spec_clock_rate_hz(),
    {
        self.cpu.region.clock_rate_hz()
    }

    /// Step the deck by exactly one processor instruction.
    ///
    /// The corrupted condition is terminal and never retried silently: a
    /// deck whose processor is corrupted fails without touching anything,
    /// and a step that reaches a reserved/illegal opcode fails after
    /// recording the corruption.  Every failure keeps failing until
    /// [`Reset::reset`] is called.
    pub fn clock_instr(&mut self) -> (r: Result<usize, CpuCorrupted>)
        requires
            old(self).wf(),
        ensures
            final(self).wf(),
            final(self).spec_session_unchanged(*old(self)),
            final(self).cycles_remaining == old(self).cycles_remaining,
            old(self).cpu.corrupted ==> (r is Err && *final(self) == *old(self)),
            r is Err <==> final(self).cpu.corrupted,
            // failure is never fabricated: starting clean, the call fails
            // exactly when the opcode fetched at the program counter is a
            // reserved/illegal one
            !old(self).cpu.corrupted ==> final(self).cpu.corrupted == !crate::cpu::spec_opcode_supported(
                old(self).cpu.bus.spec_peek(old(self).cpu.pc),
            ),
            // the outcome is exactly one step of the machine
            r matches Ok(cycles) ==> spec_step_rel(old(self).cpu, final(self).cpu, cycles),
            r is Err ==> spec_step_rel(old(self).cpu, final(self).cpu, 0),
            r is Err ==> {
                &&& final(self).cpu.bus.ppu.frame == old(self).cpu.bus.ppu.frame
                &&& final(self).cpu.bus.ppu.spec_pos() == old(self).cpu.bus.ppu.spec_pos()
            },
            r matches Ok(cycles) ==> {
                &&& 2 <= cycles <= MAX_INSTR_CYCLES
                &&& (old(self).cpu.bus.ppu.spec_pos() + 3 * cycles < old(
                    self,
                ).cpu.bus.ppu.spec_frame_dots() ==> final(self).cpu.bus.ppu.frame == old(
                    self,
                ).cpu.bus.ppu.frame && final(self).cpu.bus.ppu.spec_pos() == old(
                    self,
                ).cpu.bus.ppu.spec_pos() + 3 * cycles)
                &&& (old(self).cpu.bus.ppu.spec_pos() + 3 * cycles >= old(
                    self,
                ).cpu.bus.ppu.spec_frame_dots() ==> final(self).cpu.bus.ppu.frame == (if old(
                    self,
                ).cpu.bus.ppu.frame < u32::MAX {
                    (old(self).cpu.bus.ppu.frame + 1) as u32
                } else {
                    u32::MAX
                }) && final(self).cpu.bus.ppu.spec_pos() == old(self).cpu.bus.ppu.spec_pos() + 3
                    * cycles - old(self).cpu.bus.ppu.spec_frame_dots())
            },
    {
        let cycles = self.cpu.clock();
        if self.cpu.corrupted() {
            Err(CpuCorrupted)
        } else {
            Ok(cycles)
        }
    }

    /// Step the deck for a duration given in microseconds.
    ///
    /// The duration is converted into a cycle budget at the region's
    /// clock rate; the budget's fractional remainder is carried across
    /// calls in `cycles_remaining`, so repeated short calls stay
    /// phase-accurate: the cycles run satisfy, exactly,
    /// `1_000_000 * cycles == carried-in budget + rate * micros - carried-out budget`.
    /// A failed step reports the corruption and discards the remaining
    /// budget (stepping cannot resume without a reset); a deck that is
    /// already corrupted is never stepped at all.
    pub fn clock_micros(&mut self, micros: u64) -> (r: Result<usize, CpuCorrupted>)
        requires
            old(self).wf(),
            old(self).spec_budget_ok(),
            micros <= 1_000_000_000,
        ensures
            final(self).wf(),
            final(self).spec_budget_ok(),
            final(self).spec_session_unchanged(*old(self)),
            old(self).cpu.corrupted ==> (r is Err && final(self).cpu == old(self).cpu),
            r matches Ok(cycles) ==> (CYCLE_MICRO as int) * cycles == old(self).cycles_remaining
                + (old(self).cpu.region.spec_clock_rate_hz() as int) * micros - final(
                self).cycles_remaining,
            r is Err ==> final(self).cpu.corrupted && final(self).cycles_remaining == 0,
            r is Ok ==> !final(self).cpu.corrupted && !old(self).cpu.corrupted,
            // the final state is reached by actually running the machine,
            // and a reported cycle count is the run's exact sum
            r matches Ok(cycles) ==> spec_runs_to_some(old(self).cpu, final(self).cpu, cycles as int),
            r is Err ==> spec_reachable(old(self).cpu, final(self).cpu),
    {
        if self.cpu.corrupted() {
            self.cycles_remaining = 0;
            proof {
                assert(spec_runs_to(old(self).cpu, self.cpu, 0, 0));
            }
            return Err(CpuCorrupted);
        }
        let rate = self.cpu.region.clock_rate_hz();
        let ghost budget0: int = old(self).cycles_remaining + (
        old(self).cpu.region.spec_clock_rate_hz() as int) * micros;
        proof {
            assert(0 <= (rate as int) * (micros as int) <= 1_789_773 * 1_000_000_000)
                by (nonlinear_arith)
                requires
                    rate <= 1_789_773,
                    0 <= micros <= 1_000_000_000,
            ;
        }
        self.cycles_remaining = self.cycles_remaining + (rate as i64) * (micros as i64);
        let mut total: usize = 0;
        let ghost mut steps: nat = 0;
        while self.cycles_remaining > 0
            invariant
                self.wf(),
                self.cycles_remaining > -(MAX_INSTR_CYCLES as int) * (CYCLE_MICRO as int),
                self.cycles_remaining == budget0 - (CYCLE_MICRO as int) * total,
                -(MAX_INSTR_CYCLES as int) * (CYCLE_MICRO as int) < budget0
                    <= 2_000_000_000_000_000,
                self.spec_session_unchanged(*old(self)),
                old(self).cpu.corrupted == false,
                self.cpu.corrupted == false,
                spec_runs_to(old(self).cpu, self.cpu, total as int, steps),
            decreases
                    (if self.cycles_remaining > 0 {
                        1int
                    } else {
                        0int
                    }),
                    self.cycles_remaining,
        {
            let ghost mid = self.cpu;
            let ghost t0: int = total as int;
            match self.clock_instr() {
                Ok(cycles) => {
                    proof {
                        lemma_runs_to_step(old(self).cpu, mid, self.cpu, t0, cycles, steps);
                        steps = steps + 1;
                    }
                    total = total + cycles;
                    self.cycles_remaining = self.cycles_remaining - (cycles as i64) * CYCLE_MICRO;
                },
                Err(e) => {
                    self.cycles_remaining = 0;
                    proof {
                        lemma_runs_to_step(old(self).cpu, mid, self.cpu, t0, 0, steps);
                        assert(spec_runs_to(old(self).cpu, self.cpu, t0 + 0, (steps + 1) as nat));
                    }
                    return Err(e);
                },
            }
        }
        proof {
            assert(spec_runs_to(old(self).cpu, self.cpu, total as int, steps));
        }
        Ok(total)
    }

    /// Step the deck until the picture unit finishes the current frame:
    /// the frame counter advances by exactly one and the elapsed cycle
    /// count is positive.  This is the primary primitive for real-time
    /// playback.
    pub fn clock_frame(&mut self) -> (r: Result<usize, CpuCorrupted>)
        requires
            old(self).wf(),
            old(self).cpu.bus.ppu.frame < u32::MAX,
        ensures
            final(self).wf(),
            final(self).spec_session_unchanged(*old(self)),
            final(self).cycles_remaining == old(self).cycles_remaining,
            old(self).cpu.corrupted ==> (r is Err && *final(self) == *old(self)),
            r matches Ok(cycles) ==> final(self).cpu.bus.ppu.frame == old(self).cpu.bus.ppu.frame
                + 1 && cycles > 0,
            r is Err ==> final(self).cpu.corrupted,
            r is Ok ==> final(self).cpu.corrupted == old(self).cpu.corrupted,
            // the final state is reached by actually running the machine,
            // and a reported cycle count is the run's exact sum
            r matches Ok(cycles) ==> spec_runs_to_some(old(self).cpu, final(self).cpu, cycles as int),
            r is Err ==> spec_reachable(old(self).cpu, final(self).cpu),
    {
        let start = self.cpu.bus.ppu.frame;
        let ghost pos0: int = old(self).cpu.bus.ppu.spec_pos();
        let ghost fd: int = old(self).cpu.bus.ppu.spec_frame_dots();
        let mut total: usize = 0;
        let ghost mut steps: nat = 0;
        while self.cpu.bus.ppu.frame == start
            invariant
                self.wf(),
                self.spec_session_unchanged(*old(self)),
                self.cycles_remaining == old(self).cycles_remaining,
                start == old(self).cpu.bus.ppu.frame,
                start < u32::MAX,
                fd == self.cpu.bus.ppu.spec_frame_dots(),
                self.cpu.bus.ppu.frame == start || self.cpu.bus.ppu.frame == start + 1,
                89342 <= fd <= 106392,
                0 <= pos0 < fd,
                old(self).cpu.corrupted ==> *self == *old(self),
                spec_runs_to(old(self).cpu, self.cpu, total as int, steps),
                self.cpu.bus.ppu.frame == start ==> 3 * total == self.cpu.bus.ppu.spec_pos()
                    - pos0,
                self.cpu.bus.ppu.frame == start + 1 ==> total > 0 && !self.cpu.corrupted,
            decreases
                    (if self.cpu.bus.ppu.frame == start {
                        1int
                    } else {
                        0int
                    }),
                    fd - (self.cpu.bus.ppu.spec_pos() - pos0),
        {
            let ghost mid = self.cpu;
            let ghost t0: int = total as int;
            match self.clock_instr() {
                Ok(cycles) => {
                    proof {
                        lemma_runs_to_step(old(self).cpu, mid, self.cpu, t0, cycles, steps);
                        steps = steps + 1;
                    }
                    total = total + cycles;
                },
                Err(e) => {
                    proof {
                        lemma_runs_to_step(old(self).cpu, mid, self.cpu, t0, 0, steps);
                        assert(spec_runs_to(old(self).cpu, self.cpu, t0 + 0, (steps + 1) as nat));
                    }
                    return Err(e);
                },
            }
        }
        proof {
            assert(spec_runs_to(old(self).cpu, self.cpu, total as int, steps));
        }
        Ok(total)
    }

    /// Step the deck until the picture unit moves to another scanline;
    /// used for fine-grained instrumentation.
    pub fn clock_scanline(&mut self) -> (r: Result<usize, CpuCorrupted>)
        requires
            old(self).wf(),
        ensures
            final(self).wf(),
            final(self).spec_session_unchanged(*old(self)),
            final(self).cycles_remaining == old(self).cycles_remaining,
            old(self).cpu.corrupted ==> (r is Err && *final(self) == *old(self)),
            r matches Ok(cycles) ==> final(self).cpu.bus.ppu.scanline != old(
                self,
            ).cpu.bus.ppu.scanline && cycles > 0,
            r is Err ==> final(self).cpu.corrupted,
            r is Ok ==> final(self).cpu.corrupted == old(self).cpu.corrupted,
            // the final state is reached by actually running the machine,
            // and a reported cycle count is the run's exact sum
            r matches Ok(cycles) ==> spec_runs_to_some(old(self).cpu, final(self).cpu, cycles as int),
            r is Err ==> spec_reachable(old(self).cpu, final(self).cpu),
    {
        let start = self.cpu.bus.ppu.scanline;
        let ghost pos0: int = old(self).cpu.bus.ppu.spec_pos();
        let ghost frame0: int = old(self).cpu.bus.ppu.frame as int;
        let ghost fd: int = old(self).cpu.bus.ppu.spec_frame_dots();
        let mut total: usize = 0;
        let ghost mut steps: nat = 0;
        while self.cpu.bus.ppu.scanline == start
            invariant
                self.wf(),
                self.spec_session_unchanged(*old(self)),
                self.cycles_remaining == old(self).cycles_remaining,
                start == old(self).cpu.bus.ppu.scanline,
                fd == self.cpu.bus.ppu.spec_frame_dots(),
                89342 <= fd <= 106392,
                0 <= pos0 < fd,
                pos0 == start * 341 + old(self).cpu.bus.ppu.dot,
                old(self).cpu.bus.ppu.dot < 341,
                old(self).cpu.corrupted ==> *self == *old(self),
                spec_runs_to(old(self).cpu, self.cpu, total as int, steps),
                self.cpu.bus.ppu.scanline == start ==> {
                    &&& self.cpu.bus.ppu.frame == frame0
                    &&& 3 * total == self.cpu.bus.ppu.spec_pos() - pos0
                    &&& self.cpu.bus.ppu.spec_pos() - pos0 < 341
                },
                self.cpu.bus.ppu.scanline != start ==> total > 0 && !self.cpu.corrupted,
            decreases
                    (if self.cpu.bus.ppu.scanline == start {
                        1int
                    } else {
                        0int
                    }),
                    341 - self.cpu.bus.ppu.dot,
        {
            let ghost mid = self.cpu;
            let ghost t0: int = total as int;
            match self.clock_instr() {
                Ok(cycles) => {
                    proof {
                        lemma_runs_to_step(old(self).cpu, mid, self.cpu, t0, cycles, steps);
                        steps = steps + 1;
                    }
                    total = total + cycles;
                },
                Err(e) => {
                    proof {
                        lemma_runs_to_step(old(self).cpu, mid, self.cpu, t0, 0, steps);
                        assert(spec_runs_to(old(self).cpu, self.cpu, t0 + 0, (steps + 1) as nat));
                    }
                    return Err(e);
                },
            }
        }
        proof {
            assert(spec_runs_to(old(self).cpu, self.cpu, total as int, steps));
        }
        Ok(total)
    }

    /// Whether the processor is in the terminal corrupted state.
    pub fn cpu_corrupted(&self) -> (r: bool)
        ensures
            r == self.cpu.corrupted,
    {
        self.cpu.corrupted
    }

    /// The processor.
    pub fn cpu(&self) -> (r: &Cpu)
        ensures
            r == &self.cpu,
    {
        &self.cpu
    }

    /// The picture unit.
    pub fn ppu(&self) -> (r: &Ppu)
        ensures
            r == &self.cpu.bus.ppu,
    {
        &self.cpu.bus.ppu
    }

    /// The audio unit's control state.
    pub fn apu(&self) -> (r: &Apu)
        ensures
            r == &self.cpu.bus.apu,
    {
        &self.cpu.bus.apu
    }

    /// The cartridge mapper.
    pub fn mapper(&self) -> (r: &Mapper)
        ensures
            r == &self.cpu.bus.ppu.bus.mapper,
    {
        &self.cpu.bus.ppu.bus.mapper
    }

    /// The four-player adapter mode.
    pub fn four_player(&self) -> (r: FourPlayer)
        ensures
            r == self.cpu.bus.four_player,
    {
        self.cpu.bus.four_player
    }

    /// Select the four-player adapter mode, effective immediately.
    pub fn set_four_player(&mut self, four_player: FourPlayer)
        requires
            old(self).wf(),
        ensures
            final(self).wf(),
            final(self).cpu.bus.four_player == four_player,
            final(self).loaded_rom == old(self).loaded_rom,
            final(self).running == old(self).running,
            final(self).cycles_remaining == old(self).cycles_remaining,
    {
        self.cpu.bus.four_player = four_player;
    }

    /// Select cycle-accurate stepping (kept for configuration parity; the
    /// implemented subset is always instruction-stepped).
    pub fn set_cycle_accurate(&mut self, enabled: bool)
        requires
            old(self).wf(),
        ensures
            final(self).wf(),
            final(self).cpu.cycle_accurate == enabled,
            final(self).loaded_rom == old(self).loaded_rom,
            final(self).cycles_remaining == old(self).cycles_remaining,
    {
        self.cpu.cycle_accurate = enabled;
    }

    /// The joypad in `slot`.
    pub fn joypad(&self, slot: Player) -> (r: Joypad)
        requires
            self.wf(),
        ensures
            r == self.cpu.bus.joypads@[slot.spec_index() as int],
    {
        self.cpu.bus.joypads[slot.index()]
    }

    /// Press or release one button on the joypad in `slot`.
    pub fn set_joypad_button(&mut self, slot: Player, btn: JoypadBtn, pressed: bool)
        requires
            old(self).wf(),
        ensures
            final(self).wf(),
            final(self).cpu.bus.joypads@ == old(self).cpu.bus.joypads@.update(
                slot.spec_index() as int,
                old(self).cpu.bus.joypads@[slot.spec_index() as int].spec_with_button(
                    btn,
                    pressed,
                ),
            ),
            final(self).spec_session_unchanged(*old(self)),
            final(self).cycles_remaining == old(self).cycles_remaining,
    {
        let i = slot.index();
        let mut pad = self.cpu.bus.joypads[i];
        pad.set_button(btn, pressed);
        self.cpu.bus.joypads.set(i, pad);
    }

    /// Reset the joypad in `slot`: all buttons released.
    pub fn reset_joypad(&mut self, slot: Player)
        requires
            old(self).wf(),
        ensures
            final(self).wf(),
            final(self).cpu.bus.joypads@ == old(self).cpu.bus.joypads@.update(
                slot.spec_index() as int,
                Joypad::spec_idle(),
            ),
            final(self).spec_session_unchanged(*old(self)),
            final(self).cycles_remaining == old(self).cycles_remaining,
    {
        let i = slot.index();
        let mut pad = self.cpu.bus.joypads[i];
        pad.reset(ResetKind::Soft);
        self.cpu.bus.joypads.set(i, pad);
    }

    /// The light gun's aim position.
    pub fn zapper_pos(&self) -> (r: (i32, i32))
        ensures
            r.0 == self.cpu.bus.zapper.x,
            r.1 == self.cpu.bus.zapper.y,
    {
        let zapper = &self.cpu.bus.zapper;
        (zapper.x(), zapper.y())
    }

    /// Pull the light gun's trigger.
    pub fn trigger_zapper(&mut self)
        requires
            old(self).wf(),
        ensures
            final(self).wf(),
            final(self).cpu.bus.zapper.triggered == true,
            final(self).loaded_rom == old(self).loaded_rom,
            final(self).cycles_remaining == old(self).cycles_remaining,
    {
        self.cpu.bus.zapper.trigger();
    }

    /// Aim the light gun at `(x, y)` in frame coordinates.
    pub fn aim_zapper(&mut self, x: i32, y: i32)
        requires
            old(self).wf(),
        ensures
            final(self).wf(),
            final(self).cpu.bus.zapper.x == x,
            final(self).cpu.bus.zapper.y == y,
            final(self).loaded_rom == old(self).loaded_rom,
            final(self).cycles_remaining == old(self).cycles_remaining,
    {
        self.cpu.bus.zapper.aim(x, y);
    }

    /// Select the video post-filter, effective from the next frame.
    pub fn set_filter(&mut self, filter: VideoFilter)
        requires
            old(self).wf(),
        ensures
            final(self).wf(),
            final(self).video.filter == filter,
            final(self).loaded_rom == old(self).loaded_rom,
            final(self).running == old(self).running,
            final(self).cycles_remaining == old(self).cycles_remaining,
            final(self).cpu == old(self).cpu,
    {
        self.video.set_filter(filter);
    }

    /// Connect or disconnect the light gun.
    pub fn connect_zapper(&mut self, enabled: bool)
        requires
            old(self).wf(),
        ensures
            final(self).wf(),
            final(self).cpu.bus.zapper.connected == enabled,
            final(self).loaded_rom == old(self).loaded_rom,
            final(self).cycles_remaining == old(self).cycles_remaining,
    {
        self.cpu.bus.zapper.set_connected(enabled);
    }

    /// Register a cheat code.
    ///
    /// Succeeds exactly on well-formed codes (6 or 8 characters of the
    /// fixed alphabet); the decoded code joins the active set, and when
    /// several active codes target the same address the one registered
    /// last wins.  Rejection is non-fatal and leaves the deck unchanged.
    pub fn add_genie_code(&mut self, genie_code: String) -> (r: Result<(), GenieError>)
        requires
            old(self).wf(),
        ensures
            final(self).wf(),
            r is Ok <==> spec_genie_code_valid(genie_code@),
            r is Err ==> *final(self) == *old(self),
            r is Ok ==> {
                &&& final(self).cpu.bus.genie_codes@.len() == old(self).cpu.bus.genie_codes@.len()
                    + 1
                &&& final(self).cpu.bus.genie_codes@.drop_last() == old(self).cpu.bus.genie_codes@
                &&& final(self).cpu.bus.genie_codes@.last().spec_code() == genie_code@
                &&& final(self).cpu.bus.genie_codes@.last().wf()
            },
            final(self).loaded_rom == old(self).loaded_rom,
            final(self).running == old(self).running,
            final(self).cycles_remaining == old(self).cycles_remaining,
    {
        match GenieCode::new(genie_code) {
            Ok(code) => {
                self.cpu.bus.genie_codes.push(code);
                proof {
                    assert(self.cpu.bus.genie_codes@.drop_last() =~= old(
                        self,
                    ).cpu.bus.genie_codes@);
                }
                Ok(())
            },
            Err(e) => Err(e),
        }
    }

    /// Remove every active cheat code parsed from exactly the text
    /// `genie_code`; other codes stay, in order.
    pub fn remove_genie_code(&mut self, genie_code: &String)
        requires
            old(self).wf(),
        ensures
            final(self).wf(),
            final(self).cpu.bus.genie_codes@ == spec_without_code(
                old(self).cpu.bus.genie_codes@,
                genie_code@,
            ),
            final(self).loaded_rom == old(self).loaded_rom,
            final(self).running == old(self).running,
            final(self).cycles_remaining == old(self).cycles_remaining,
    {
        let ghost codes0: Seq<GenieCode> = old(self).cpu.bus.genie_codes@;
        let mut i: usize = 0;
        let ghost mut j: int = 0;
        while i < self.cpu.bus.genie_codes.len()
            invariant
                old(self).cpu.wf(),
                old(self).video.wf(),
                0 <= j <= codes0.len(),
                self.cpu.bus.genie_codes@ == spec_without_code(codes0.take(j), genie_code@)
                    + codes0.skip(j),
                i == spec_without_code(codes0.take(j), genie_code@).len(),
                self.cpu.bus.wram == old(self).cpu.bus.wram,
                self.cpu.bus.sram == old(self).cpu.bus.sram,
                self.cpu.bus.prg_rom == old(self).cpu.bus.prg_rom,
                self.cpu.bus.ppu == old(self).cpu.bus.ppu,
                self.cpu.bus.apu == old(self).cpu.bus.apu,
                self.cpu.bus.joypads == old(self).cpu.bus.joypads,
                self.cpu.bus.four_player == old(self).cpu.bus.four_player,
                self.cpu.bus.zapper == old(self).cpu.bus.zapper,
                self.cpu.bus.ram_state == old(self).cpu.bus.ram_state,
                self.cpu.bus.open_bus == old(self).cpu.bus.open_bus,
                self.cpu.a == old(self).cpu.a,
                self.cpu.x == old(self).cpu.x,
                self.cpu.y == old(self).cpu.y,
                self.cpu.pc == old(self).cpu.pc,
                self.cpu.zero == old(self).cpu.zero,
                self.cpu.negative == old(self).cpu.negative,
                self.cpu.corrupted == old(self).cpu.corrupted,
                self.cpu.region == old(self).cpu.region,
                self.cpu.cycle_accurate == old(self).cpu.cycle_accurate,
                self.running == old(self).running,
                self.video == old(self).video,
                self.loaded_rom == old(self).loaded_rom,
                self.cycles_remaining == old(self).cycles_remaining,
            decreases codes0.len() - j,
        {
            proof {
                assert(codes0.take(j + 1).drop_last() =~= codes0.take(j));
                assert(codes0.take(j + 1).last() == codes0[j]);
                assert(self.cpu.bus.genie_codes@[i as int] == codes0[j]);
            }
            let matched = self.cpu.bus.genie_codes[i].matches_text(genie_code);
            if matched {
                self.cpu.bus.genie_codes.remove(i);
                proof {
                    assert(self.cpu.bus.genie_codes@ =~= spec_without_code(
                        codes0.take(j + 1),
                        genie_code@,
                    ) + codes0.skip(j + 1));
                }
            } else {
                i = i + 1;
                proof {
                    assert(self.cpu.bus.genie_codes@ =~= spec_without_code(
                        codes0.take(j + 1),
                        genie_code@,
                    ) + codes0.skip(j + 1));
                }
            }
            proof {
                j = j + 1;
            }
        }
        proof {
            assert(codes0.take(codes0.len() as int) =~= codes0);
            assert(self.cpu.bus.genie_codes@ =~= spec_without_code(codes0, genie_code@));
        }
    }

    /// Whether the given audio channel is audible.
    pub fn channel_enabled(&self, channel: Channel) -> (r: bool)
        ensures
            r == self.cpu.bus.apu.spec_channel_enabled(channel),
    {
        self.cpu.bus.apu.channel_enabled(channel)
    }

    /// Flip the audibility of one audio channel.
    pub fn toggle_channel(&mut self, channel: Channel)
        requires
            old(self).wf(),
        ensures
            final(self).wf(),
            final(self).cpu.bus.apu.spec_channel_enabled(channel) == !old(
                self,
            ).cpu.bus.apu.spec_channel_enabled(channel),
            final(self).loaded_rom == old(self).loaded_rom,
            final(self).cycles_remaining == old(self).cycles_remaining,
    {
        self.cpu.bus.apu.toggle_channel(channel);
    }

    /// Whether the deck is running (a cartridge is loaded and reset).
    pub fn is_running(&self) -> (r: bool)
        ensures
            r == self.running,
    {
        self.running
    }
}

/// `codes` with every code parsed from the text `text` removed.
pub open spec fn spec_without_code(codes: Seq<GenieCode>, text: Seq<char>) -> Seq<GenieCode>
    decreases codes.len(),
{
    if codes.len() == 0 {
        codes
    } else {
        let rest = spec_without_code(codes.drop_last(), text);
        if codes.last().spec_code() == text {
            rest
        } else {
            rest.push(codes.last())
        }
    }
}

impl Clock for ControlDeck {
    open spec fn clock_inv(&self) -> bool {
        self.wf()
    }

    /// Step the deck a single processor instruction, reporting the
    /// elapsed cycles (0 when the processor is or becomes corrupted).
    fn clock(&mut self) -> (cycles: usize)
        ensures
            final(self).wf(),
            final(self).spec_session_unchanged(*old(self)),
    {
        self.cpu.clock()
    }
}

impl Regional for ControlDeck {
    open spec fn regional_inv(&self) -> bool {
        self.wf()
    }

    /// The region the deck emulates.
    fn region(&self) -> (r: NesRegion)
        ensures
            r == self.cpu.region,
    {
        self.cpu.region
    }

    /// Switch the deck — processor, picture unit and cartridge mapper —
    /// to `region`, effective immediately: the complete new state is the
    /// old one with exactly the three region fields moved (and the beam
    /// returned to the frame's first dot), so a second identical call
    /// provably changes nothing (see `lemma_set_region_idempotent`).
    fn set_region(&mut self, region: NesRegion)
        ensures
            *final(self) == (ControlDeck {
                cpu: old(self).cpu.spec_with_region(region),
                ..*old(self)
            }),
            final(self).cpu.region == region,
            final(self).cpu.bus.ppu.region == region,
            old(self).cpu.bus.ppu.bus.mapper is Nrom ==> final(
                self).cpu.bus.ppu.bus.mapper.spec_region() == region,
            final(self).cpu.bus.ppu.bus.mapper.spec_map_read_unchanged(
                old(self).cpu.bus.ppu.bus.mapper,
            ),
            final(self).loaded_rom == old(self).loaded_rom,
            final(self).running == old(self).running,
            final(self).cpu.corrupted == old(self).cpu.corrupted,
            final(self).cycles_remaining == old(self).cycles_remaining,
            final(self).cpu.bus.prg_rom@ == old(self).cpu.bus.prg_rom@,
            final(self).cpu.bus.genie_codes@ == old(self).cpu.bus.genie_codes@,
            final(self).cpu.bus.ppu.frame == old(self).cpu.bus.ppu.frame,
            final(self).video.filter == old(self).video.filter,
    {
        self.cpu.set_region(region);
    }
}

/// Switching the region is idempotent: the state one `set_region` call
/// leaves behind is a fixed point of a second call with the same region.
pub proof fn lemma_set_region_idempotent(deck: ControlDeck, region: NesRegion)
    ensures
        deck.cpu.spec_with_region(region).spec_with_region(region) == deck.cpu.spec_with_region(
            region,
        ),
{
}

impl Reset for ControlDeck {
    open spec fn reset_inv(&self) -> bool {
        self.wf()
    }

    /// Reset the console.  The corrupted condition is cleared, the
    /// processor restarts at the reset vector, and the deck is running.
    /// A hard reset re-initializes work RAM under the configured power-on
    /// policy and rewinds the frame counter; a soft reset keeps both.
    /// Neither kind touches the cartridge: the mapper (with its bank
    /// registers), program memory and battery-backed RAM are kept.
    fn reset(&mut self, kind: ResetKind)
        ensures
            final(self).running == true,
            final(self).cpu.corrupted == false,
            final(self).cpu.pc == old(self).cpu.spec_reset_vector(),
            final(self).loaded_rom == old(self).loaded_rom,
            final(self).cpu.bus.genie_codes@ == old(self).cpu.bus.genie_codes@,
            final(self).cpu.bus.ppu.frame == (if kind == ResetKind::Hard {
                0u32
            } else {
                old(self).cpu.bus.ppu.frame
            }),
            final(self).cpu.bus.wram@ == (if kind == ResetKind::Hard {
                crate::cpu::spec_power_on_ram(old(self).cpu.bus.ram_state, 0x0800)
            } else {
                old(self).cpu.bus.wram@
            }),
            final(self).cpu.bus.ppu.bus.mapper == old(self).cpu.bus.ppu.bus.mapper,
            final(self).cpu.bus.prg_rom@ == old(self).cpu.bus.prg_rom@,
            final(self).cpu.bus.sram@ == old(self).cpu.bus.sram@,
            final(self).cpu.bus.ppu.bus.chr@ == old(self).cpu.bus.ppu.bus.chr@,
            final(self).cpu.bus.ppu.bus.mirror_shift == old(self).cpu.bus.ppu.bus.mirror_shift,
            final(self).cpu.region == old(self).cpu.region,
            final(self).cycles_remaining == old(self).cycles_remaining,
            final(self).video == old(self).video,
    {
        self.cpu.reset(kind);
        self.running = true;
    }
}

/// Phase accuracy of duration stepping: two consecutive calls of
/// [`ControlDeck::clock_micros`] run the same cycles as one call with the
/// summed duration, up to the one-instruction granularity the scheduler
/// steps in.  The hypotheses are exactly the budget equations the three
/// calls ensure; the conclusion bounds the difference by one
/// instruction's cycles.
pub proof fn lemma_clock_micros_phase_accuracy(
    rate: int,
    rem0: int,
    m1: int,
    m2: int,
    c1: int,
    c2: int,
    rem1: int,
    rem2: int,
    c_sum: int,
    rem_sum: int,
)
    requires
        (CYCLE_MICRO as int) * c1 == rem0 + rate * m1 - rem1,
        (CYCLE_MICRO as int) * c2 == rem1 + rate * m2 - rem2,
        (CYCLE_MICRO as int) * c_sum == rem0 + rate * (m1 + m2) - rem_sum,
        -(MAX_INSTR_CYCLES as int) * (CYCLE_MICRO as int) < rem2 <= 0,
        -(MAX_INSTR_CYCLES as int) * (CYCLE_MICRO as int) < rem_sum <= 0,
    ensures
        (CYCLE_MICRO as int) * (c1 + c2 - c_sum) == rem_sum - rem2,
        -(MAX_INSTR_CYCLES as int) < c1 + c2 - c_sum < MAX_INSTR_CYCLES as int,
{
    assert(rate * (m1 + m2) == rate * m1 + rate * m2) by (nonlinear_arith);
    let d = c1 + c2 - c_sum;
    assert((CYCLE_MICRO as int) * d == rem_sum - rem2);
    assert(-(MAX_INSTR_CYCLES as int) * (CYCLE_MICRO as int) < rem_sum - rem2 < (
    MAX_INSTR_CYCLES as int) * (CYCLE_MICRO as int));
    assert(d < MAX_INSTR_CYCLES as int && -(MAX_INSTR_CYCLES as int) < d) by (nonlinear_arith)
        requires
            (CYCLE_MICRO as int) * d == rem_sum - rem2,
            -(MAX_INSTR_CYCLES as int) * (CYCLE_MICRO as int) < rem_sum - rem2 < (
            MAX_INSTR_CYCLES as int) * (CYCLE_MICRO as int),
    ;
}

} // verus!
