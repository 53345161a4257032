//! Input peripherals: per-player joypads, the four-player adapter mode,
//! and the optional light-gun peripheral.

use vstd::prelude::*;
use crate::common::ResetKind;

verus! {

/// Controller slot.
#[derive(Debug, Copy, Clone, PartialEq, Eq, Structural, Hash)]
#[must_use]
pub enum Player {
    One,
    Two,
    Three,
    Four,
}

impl Player {
    /// Slot number, 0-based.
    pub open spec fn spec_index(self) -> usize {
        match self {
            Player::One => 0,
            Player::Two => 1,
            Player::Three => 2,
            Player::Four => 3,
        }
    }

    #[verifier::when_used_as_spec(spec_index)]
    pub fn index(self) -> (r: usize)
        ensures
            r == self.spec_index(),
    {
        match self {
            Player::One => 0,
            Player::Two => 1,
            Player::Three => 2,
            Player::Four => 3,
        }
    }
}

/// Four-player adapter mode.
#[derive(Debug, Copy, Clone, PartialEq, Eq, Structural, Hash)]
#[must_use]
pub enum FourPlayer {
    Disabled,
    FourScore,
    Satellite,
}

impl Default for FourPlayer {
    /// Four-player adapters are disabled by default.
    fn default() -> (r: Self)
        ensures
            r == FourPlayer::Disabled,
    {
        FourPlayer::Disabled
    }
}

/// One joypad button.  The turbo variants stand for the self-repeating
/// A and B buttons of aftermarket pads.
#[derive(Debug, Copy, Clone, PartialEq, Eq, Structural, Hash)]
#[must_use]
pub enum JoypadBtn {
    A,
    B,
    Select,
    Start,
    Up,
    Down,
    Left,
    Right,
    TurboA,
    TurboB,
}

/// One standard controller: the pressed state of its buttons and the
/// serial shift register the console reads it through.  Writing a strobe
/// latches the buttons; with the strobe released, consecutive reads report
/// A, B, Select, Start, Up, Down, Left, Right, then all-ones.
#[derive(Debug, Copy, Clone, PartialEq, Eq, Structural, Hash)]
#[must_use]
pub struct Joypad {
    pub a: bool,
    pub b: bool,
    pub select: bool,
    pub start: bool,
    pub up: bool,
    pub down: bool,
    pub left: bool,
    pub right: bool,
    pub turbo_a: bool,
    pub turbo_b: bool,
    pub strobe: bool,
    pub index: u8,
}

impl Joypad {
    /// A pad with nothing pressed.
    pub fn new() -> (r: Joypad)
        ensures
            r == Joypad::spec_idle(),
    {
        Joypad {
            a: false,
            b: false,
            select: false,
            start: false,
            up: false,
            down: false,
            left: false,
            right: false,
            turbo_a: false,
            turbo_b: false,
            strobe: false,
            index: 0,
        }
    }

    /// The all-released pad.
    pub open spec fn spec_idle() -> Joypad {
        Joypad {
            a: false,
            b: false,
            select: false,
            start: false,
            up: false,
            down: false,
            left: false,
            right: false,
            turbo_a: false,
            turbo_b: false,
            strobe: false,
            index: 0,
        }
    }

    /// Pressed state of `btn`.
    pub open spec fn spec_button(self, btn: JoypadBtn) -> bool {
        match btn {
            JoypadBtn::A => self.a,
            JoypadBtn::B => self.b,
            JoypadBtn::Select => self.select,
            JoypadBtn::Start => self.start,
            JoypadBtn::Up => self.up,
            JoypadBtn::Down => self.down,
            JoypadBtn::Left => self.left,
            JoypadBtn::Right => self.right,
            JoypadBtn::TurboA => self.turbo_a,
            JoypadBtn::TurboB => self.turbo_b,
        }
    }

    /// The pad with `btn` forced to `pressed` and all else equal.
    pub open spec fn spec_with_button(self, btn: JoypadBtn, pressed: bool) -> Joypad {
        match btn {
            JoypadBtn::A => Joypad { a: pressed, ..self },
            JoypadBtn::B => Joypad { b: pressed, ..self },
            JoypadBtn::Select => Joypad { select: pressed, ..self },
            JoypadBtn::Start => Joypad { start: pressed, ..self },
            JoypadBtn::Up => Joypad { up: pressed, ..self },
            JoypadBtn::Down => Joypad { down: pressed, ..self },
            JoypadBtn::Left => Joypad { left: pressed, ..self },
            JoypadBtn::Right => Joypad { right: pressed, ..self },
            JoypadBtn::TurboA => Joypad { turbo_a: pressed, ..self },
            JoypadBtn::TurboB => Joypad { turbo_b: pressed, ..self },
        }
    }

    /// Press or release `btn`.
    #[verifier::rlimit(50)]
    pub fn set_button(&mut self, btn: JoypadBtn, pressed: bool)
        ensures
            *final(self) == old(self).spec_with_button(btn, pressed),
    {
        match btn {
            JoypadBtn::A => self.a = pressed,
            JoypadBtn::B => self.b = pressed,
            JoypadBtn::Select => self.select = pressed,
            JoypadBtn::Start => self.start = pressed,
            JoypadBtn::Up => self.up = pressed,
            JoypadBtn::Down => self.down = pressed,
            JoypadBtn::Left => self.left = pressed,
            JoypadBtn::Right => self.right = pressed,
            JoypadBtn::TurboA => self.turbo_a = pressed,
            JoypadBtn::TurboB => self.turbo_b = pressed,
        }
    }

    /// Whether `btn` is currently pressed.
    pub fn button(&self, btn: JoypadBtn) -> (r: bool)
        ensures
            r == self.spec_button(btn),
    {
        match btn {
            JoypadBtn::A => self.a,
            JoypadBtn::B => self.b,
            JoypadBtn::Select => self.select,
            JoypadBtn::Start => self.start,
            JoypadBtn::Up => self.up,
            JoypadBtn::Down => self.down,
            JoypadBtn::Left => self.left,
            JoypadBtn::Right => self.right,
            JoypadBtn::TurboA => self.turbo_a,
            JoypadBtn::TurboB => self.turbo_b,
        }
    }

    /// Bit the serial register reports at position `idx` (0 is the A
    /// button; positions past the eighth report 1, as the hardware does).
    pub open spec fn spec_serial_bit(self, idx: u8) -> u8 {
        if idx == 0 {
            if self.a { 1u8 } else { 0u8 }
        } else if idx == 1 {
            if self.b { 1u8 } else { 0u8 }
        } else if idx == 2 {
            if self.select { 1u8 } else { 0u8 }
        } else if idx == 3 {
            if self.start { 1u8 } else { 0u8 }
        } else if idx == 4 {
            if self.up { 1u8 } else { 0u8 }
        } else if idx == 5 {
            if self.down { 1u8 } else { 0u8 }
        } else if idx == 6 {
            if self.left { 1u8 } else { 0u8 }
        } else if idx == 7 {
            if self.right { 1u8 } else { 0u8 }
        } else {
            1u8
        }
    }

    /// The pad after a strobe-line write of `val`.
    pub open spec fn spec_after_write(self, val: u8) -> Joypad {
        Joypad {
            strobe: val & 1 == 1,
            index: if val & 1 == 1 {
                0u8
            } else {
                self.index
            },
            ..self
        }
    }

    /// The pad after one serial read.
    pub open spec fn spec_after_read(self) -> Joypad {
        Joypad {
            index: if self.strobe {
                0u8
            } else if self.index < 8 {
                (self.index + 1) as u8
            } else {
                self.index
            },
            ..self
        }
    }

    /// The bit one serial read reports.
    pub open spec fn spec_read_result(self) -> u8 {
        self.spec_serial_bit(
            if self.strobe {
                0u8
            } else {
                self.index
            },
        )
    }

    /// Drive the strobe line: a 1 latches the buttons and rewinds the
    /// serial position, a 0 releases the latch so reads shift.
    pub fn write(&mut self, val: u8)
        ensures
            final(self).strobe == (val & 1 == 1),
            final(self).index == if val & 1 == 1 { 0u8 } else { old(self).index },
            *final(self) == (Joypad {
                strobe: final(self).strobe,
                index: final(self).index,
                ..*old(self)
            }),
    {
        self.strobe = val & 1 == 1;
        if self.strobe {
            self.index = 0;
        }
    }

    /// Serial read: report the current bit and advance the position unless
    /// the strobe holds the register at the A button.
    pub fn read(&mut self) -> (r: u8)
        ensures
            r == old(self).spec_serial_bit(if old(self).strobe { 0u8 } else { old(self).index }),
            final(self).index == if old(self).strobe {
                0u8
            } else if old(self).index < 8 {
                (old(self).index + 1) as u8
            } else {
                old(self).index
            },
            *final(self) == (Joypad { index: final(self).index, ..*old(self) }),
    {
        if self.strobe {
            self.index = 0;
            self.serial_bit(0)
        } else {
            let bit = self.serial_bit(self.index);
            if self.index < 8 {
                self.index = self.index + 1;
            }
            bit
        }
    }

    /// Observe the bit a read would report, without shifting.
    pub fn peek(&self) -> (r: u8)
        ensures
            r == self.spec_serial_bit(if self.strobe { 0u8 } else { self.index }),
    {
        if self.strobe {
            self.serial_bit(0)
        } else {
            self.serial_bit(self.index)
        }
    }

    fn serial_bit(&self, idx: u8) -> (r: u8)
        ensures
            r == self.spec_serial_bit(idx),
    {
        if idx == 0 {
            if self.a { 1 } else { 0 }
        } else if idx == 1 {
            if self.b { 1 } else { 0 }
        } else if idx == 2 {
            if self.select { 1 } else { 0 }
        } else if idx == 3 {
            if self.start { 1 } else { 0 }
        } else if idx == 4 {
            if self.up { 1 } else { 0 }
        } else if idx == 5 {
            if self.down { 1 } else { 0 }
        } else if idx == 6 {
            if self.left { 1 } else { 0 }
        } else if idx == 7 {
            if self.right { 1 } else { 0 }
        } else {
            1
        }
    }

    /// Release every button and rewind the serial register.
    pub fn reset(&mut self, kind: ResetKind)
        ensures
            *final(self) == Joypad::spec_idle(),
    {
        let _ = kind;
        *self = Joypad::new();
    }
}

/// The light-gun peripheral: an aim position and a trigger pulse.  Light
/// sensing against the rendered frame is the picture unit's business; the
/// peripheral only records what the shell reports.
#[derive(Debug, Copy, Clone, PartialEq, Eq, Structural, Hash)]
#[must_use]
pub struct Zapper {
    pub connected: bool,
    pub x: i32,
    pub y: i32,
    pub triggered: bool,
}

impl Zapper {
    /// A disconnected light gun aimed nowhere.
    pub fn new() -> (r: Zapper)
        ensures
            r == (Zapper { connected: false, x: 0, y: 0, triggered: false }),
    {
        Zapper { connected: false, x: 0, y: 0, triggered: false }
    }

    /// Current horizontal aim.
    pub fn x(&self) -> (r: i32)
        ensures
            r == self.x,
    {
        self.x
    }

    /// Current vertical aim.
    pub fn y(&self) -> (r: i32)
        ensures
            r == self.y,
    {
        self.y
    }

    /// Point the gun at `(x, y)` in frame coordinates.
    pub fn aim(&mut self, x: i32, y: i32)
        ensures
            *final(self) == (Zapper { x, y, ..*old(self) }),
    {
        self.x = x;
        self.y = y;
    }

    /// Pull the trigger.
    pub fn trigger(&mut self)
        ensures
            *final(self) == (Zapper { triggered: true, ..*old(self) }),
    {
        self.triggered = true;
    }

    /// Connect or disconnect the peripheral.
    pub fn set_connected(&mut self, connected: bool)
        ensures
            *final(self) == (Zapper { connected, ..*old(self) }),
    {
        self.connected = connected;
    }
}

} // verus!
