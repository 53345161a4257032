//! Scripted console actions: the value model a replay or test driver
//! hands to the deck, one action per chosen frame.
//!
//! A driver reads its scripts and captures its snapshots elsewhere; what
//! reaches the console is one of these plain values, and
//! [`apply_frame_action`] is the single dispatch point that turns it into
//! the corresponding deck call.

use vstd::prelude::*;
use crate::common::{NesRegion, Regional, Reset, ResetKind};
use crate::control_deck::ControlDeck;
use crate::input::{JoypadBtn, Player};
use crate::mapper::MapperRevision;
use crate::video::VideoFilter;

verus! {

/// Console-state actions: resets and runtime board-revision overrides.
#[derive(Debug, Copy, Clone, PartialEq, Eq, Structural, Hash)]
#[must_use]
pub enum NesState {
    SoftReset,
    HardReset,
    MapperRevision(MapperRevision),
}

/// Configuration actions applied mid-run.
#[derive(Debug, Copy, Clone, PartialEq, Eq, Structural, Hash)]
#[must_use]
pub enum Setting {
    SetVideoFilter(VideoFilter),
    SetNesFormat(NesRegion),
}

/// One scripted action: a console-state change, a configuration change,
/// or a joypad button press.
#[derive(Debug, Copy, Clone, PartialEq, Eq, Structural, Hash)]
#[must_use]
pub enum Action {
    Nes(NesState),
    Setting(Setting),
    Joypad(JoypadBtn),
}

impl Action {
    /// Wrap a console-state action.
    pub fn from_state(state: NesState) -> (r: Action)
        ensures
            r == Action::Nes(state),
    {
        Action::Nes(state)
    }

    /// Wrap a configuration action.
    pub fn from_setting(setting: Setting) -> (r: Action)
        ensures
            r == Action::Setting(setting),
    {
        Action::Setting(setting)
    }

    /// Wrap a button press.
    pub fn from_button(btn: JoypadBtn) -> (r: Action)
        ensures
            r == Action::Joypad(btn),
    {
        Action::Joypad(btn)
    }
}

/// Apply one scripted action to the deck: resets reset, setting changes
/// propagate immediately, and a button action presses that button on the
/// joypad in `slot`.
pub fn apply_frame_action(deck: &mut ControlDeck, slot: Player, action: Action)
    requires
        old(deck).wf(),
    ensures
        final(deck).wf(),
        final(deck).loaded_rom == old(deck).loaded_rom,
        final(deck).cycles_remaining == old(deck).cycles_remaining,
        action matches Action::Nes(state) ==> {
            &&& (state == NesState::SoftReset || state == NesState::HardReset)
                ==> final(deck).cpu.corrupted == false && final(deck).running == true && final(
                deck).cpu.bus.ppu.frame == (if state == NesState::HardReset {
                0u32
            } else {
                old(deck).cpu.bus.ppu.frame
            })
            &&& (state matches NesState::MapperRevision(_)) ==> *final(deck) == *old(deck)
        },
        action matches Action::Setting(setting) ==> {
            &&& (setting matches Setting::SetVideoFilter(filter) ==> final(deck).video.filter
                == filter)
            &&& (setting matches Setting::SetNesFormat(region) ==> final(deck).cpu.region
                == region)
        },
        action matches Action::Joypad(btn) ==> final(deck).cpu.bus.joypads@ == old(
            deck,
        ).cpu.bus.joypads@.update(
            slot.spec_index() as int,
            old(deck).cpu.bus.joypads@[slot.spec_index() as int].spec_with_button(btn, true),
        ),
{
    match action {
        Action::Nes(state) => match state {
            NesState::SoftReset => deck.reset(ResetKind::Soft),
            NesState::HardReset => deck.reset(ResetKind::Hard),
            NesState::MapperRevision(revision) => {
                deck.cpu.bus.ppu.bus.mapper.set_revision(revision);
            },
        },
        Action::Setting(setting) => match setting {
            Setting::SetVideoFilter(filter) => deck.set_filter(filter),
            Setting::SetNesFormat(format) => deck.set_region(format),
        },
        Action::Joypad(button) => {
            deck.set_joypad_button(slot, button, true);
        },
    }
}

} // verus!
