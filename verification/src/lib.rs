//! Hardware-level simulation of an 8-bit home video game console.
//!
//! The crate models the console's control deck (the top-level clocking and
//! scheduling unit), its memory-mapped buses, the cartridge mapper layer,
//! the runtime code-patching subsystem for cheat codes, and the region and
//! clock-rate model.  Every routine here carries a contract stating what it
//! computes, and the contracts are machine-checked.

pub mod action;
pub mod apu;
pub mod bus;
pub mod cart;
pub mod common;
pub mod control_deck;
pub mod cpu;
pub mod errors;
pub mod genie;
pub mod input;
pub mod mapper;
pub mod ppu;
pub mod ppu_bus;
pub mod video;
