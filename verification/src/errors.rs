//! Error taxonomy of the console core.
//!
//! Three conditions are reported to callers: a malformed cartridge image
//! (`RomError`), a malformed cheat-code string (`GenieError`), and a
//! processor that reached an illegal or unimplemented opcode
//! (`CpuCorrupted`).  Open-bus and unmapped-address conditions are not
//! errors: the buses define them as reads of the last latched byte.

use vstd::prelude::*;

verus! {

/// Why a cartridge image was rejected by the loader.  A rejected image
/// leaves the console exactly as it was.
#[derive(Debug, Copy, Clone, PartialEq, Eq, Structural, Hash)]
#[must_use]
pub enum RomError {
    /// The image is shorter than the 16-byte cartridge header.
    TooShort,
    /// The header does not begin with the standard magic bytes.
    BadMagic,
    /// The header announces no program bank at all.
    NoPrgBanks,
    /// The image ends before the banks announced in the header.
    MissingData,
    /// The header selects a cartridge board this core does not support.
    UnsupportedMapper,
}

impl RomError {
    /// A human-readable description of the rejection.
    pub fn message(&self) -> String {
        match self {
            RomError::TooShort => String::from_str("ROM image is shorter than the cartridge header"),
            RomError::BadMagic => String::from_str("ROM image has an invalid cartridge header signature"),
            RomError::NoPrgBanks => String::from_str("ROM header announces zero program banks"),
            RomError::MissingData => String::from_str("ROM image ends before the announced bank data"),
            RomError::UnsupportedMapper => String::from_str("ROM requires an unsupported cartridge board"),
        }
    }
}

/// Why a cheat-code string was rejected.  Rejection is non-fatal: playback
/// continues without the code.
#[derive(Debug, Copy, Clone, PartialEq, Eq, Structural, Hash)]
#[must_use]
pub enum GenieError {
    /// The code does not have 6 or 8 characters; carries the offending length.
    InvalidLength(usize),
    /// A character is outside the 16-symbol code alphabet; carries it.
    InvalidCharacter(char),
}

impl GenieError {
    /// A human-readable description of the rejection.
    pub fn message(&self) -> String {
        match self {
            GenieError::InvalidLength(_) => String::from_str(
                "invalid game genie code: length must be 6 or 8 characters",
            ),
            GenieError::InvalidCharacter(_) => String::from_str(
                "invalid game genie code: invalid character",
            ),
        }
    }
}

/// The processor reached an illegal or unimplemented opcode.  This is fatal
/// to continued stepping: every stepping primitive keeps failing with this
/// error until the console is reset.
#[derive(Debug, Copy, Clone, PartialEq, Eq, Structural, Hash)]
#[must_use]
pub struct CpuCorrupted;

impl CpuCorrupted {
    /// A human-readable description of the condition.
    pub fn message(&self) -> String {
        String::from_str("cpu corrupted: illegal or unimplemented opcode reached")
    }
}

} // verus!
