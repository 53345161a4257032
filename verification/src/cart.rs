//! Cartridge images: header decoding and bank extraction.
//!
//! The loader accepts the standard 16-byte cartridge header: a 4-byte
//! signature, the program and pattern bank counts, and the flag bytes
//! carrying the mapper number, mirroring, battery and trainer bits, and the
//! television-system hint.  A rejected image produces a [`RomError`] and
//! leaves the console untouched.

use vstd::prelude::*;
use crate::common::{NesRegion, RamState};
use crate::errors::RomError;
use crate::mapper::{Mapper, Mirroring, Nrom};

verus! {

/// Copy `src[start .. start + len]` into a fresh vector.
fn copy_range(src: &Vec<u8>, start: usize, len: usize) -> (r: Vec<u8>)
    requires
        start + len <= src.len(),
    ensures
        r@ == src@.subrange(start as int, start as int + len as int),
{
    let mut out: Vec<u8> = Vec::new();
    for i in 0..len
        invariant
            start + len <= src.len(),
            out@.len() == i,
            forall|j: int| 0 <= j < i ==> out@[j] == src@[start + j],
    {
        out.push(src[start + i]);
    }
    proof {
        assert(out@ =~= src@.subrange(start as int, start as int + len as int));
    }
    out
}

/// The image is at least one header long.
pub open spec fn spec_rom_len_ok(rom: Seq<u8>) -> bool {
    rom.len() >= 16
}

/// The header begins with the standard signature bytes `N`, `E`, `S`,
/// `0x1A`.
pub open spec fn spec_rom_magic_ok(rom: Seq<u8>) -> bool {
    rom[0] == 0x4Eu8 && rom[1] == 0x45u8 && rom[2] == 0x53u8 && rom[3] == 0x1Au8
}

/// Mapper number announced by the header: low nibble in the upper half of
/// flags byte 6, high nibble in the upper half of flags byte 7.
pub open spec fn spec_rom_mapper(rom: Seq<u8>) -> u8 {
    (rom[6] >> 4) | (rom[7] & 0xF0u8)
}

/// The bank shape is one the supported boards decode: one or two program
/// banks and at most one pattern bank.
pub open spec fn spec_rom_banks_ok(rom: Seq<u8>) -> bool {
    (rom[4] == 1 || rom[4] == 2) && rom[5] <= 1
}

/// Offset of the bank data: the header, plus a 512-byte trainer when flags
/// byte 6 announces one.
pub open spec fn spec_rom_data_start(rom: Seq<u8>) -> int {
    if rom[6] & 0x04u8 != 0 {
        528int
    } else {
        16int
    }
}

/// Total bytes the header announces.
pub open spec fn spec_rom_data_end(rom: Seq<u8>) -> int {
    spec_rom_data_start(rom) + rom[4] * 0x4000 + rom[5] * 0x2000
}

/// A cartridge image is valid when the header is well formed, the board it
/// names is supported, and every announced bank is present in full.
pub open spec fn spec_rom_valid(rom: Seq<u8>) -> bool {
    &&& spec_rom_len_ok(rom)
    &&& spec_rom_magic_ok(rom)
    &&& rom[4] != 0
    &&& spec_rom_mapper(rom) == 0
    &&& spec_rom_banks_ok(rom)
    &&& rom.len() >= spec_rom_data_end(rom)
}

/// The error an invalid image is rejected with, in checking order: length,
/// signature, an empty program area, an unsupported board or bank shape,
/// and finally truncated bank data.
pub open spec fn spec_rom_error(rom: Seq<u8>) -> RomError {
    if !spec_rom_len_ok(rom) {
        RomError::TooShort
    } else if !spec_rom_magic_ok(rom) {
        RomError::BadMagic
    } else if rom[4] == 0 {
        RomError::NoPrgBanks
    } else if !(spec_rom_mapper(rom) == 0 && spec_rom_banks_ok(rom)) {
        RomError::UnsupportedMapper
    } else {
        RomError::MissingData
    }
}

/// Mirroring mode the header selects: the four-screen bit wins, otherwise
/// bit 0 of flags byte 6 picks vertical over horizontal.
pub open spec fn spec_rom_mirroring(rom: Seq<u8>) -> Mirroring {
    if rom[6] & 0x08u8 != 0 {
        Mirroring::FourScreen
    } else if rom[6] & 0x01u8 != 0 {
        Mirroring::Vertical
    } else {
        Mirroring::Horizontal
    }
}

/// Region hinted by the header: bit 0 of flags byte 9 announces a PAL
/// cartridge; everything else defaults to NTSC.
pub open spec fn spec_rom_region(rom: Seq<u8>) -> NesRegion {
    if rom[9] & 0x01u8 != 0 {
        NesRegion::Pal
    } else {
        NesRegion::Ntsc
    }
}

/// Whether the header announces battery-backed program RAM.
pub open spec fn spec_rom_battery(rom: Seq<u8>) -> bool {
    rom[6] & 0x02u8 != 0
}

/// Program bank bytes of a valid image.
pub open spec fn spec_rom_prg(rom: Seq<u8>) -> Seq<u8> {
    rom.subrange(spec_rom_data_start(rom), spec_rom_data_start(rom) + rom[4] * 0x4000)
}

/// Pattern bank bytes of a valid image: the bank from the file, or a fresh
/// 8 KiB of pattern RAM when the header announces none.
pub open spec fn spec_rom_chr(rom: Seq<u8>) -> Seq<u8> {
    if rom[5] == 0 {
        Seq::new(0x2000nat, |i: int| 0u8)
    } else {
        rom.subrange(
            spec_rom_data_start(rom) + rom[4] * 0x4000,
            spec_rom_data_start(rom) + rom[4] * 0x4000 + 0x2000,
        )
    }
}

/// A decoded cartridge, ready to be installed: the extracted banks, the
/// selected board, and the header facts the console consumes.
#[derive(Debug, Clone, PartialEq, Eq)]
#[must_use]
pub struct Cart {
    pub name: String,
    pub prg_rom: Vec<u8>,
    pub chr: Vec<u8>,
    pub chr_ram: bool,
    pub mirroring: Mirroring,
    pub battery: bool,
    pub region: NesRegion,
    pub ram_state: RamState,
}

impl Cart {
    /// Structural invariant: the banks have the sizes the supported boards
    /// decode.
    pub open spec fn wf(self) -> bool {
        &&& (self.prg_rom@.len() == 0x4000 || self.prg_rom@.len() == 0x8000)
        &&& self.chr@.len() == 0x2000
    }

    /// Decode the image `rom`.  Succeeds exactly on valid images (header
    /// well formed, supported board, all announced banks present); the
    /// decoded banks and facts are those the header describes.  On failure
    /// the error names the first check that failed.
    pub fn from_rom(name: String, rom: Vec<u8>, ram_state: RamState) -> (r: Result<Cart, RomError>)
        ensures
            r is Ok <==> spec_rom_valid(rom@),
            r is Err ==> r == Result::<Cart, RomError>::Err(spec_rom_error(rom@)),
            r is Ok ==> {
                let cart = r.unwrap();
                &&& cart.wf()
                &&& cart.name@ == name@
                &&& cart.prg_rom@ == spec_rom_prg(rom@)
                &&& cart.chr@ == spec_rom_chr(rom@)
                &&& cart.chr_ram == (rom@[5] == 0)
                &&& cart.mirroring == spec_rom_mirroring(rom@)
                &&& cart.battery == spec_rom_battery(rom@)
                &&& cart.region == spec_rom_region(rom@)
                &&& cart.ram_state == ram_state
            },
    {
        if rom.len() < 16 {
            return Err(RomError::TooShort);
        }
        if !(rom[0] == 0x4E && rom[1] == 0x45 && rom[2] == 0x53 && rom[3] == 0x1A) {
            return Err(RomError::BadMagic);
        }
        let prg_banks = rom[4];
        let chr_banks = rom[5];
        let flags6 = rom[6];
        let flags7 = rom[7];
        let flags9 = rom[9];
        if prg_banks == 0 {
            return Err(RomError::NoPrgBanks);
        }
        let mapper_num = (flags6 >> 4) | (flags7 & 0xF0);
        if !(mapper_num == 0 && (prg_banks == 1 || prg_banks == 2) && chr_banks <= 1) {
            return Err(RomError::UnsupportedMapper);
        }
        let data_start: usize = if flags6 & 0x04 != 0 {
            16 + 512
        } else {
            16
        };
        let prg_len: usize = (prg_banks as usize) * 0x4000;
        let chr_len: usize = (chr_banks as usize) * 0x2000;
        if rom.len() < data_start + prg_len + chr_len {
            return Err(RomError::MissingData);
        }
        let prg_rom = copy_range(&rom, data_start, prg_len);
        let (chr, chr_ram) = if chr_banks == 0 {
            (vec![0u8; 0x2000], true)
        } else {
            (copy_range(&rom, data_start + prg_len, 0x2000), false)
        };
        let mirroring = if flags6 & 0x08 != 0 {
            Mirroring::FourScreen
        } else if flags6 & 0x01 != 0 {
            Mirroring::Vertical
        } else {
            Mirroring::Horizontal
        };
        let region = if flags9 & 0x01 != 0 {
            NesRegion::Pal
        } else {
            NesRegion::Ntsc
        };
        Ok(
            Cart {
                name,
                prg_rom,
                chr,
                chr_ram,
                mirroring,
                battery: flags6 & 0x02 != 0,
                region,
                ram_state,
            },
        )
    }

    /// Region the cartridge header hints at.
    pub fn region(&self) -> (r: NesRegion)
        ensures
            r == self.region,
    {
        self.region
    }

    /// Whether the cartridge carries battery-backed program RAM.
    pub fn battery_backed(&self) -> (r: bool)
        ensures
            r == self.battery,
    {
        self.battery
    }

    /// The cartridge board this image selects, configured from the header.
    pub fn build_mapper(&self) -> (r: Mapper)
        requires
            self.wf(),
        ensures
            r.wf(),
            r is Nrom,
            r.spec_prg_len() == self.prg_rom@.len(),
            r.spec_chr_ram() == self.chr_ram,
            r.spec_mirroring() == self.mirroring,
            r.spec_battery_backed() == self.battery,
    {
        Mapper::Nrom(Nrom::new(self.prg_rom.len(), self.chr_ram, self.mirroring, self.battery))
    }
}

} // verus!
