//! Runtime code patching: "Game Genie" cheat codes.
//!
//! A code is a string of 6 or 8 characters drawn from a fixed 16-symbol
//! alphabet; each symbol stands for a 4-bit value.  The decoded nibbles are
//! recombined through a fixed, published bit-interleaving into a 16-bit
//! target address in cartridge program space, an 8-bit replacement byte and,
//! for 8-character codes, an 8-bit compare byte.  The bus consults active
//! codes on every read in cartridge program space and substitutes the
//! replacement byte where the code applies.

use vstd::prelude::*;
use crate::errors::GenieError;

verus! {

/// Value of one code character under the fixed substitution alphabet
/// (`A` is 0, `P` is 1, ..., `N` is 15); characters outside the alphabet
/// have no value.
pub open spec fn spec_genie_char_value(c: char) -> Option<u8> {
    if c == 'A' {
        Some(0x0u8)
    } else if c == 'P' {
        Some(0x1u8)
    } else if c == 'Z' {
        Some(0x2u8)
    } else if c == 'L' {
        Some(0x3u8)
    } else if c == 'G' {
        Some(0x4u8)
    } else if c == 'I' {
        Some(0x5u8)
    } else if c == 'T' {
        Some(0x6u8)
    } else if c == 'Y' {
        Some(0x7u8)
    } else if c == 'E' {
        Some(0x8u8)
    } else if c == 'O' {
        Some(0x9u8)
    } else if c == 'X' {
        Some(0xAu8)
    } else if c == 'U' {
        Some(0xBu8)
    } else if c == 'K' {
        Some(0xCu8)
    } else if c == 'S' {
        Some(0xDu8)
    } else if c == 'V' {
        Some(0xEu8)
    } else if c == 'N' {
        Some(0xFu8)
    } else {
        None
    }
}

/// Translate one code character through the substitution alphabet.
#[verifier::when_used_as_spec(spec_genie_char_value)]
pub fn genie_char_value(c: char) -> (r: Option<u8>)
    ensures
        r == spec_genie_char_value(c),
{
    match c {
        'A' => Some(0x0),
        'P' => Some(0x1),
        'Z' => Some(0x2),
        'L' => Some(0x3),
        'G' => Some(0x4),
        'I' => Some(0x5),
        'T' => Some(0x6),
        'Y' => Some(0x7),
        'E' => Some(0x8),
        'O' => Some(0x9),
        'X' => Some(0xA),
        'U' => Some(0xB),
        'K' => Some(0xC),
        'S' => Some(0xD),
        'V' => Some(0xE),
        'N' => Some(0xF),
        _ => None,
    }
}

/// A code is well formed when it has 6 or 8 characters, all drawn from the
/// substitution alphabet.
pub open spec fn spec_genie_code_valid(s: Seq<char>) -> bool {
    &&& (s.len() == 6 || s.len() == 8)
    &&& forall|i: int| 0 <= i < s.len() ==> spec_genie_char_value(s[i]) is Some
}

/// The nibble sequence a well-formed code decodes to.
pub open spec fn spec_genie_nibbles(s: Seq<char>) -> Seq<u8> {
    Seq::new(s.len(), |i: int| spec_genie_char_value(s[i]).unwrap())
}

/// Target address encoded by the decoded nibbles `h` (6 or 8 of them):
/// `0x8000` plus a fixed interleaving of bits 0-2 and bit 3 of several
/// nibbles.  The interleaved part never exceeds `0x7FFF`, so the sum is the
/// same as the bitwise OR used here.
pub open spec fn spec_genie_addr(h: Seq<u8>) -> u16 {
    0x8000u16 | ((((h[3] & 7) as u16) << 12) | (((h[5] & 7) as u16) << 8) | (((h[4] & 8)
        as u16) << 8) | (((h[2] & 7) as u16) << 4) | (((h[1] & 8) as u16) << 4) | ((h[4] & 7)
        as u16) | ((h[3] & 8) as u16))
}

/// Replacement byte encoded by the decoded nibbles: its low bit 3 comes from
/// the last nibble (6-character codes) or the eighth nibble (8-character
/// codes).
pub open spec fn spec_genie_data(h: Seq<u8>) -> u8 {
    if h.len() == 6 {
        ((h[1] & 7) << 4) | ((h[0] & 8) << 4) | (h[0] & 7) | (h[5] & 8)
    } else {
        ((h[1] & 7) << 4) | ((h[0] & 8) << 4) | (h[0] & 7) | (h[7] & 8)
    }
}

/// Compare byte encoded by an 8-nibble code; 6-character codes have none.
pub open spec fn spec_genie_compare(h: Seq<u8>) -> Option<u8> {
    if h.len() == 8 {
        Some(((h[7] & 7) << 4) | ((h[6] & 8) << 4) | (h[6] & 7) | (h[5] & 8))
    } else {
        None
    }
}

/// A decoded cheat code: the original text, the 16-bit target address in
/// cartridge program space, the replacement byte, and the optional compare
/// byte.  Values are immutable once parsed.
#[derive(Debug, Clone, PartialEq, Eq)]
#[must_use]
pub struct GenieCode {
    code: String,
    addr: u16,
    data: u8,
    compare: Option<u8>,
}

impl GenieCode {
    /// The stored code text.
    pub closed spec fn spec_code(self) -> Seq<char> {
        self.code@
    }

    /// The decoded target address.
    pub closed spec fn spec_addr(self) -> u16 {
        self.addr
    }

    /// The decoded replacement byte.
    pub closed spec fn spec_data(self) -> u8 {
        self.data
    }

    /// The decoded compare byte, if the code carries one.
    pub closed spec fn spec_compare(self) -> Option<u8> {
        self.compare
    }

    /// A stored code is well formed when its fields agree with the decode
    /// of its text.
    pub open spec fn wf(self) -> bool {
        &&& spec_genie_code_valid(self.spec_code())
        &&& self.spec_addr() == spec_genie_addr(spec_genie_nibbles(self.spec_code()))
        &&& self.spec_data() == spec_genie_data(spec_genie_nibbles(self.spec_code()))
        &&& self.spec_compare() == spec_genie_compare(spec_genie_nibbles(self.spec_code()))
    }

    /// Decode `code` into its nibble values.
    ///
    /// Returns `Err(GenieError::InvalidLength)` exactly when the code does
    /// not have 6 or 8 characters, and otherwise
    /// `Err(GenieError::InvalidCharacter)` carrying the first character
    /// outside the alphabet, if any.
    pub fn parse(code: &str) -> (r: Result<Vec<u8>, GenieError>)
        ensures
            r is Ok <==> spec_genie_code_valid(code@),
            r is Ok ==> r.unwrap()@ == spec_genie_nibbles(code@),
            (code@.len() != 6 && code@.len() != 8) ==> r == Result::<Vec<u8>, GenieError>::Err(
                GenieError::InvalidLength(code@.len() as usize),
            ),
            (r is Err && (code@.len() == 6 || code@.len() == 8)) ==> {
                exists|i: int|
                    {
                        &&& 0 <= i < code@.len()
                        &&& spec_genie_char_value(code@[i]) is None
                        &&& r == Result::<Vec<u8>, GenieError>::Err(GenieError::InvalidCharacter(
                            code@[i],
                        ))
                        &&& forall|j: int| 0 <= j < i ==> spec_genie_char_value(code@[j]) is Some
                    }
            },
    {
        let n = code.unicode_len();
        if n != 6 && n != 8 {
            return Err(GenieError::InvalidLength(n));
        }
        let mut hex: Vec<u8> = Vec::new();
        for i in 0..n
            invariant
                n == code@.len(),
                n == 6 || n == 8,
                hex@.len() == i,
                forall|j: int| 0 <= j < i ==> spec_genie_char_value(code@[j]) == Some(hex@[j]),
        {
            let c = code.get_char(i);
            match genie_char_value(c) {
                Some(h) => {
                    hex.push(h);
                },
                None => {
                    return Err(GenieError::InvalidCharacter(c));
                },
            }
        }
        proof {
            assert(hex@ =~= spec_genie_nibbles(code@));
        }
        Ok(hex)
    }

    /// Parse `code` and build the decoded cheat code.
    ///
    /// Succeeds exactly on well-formed codes; the decoded fields follow the
    /// published bit-interleaving of the nibble values.  The error reports
    /// the wrong length or the first offending character, as `parse` does.
    pub fn new(code: String) -> (r: Result<GenieCode, GenieError>)
        ensures
            r is Ok <==> spec_genie_code_valid(code@),
            r is Ok ==> {
                &&& r.unwrap().spec_code() == code@
                &&& r.unwrap().wf()
            },
            (code@.len() != 6 && code@.len() != 8) ==> r == Result::<GenieCode, GenieError>::Err(
                GenieError::InvalidLength(code@.len() as usize),
            ),
            (r is Err && (code@.len() == 6 || code@.len() == 8)) ==> {
                exists|i: int|
                    {
                        &&& 0 <= i < code@.len()
                        &&& spec_genie_char_value(code@[i]) is None
                        &&& r == Result::<GenieCode, GenieError>::Err(GenieError::InvalidCharacter(
                            code@[i],
                        ))
                        &&& forall|j: int| 0 <= j < i ==> spec_genie_char_value(code@[j]) is Some
                    }
            },
    {
        let hex: Vec<u8> = match Self::parse(code.as_str()) {
            Ok(hex) => hex,
            Err(e) => {
                return Err(e);
            },
        };
        let low: u16 = (((hex[3] & 7) as u16) << 12) | (((hex[5] & 7) as u16) << 8) | (((hex[4]
            & 8) as u16) << 8) | (((hex[2] & 7) as u16) << 4) | (((hex[1] & 8) as u16) << 4) | ((
        hex[4] & 7) as u16) | ((hex[3] & 8) as u16);
        let addr: u16 = 0x8000u16 | low;
        let data: u8 = if hex.len() == 6 {
            ((hex[1] & 7) << 4) | ((hex[0] & 8) << 4) | (hex[0] & 7) | (hex[5] & 8)
        } else {
            ((hex[1] & 7) << 4) | ((hex[0] & 8) << 4) | (hex[0] & 7) | (hex[7] & 8)
        };
        let compare: Option<u8> = if hex.len() == 8 {
            Some(((hex[7] & 7) << 4) | ((hex[6] & 8) << 4) | (hex[6] & 7) | (hex[5] & 8))
        } else {
            None
        };
        Ok(GenieCode { code, addr, data, compare })
    }

    /// The code text this value was parsed from.
    pub fn code(&self) -> (r: &str)
        ensures
            r@ == self.spec_code(),
    {
        self.code.as_str()
    }

    /// Whether this code was parsed from exactly the text `text`.
    pub fn matches_text(&self, text: &String) -> (r: bool)
        ensures
            r == (self.spec_code() == text@),
    {
        self.code.eq(text)
    }

    /// The decoded target address in cartridge program space.
    pub fn addr(&self) -> (r: u16)
        ensures
            r == self.spec_addr(),
    {
        self.addr
    }

    /// What a read of `val` at the target address returns with this code
    /// active: without a compare byte the replacement byte always applies;
    /// with one, it applies only when `val` equals the compare byte, and all
    /// other values pass through unchanged.
    pub open spec fn spec_read(self, val: u8) -> u8 {
        match self.spec_compare() {
            Some(compare) => if val == compare {
                self.spec_data()
            } else {
                val
            },
            None => self.spec_data(),
        }
    }

    /// Apply the code to the byte `val` read at the target address.
    pub fn read(&self, val: u8) -> (r: u8)
        ensures
            r == self.spec_read(val),
    {
        if let Some(compare) = self.compare {
            if val == compare {
                self.data
            } else {
                val
            }
        } else {
            self.data
        }
    }
}

/// The texts among `list` that are well-formed codes, in order.  This is
/// what a batch registration (for example from a configuration) keeps:
/// malformed texts are skipped, valid ones are decoded in order.
pub open spec fn spec_valid_code_texts(list: Seq<String>) -> Seq<Seq<char>>
    decreases list.len(),
{
    if list.len() == 0 {
        Seq::empty()
    } else {
        let rest = spec_valid_code_texts(list.drop_last());
        if spec_genie_code_valid(list.last()@) {
            rest.push(list.last()@)
        } else {
            rest
        }
    }
}

/// Index of the last registered code targeting `addr`, if any.  When two
/// codes target the same address, the one registered last wins.
pub open spec fn spec_genie_last_match(codes: Seq<GenieCode>, addr: u16) -> Option<int>
    decreases codes.len(),
{
    if codes.len() == 0 {
        None
    } else if codes.last().spec_addr() == addr {
        Some(codes.len() - 1)
    } else {
        spec_genie_last_match(codes.drop_last(), addr)
    }
}

/// The byte a read of `val` at `addr` yields with `codes` active: the last
/// registered code targeting `addr` is applied to the original value, and
/// with no such code the value passes through unchanged.
pub open spec fn spec_genie_apply(codes: Seq<GenieCode>, addr: u16, val: u8) -> u8 {
    match spec_genie_last_match(codes, addr) {
        Some(i) => codes[i].spec_read(val),
        None => val,
    }
}

/// A matching index reported by `spec_genie_last_match` lies in range and
/// targets the looked-up address.
proof fn lemma_genie_last_match_in_range(codes: Seq<GenieCode>, addr: u16)
    ensures
        spec_genie_last_match(codes, addr) matches Some(i) ==> 0 <= i < codes.len() && codes[
            i
        ].spec_addr() == addr,
    decreases codes.len(),
{
    if codes.len() > 0 && codes.last().spec_addr() != addr {
        lemma_genie_last_match_in_range(codes.drop_last(), addr);
    }
}

/// Apply the active codes to the byte `val` read at `addr`.
pub fn apply_genie_codes(codes: &Vec<GenieCode>, addr: u16, val: u8) -> (r: u8)
    ensures
        r == spec_genie_apply(codes@, addr, val),
{
    let mut result: u8 = val;
    let n = codes.len();
    for i in 0..n
        invariant
            n == codes@.len(),
            result == spec_genie_apply(codes@.take(i as int), addr, val),
    {
        proof {
            assert(codes@.take(i + 1).drop_last() =~= codes@.take(i as int));
            assert(codes@.take(i + 1).last() == codes@[i as int]);
            lemma_genie_last_match_in_range(codes@.take(i as int), addr);
            if codes@[i as int].spec_addr() != addr {
                assert(spec_genie_last_match(codes@.take(i + 1), addr) == spec_genie_last_match(
                    codes@.take(i as int),
                    addr,
                ));
            }
        }
        if codes[i].addr() == addr {
            result = codes[i].read(val);
        }
    }
    proof {
        assert(codes@.take(n as int) =~= codes@);
    }
    result
}

} // verus!
