use vstd::prelude::*;
use crate::save_state::RomSource;

verus! {

/// The first byte past the cartridge header.
pub const HEADER_END: usize = 0x150;
pub const TITLE_START: usize = 0x134;
pub const TITLE_END: usize = 0x143;
pub const CGB_FLAG: usize = 0x143;
pub const CARTRIDGE_TYPE: usize = 0x147;
pub const ROM_SIZE: usize = 0x148;
pub const RAM_SIZE: usize = 0x149;

/// Why a ROM image was refused.
#[derive(Clone, Copy, Debug, PartialEq, Eq, Structural)]
pub enum CartridgeParseError {
    /// The image ends before the header does.
    HeaderTooShort,
    /// The ROM size code is not one the hardware defines.
    RomSize,
    /// The RAM size code is not one the hardware defines.
    RamSize,
    /// The image is shorter than the ROM size the header declares.
    RomTooShort,
    /// The cartridge type names no known memory bank controller.
    MBCType,
}

/// What the header says about the cartridge.
#[derive(Clone, Debug)]
pub struct CartridgeInfo {
    pub title: String,
    pub cgb: bool,
    pub rom_banks: u32,
    pub ram_banks: u32,
    pub rom_source: Option<RomSource>,
}

/// The header bytes of a ROM image, as found, before they are checked.
#[derive(Clone, Debug)]
pub struct RawCartridgeHeader {
    pub len: usize,
    pub title: Vec<u8>,
    pub cgb_flag: u8,
    pub cartridge_type: u8,
    pub rom_size: u8,
    pub ram_size: u8,
    pub source: Option<RomSource>,
}

/// The number of 16 KiB ROM banks for a ROM size code, if it is defined.
pub open spec fn rom_banks_of(code: u8) -> Option<u32> {
    if code <= 8 {
        Some((2 * pow2(code as nat)) as u32)
    } else {
        None
    }
}

pub open spec fn pow2(n: nat) -> nat
    decreases n,
{
    if n == 0 {
        1
    } else {
        2 * pow2((n - 1) as nat)
    }
}

/// The number of 8 KiB RAM banks for a RAM size code, if it is defined.
pub open spec fn ram_banks_of(code: u8) -> Option<u32> {
    if code == 0 || code == 1 {
        Some(0)
    } else if code == 2 {
        Some(1)
    } else if code == 3 {
        Some(4)
    } else if code == 4 {
        Some(16)
    } else if code == 5 {
        Some(8)
    } else {
        None
    }
}

/// The title: the bytes from 0x134 up to 0x143, stopping at the first byte that is
/// zero or not ASCII.
pub open spec fn title_bytes(rom: Seq<u8>) -> Seq<u8> {
    title_from(rom, TITLE_START as int)
}

pub open spec fn title_from(rom: Seq<u8>, i: int) -> Seq<u8>
    decreases TITLE_END - i,
{
    if i >= TITLE_END || i >= rom.len() || rom[i] == 0 || rom[i] >= 0x80 {
        Seq::empty()
    } else {
        seq![rom[i]] + title_from(rom, i + 1)
    }
}

/// The characters of an ASCII byte string.
pub open spec fn ascii_chars(bytes: Seq<u8>) -> Seq<char> {
    bytes.map_values(|b: u8| b as char)
}

/// Turns ASCII bytes into a `String` through `String::from_utf8_lossy`, which keeps
/// valid UTF-8 (and so ASCII) unchanged: one character per byte.
#[verifier::external_body]
fn ascii_to_string(bytes: &[u8]) -> (s: String)
    requires
        forall|i: int| 0 <= i < bytes@.len() ==> bytes@[i] < 0x80,
    ensures
        s@ == ascii_chars(bytes@),
{
    String::from_utf8_lossy(bytes).into_owned()
}

fn rom_banks(code: u8) -> (r: Option<u32>)
    ensures
        r == rom_banks_of(code),
{
    if code <= 8 {
        let mut banks: u32 = 2;
        let mut i: u8 = 0;
        while i < code
            invariant
                i <= code <= 8,
                banks == 2 * pow2(i as nat),
            decreases code - i,
        {
            proof {
                assert(pow2(i as nat) <= 128) by {
                    lemma_pow2_bound(i as nat);
                }
            }
            banks = banks * 2;
            i += 1;
        }
        Some(banks)
    } else {
        None
    }
}

proof fn lemma_pow2_bound(n: nat)
    requires
        n <= 7,
    ensures
        pow2(n) <= 128,
    decreases n,
{
    reveal_with_fuel(pow2, 8);
}

fn ram_banks(code: u8) -> (r: Option<u32>)
    ensures
        r == ram_banks_of(code),
{
    match code {
        0 | 1 => Some(0),
        2 => Some(1),
        3 => Some(4),
        4 => Some(16),
        5 => Some(8),
        _ => None,
    }
}

/// The bank counts the header of `rom` declares, or why it is refused.
pub open spec fn rom_parse(rom: Seq<u8>) -> Result<(u32, u32), CartridgeParseError> {
    if rom.len() < HEADER_END {
        Err(CartridgeParseError::HeaderTooShort)
    } else if rom_banks_of(rom[ROM_SIZE as int]).is_none() {
        Err(CartridgeParseError::RomSize)
    } else if ram_banks_of(rom[RAM_SIZE as int]).is_none() {
        Err(CartridgeParseError::RamSize)
    } else if rom.len() < rom_banks_of(rom[ROM_SIZE as int]).unwrap() * 0x4000 {
        Err(CartridgeParseError::RomTooShort)
    } else {
        Ok((rom_banks_of(rom[ROM_SIZE as int]).unwrap(), ram_banks_of(rom[RAM_SIZE as int]).unwrap()))
    }
}

/// Byte `i` of `rom`, or 0 past its end.
pub open spec fn byte_or_zero(rom: Seq<u8>, i: int) -> u8 {
    if i < rom.len() {
        rom[i]
    } else {
        0
    }
}

impl RawCartridgeHeader {
    /// Reads the header fields of `rom`; fields past its end read as zero.
    pub fn new(rom: &[u8], source: Option<RomSource>) -> (h: Self)
        ensures
            h.len == rom@.len(),
            h.title@ == title_bytes(rom@),
            h.cgb_flag == byte_or_zero(rom@, CGB_FLAG as int),
            h.cartridge_type == byte_or_zero(rom@, CARTRIDGE_TYPE as int),
            h.rom_size == byte_or_zero(rom@, ROM_SIZE as int),
            h.ram_size == byte_or_zero(rom@, RAM_SIZE as int),
            h.source == source,
    {
        let len = rom.len();
        let mut title: Vec<u8> = Vec::new();
        let mut i: usize = TITLE_START;
        while i < TITLE_END && i < len && rom[i] != 0 && rom[i] < 0x80
            invariant
                TITLE_START <= i <= TITLE_END,
                len == rom@.len(),
                title@ + title_from(rom@, i as int) == title_bytes(rom@),
            decreases TITLE_END - i,
        {
            proof {
                assert(title_from(rom@, i as int) == seq![rom@[i as int]] + title_from(rom@, i + 1));
                assert(title@.push(rom@[i as int]) + title_from(rom@, i + 1) =~= title@ + title_from(rom@, i as int));
            }
            title.push(rom[i]);
            i += 1;
        }
        assert(title_from(rom@, i as int) =~= Seq::<u8>::empty());
        assert(title@ =~= title@ + Seq::<u8>::empty());
        let byte_at = |k: usize| -> (b: u8)
            ensures
                b == byte_or_zero(rom@, k as int),
            {
                if k < len { rom[k] } else { 0 }
            };
        RawCartridgeHeader {
            len,
            title,
            cgb_flag: byte_at(CGB_FLAG),
            cartridge_type: byte_at(CARTRIDGE_TYPE),
            rom_size: byte_at(ROM_SIZE),
            ram_size: byte_at(RAM_SIZE),
            source,
        }
    }

    pub open spec fn spec_parse(self) -> Result<(u32, u32), CartridgeParseError> {
        if self.len < HEADER_END {
            Err(CartridgeParseError::HeaderTooShort)
        } else if rom_banks_of(self.rom_size).is_none() {
            Err(CartridgeParseError::RomSize)
        } else if ram_banks_of(self.ram_size).is_none() {
            Err(CartridgeParseError::RamSize)
        } else if self.len < rom_banks_of(self.rom_size).unwrap() * 0x4000 {
            Err(CartridgeParseError::RomTooShort)
        } else {
            Ok((rom_banks_of(self.rom_size).unwrap(), ram_banks_of(self.ram_size).unwrap()))
        }
    }

    /// Checks the header: on success the ROM and RAM bank counts, the title, the
    /// colour flag and where the ROM came from.
    pub fn parse(&self) -> (r: Result<CartridgeInfo, CartridgeParseError>)
        requires
            forall|i: int| 0 <= i < self.title@.len() ==> self.title@[i] < 0x80,
        ensures
            r.is_err() <==> self.spec_parse().is_err(),
            r.is_err() ==> r == Err::<CartridgeInfo, CartridgeParseError>(self.spec_parse()->Err_0),
            r matches Ok(info) ==> {
                &&& (info.rom_banks, info.ram_banks) == self.spec_parse()->Ok_0
                &&& info.title@ == ascii_chars(self.title@)
                &&& info.cgb == (self.cgb_flag & 0x80 != 0)
                &&& info.rom_source == self.source
            },
    {
        if self.len < HEADER_END {
            return Err(CartridgeParseError::HeaderTooShort);
        }
        let rom_banks = match rom_banks(self.rom_size) {
            Some(b) => b,
            None => return Err(CartridgeParseError::RomSize),
        };
        let ram_banks = match ram_banks(self.ram_size) {
            Some(b) => b,
            None => return Err(CartridgeParseError::RamSize),
        };
        if (self.len as u64) < (rom_banks as u64) * 0x4000 {
            return Err(CartridgeParseError::RomTooShort);
        }
        Ok(CartridgeInfo {
            title: ascii_to_string(self.title.as_slice()),
            cgb: self.cgb_flag & 0x80 != 0,
            rom_banks,
            ram_banks,
            rom_source: match &self.source {
                Some(s) => Some(s.clone()),
                None => None,
            },
        })
    }
}

/// The title bytes are all ASCII.
pub proof fn lemma_title_ascii(rom: Seq<u8>, i: int)
    ensures
        forall|k: int| 0 <= k < title_from(rom, i).len() ==> title_from(rom, i)[k] < 0x80,
    decreases TITLE_END - i,
{
    if !(i >= TITLE_END || i >= rom.len() || rom[i] == 0 || rom[i] >= 0x80) {
        lemma_title_ascii(rom, i + 1);
        let t = title_from(rom, i);
        assert forall|k: int| 0 <= k < t.len() implies t[k] < 0x80 by {
            if k > 0 {
                assert(t[k] == title_from(rom, i + 1)[k - 1]);
            }
        }
    }
}

} // verus!
