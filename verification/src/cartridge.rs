pub mod cartridge_data;
pub mod header;
pub mod mbc1;
pub mod mbc2;
pub mod mbc3;
pub mod mbc5;
pub mod memory_bank_controller;

use vstd::prelude::*;
use crate::cartridge::cartridge_data::{CartridgeData, ROM_BANK_SIZE, RAM_BANK_SIZE};
use crate::cartridge::header::{CartridgeInfo, CartridgeParseError, RawCartridgeHeader, rom_parse, title_bytes, ascii_chars, lemma_title_ascii, CARTRIDGE_TYPE, CGB_FLAG, TITLE_START};
use crate::cartridge::mbc1::MBC1State;
use crate::cartridge::mbc2::MBC2State;
use crate::cartridge::mbc3::MBC3State;
use crate::cartridge::mbc5::MBC5State;
use crate::cartridge::memory_bank_controller::Mbc;
use crate::save_state::RomSource;

verus! {

/// A loaded cartridge: its memory, its bank controller and its header information.
#[derive(Clone, Debug)]
pub struct Cartridge(pub CartridgeData, pub Mbc, pub CartridgeInfo);

/// The cartridge type byte names a known controller.
pub open spec fn known_type(t: u8) -> bool {
    t == 0x00 || (0x01 <= t <= 0x03) || t == 0x05 || t == 0x06 || t == 0x08 || t == 0x09 || (0x0F <= t <= 0x13)
        || (0x0B <= t <= 0x0D) || (0x19 <= t <= 0x1E) || t == 0x20 || t == 0x22 || t == 0xFE || t == 0xFF
}

/// `m` is the controller, in its power-on state, for cartridge type `t`.
pub open spec fn initial_mbc(t: u8, m: Mbc) -> bool {
    if t == 0x00 || t == 0x08 || t == 0x09 {
        m is ROM
    } else if 0x01 <= t <= 0x03 {
        m == Mbc::MBC1(MBC1State::spec_default())
    } else if t == 0x05 || t == 0x06 {
        m matches Mbc::MBC2(s) && s.rom_bank == 1 && !s.ram_enabled && s.ram_data@ == Seq::new(512, |i: int| 0u8)
    } else if 0x0F <= t <= 0x13 {
        m == Mbc::MBC3(MBC3State::spec_default())
    } else if 0x0B <= t <= 0x0D {
        m is MMM01
    } else if 0x19 <= t <= 0x1E {
        m == Mbc::MBC5(MBC5State { rom_bank: 1, ram_bank: 0, ram_enabled: false })
    } else if t == 0x20 {
        m is MBC6
    } else if t == 0x22 {
        m is MBC7
    } else if t == 0xFE {
        m is HUC3
    } else {
        m is HUC1
    }
}

fn mbc_for(t: u8) -> (r: Option<Mbc>)
    ensures
        r is Some <==> known_type(t),
        r matches Some(m) ==> initial_mbc(t, m),
{
    match t {
        0x00 => Some(Mbc::ROM),
        0x01..=0x03 => Some(Mbc::MBC1(MBC1State::default())),
        0x05 | 0x06 => Some(Mbc::MBC2(MBC2State::default())),
        0x08 | 0x09 => Some(Mbc::ROM),
        0x0F..=0x13 => Some(Mbc::MBC3(MBC3State::default())),
        0x0B..=0x0D => Some(Mbc::MMM01),
        0x19..=0x1E => Some(Mbc::MBC5(MBC5State::default())),
        0x20 => Some(Mbc::MBC6),
        0x22 => Some(Mbc::MBC7),
        0xFE => Some(Mbc::HUC3),
        0xFF => Some(Mbc::HUC1),
        _ => None,
    }
}

impl Cartridge {
    /// The cartridge is the one built from ROM image `value`: the banks the header
    /// names, the ROM split into them, zeroed RAM, the controller of its type at
    /// power-on, and the header's title, colour flag and source.
    pub open spec fn built_from(self, value: Seq<u8>, source: Option<RomSource>) -> bool {
        &&& rom_parse(value) matches Ok(banks)
        &&& initial_mbc(value[CARTRIDGE_TYPE as int], self.1)
        &&& self.0.loaded
        &&& self.0.rom_banks@.len() == banks.0
        &&& self.0.ram_banks@.len() == banks.1
        &&& forall|b: int, i: int|
            0 <= b < banks.0 && 0 <= i < ROM_BANK_SIZE ==> #[trigger] self.0.rom_banks@[b].data@[i] == value[b
                * ROM_BANK_SIZE + i]
        &&& forall|b: int, i: int|
            0 <= b < banks.1 && 0 <= i < RAM_BANK_SIZE ==> #[trigger] self.0.ram_banks@[b].data@[i] == 0
        &&& self.2.rom_banks == banks.0
        &&& self.2.ram_banks == banks.1
        &&& self.2.title@ == ascii_chars(title_bytes(value))
        &&& self.2.cgb == (value[CGB_FLAG as int] & 0x80 != 0)
        &&& self.2.rom_source == source
    }

    /// Builds a cartridge from a ROM image: checks the header, splits the ROM into
    /// banks, allocates zeroed RAM banks and fits the controller the header names.
    pub fn try_new(value: &[u8], source: Option<RomSource>) -> (r: Result<Self, CartridgeParseError>)
        ensures
            rom_parse(value@) matches Err(e) ==> r == Err::<Cartridge, CartridgeParseError>(e),
            rom_parse(value@) is Ok && known_type(value@[CARTRIDGE_TYPE as int]) ==> r is Ok,
            rom_parse(value@) is Ok && !known_type(value@[CARTRIDGE_TYPE as int]) ==> r == Err::<
                Cartridge,
                CartridgeParseError,
            >(CartridgeParseError::MBCType),
            r matches Ok(c) ==> c.built_from(value@, source),
    {
        let raw_header = RawCartridgeHeader::new(value, source);
        proof {
            lemma_title_ascii(value@, TITLE_START as int);
        }
        let info = match raw_header.parse() {
            Ok(info) => info,
            Err(e) => return Err(e),
        };
        let data = CartridgeData::new(value, info.rom_banks, info.ram_banks);
        let mbc = match mbc_for(raw_header.cartridge_type) {
            Some(m) => m,
            None => return Err(CartridgeParseError::MBCType),
        };
        Ok(Cartridge(data, mbc, info))
    }
}

} // verus!
