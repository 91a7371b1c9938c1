use vstd::prelude::*;
use crate::cartridge::cartridge_data::CartridgeData;
use crate::cartridge::mbc1::{mbc_address, bank_counts_fit};

verus! {

/// MBC2: up to 16 ROM banks and 512 half-bytes of built-in RAM.
#[derive(Clone, Debug)]
pub struct MBC2State {
    pub ram_enabled: bool,
    pub ram_data: Vec<u8>,
    pub rom_bank: u8,
}

impl MBC2State {
    pub open spec fn wf(&self) -> bool {
        self.ram_data@.len() == 512
    }

    /// The register written at `addr` (bit 8 of the address selects it).
    pub open spec fn spec_set_register(self, addr: u16, value: u8) -> MBC2State {
        if addr & 0x100 == 0 {
            MBC2State { ram_enabled: value & 0xF == 0x0A, ..self }
        } else {
            MBC2State { rom_bank: if value & 0x0F == 0 { 1 } else { value & 0x0F }, ..self }
        }
    }

    /// The built-in RAM index of an address in 0xA000-0xBFFF (mirrored every 512 bytes).
    pub open spec fn local_addr(addr: u16) -> int {
        (addr - 0xA000) % 512
    }

    pub open spec fn spec_read(self, data: CartridgeData, addr: u16) -> u8 {
        if addr < 0x4000 {
            data.rom()[0][addr as int]
        } else if addr < 0x8000 {
            data.rom()[self.rom_bank as int % data.rom_banks@.len() as int][addr - 0x4000]
        } else if self.ram_enabled {
            self.ram_data@[Self::local_addr(addr)] | 0xF0
        } else {
            0xFF
        }
    }

    /// `s2` is the controller after writing `value` to `addr`: registers below 0x4000,
    /// the built-in RAM (when enabled) at 0xA000-0xBFFF; other addresses are ignored.
    pub open spec fn write_rel(self, addr: u16, value: u8, s2: Self) -> bool {
        &&& addr < 0x4000 ==> s2 == self.spec_set_register(addr, value)
        &&& 0xA000 <= addr < 0xC000 && self.ram_enabled ==> s2.ram_data@ == self.ram_data@.update(
            Self::local_addr(addr),
            value | 0xF0,
        ) && s2.rom_bank == self.rom_bank && s2.ram_enabled == self.ram_enabled
        &&& !(addr < 0x4000) && !(0xA000 <= addr < 0xC000 && self.ram_enabled) ==> s2 == self
    }

    pub fn default() -> (s: Self)
        ensures
            s.rom_bank == 1,
            !s.ram_enabled,
            s.ram_data@ == Seq::new(512, |i: int| 0u8),
            s.wf(),
    {
        let s = Self { rom_bank: 1, ram_enabled: false, ram_data: vec![0; 512] };
        assert(s.ram_data@ =~= Seq::new(512, |i: int| 0u8));
        s
    }

    fn set_register(&mut self, addr: u16, value: u8)
        ensures
            *final(self) == old(self).spec_set_register(addr, value),
    {
        if addr & 0x100 == 0 {
            self.ram_enabled = value & 0xF == 0x0A;
        } else {
            self.rom_bank = value & 0x0F;
            if self.rom_bank == 0 {
                self.rom_bank = 1;
            }
        }
    }

    /// Reads ROM or the built-in RAM; its upper half-byte always reads as 1s, and
    /// disabled RAM reads 0xFF.
    pub fn read(&self, data: &CartridgeData, addr: u16) -> (r: u8)
        requires
            self.wf(),
            mbc_address(addr),
            bank_counts_fit(*data),
        ensures
            r == self.spec_read(*data, addr),
    {
        if addr < 0x4000 {
            data.rom_byte(0, addr as usize)
        } else if addr < 0x8000 {
            let bank = self.rom_bank;
            data.rom_byte(bank as usize % data.rom_banks.len(), (addr - 0x4000) as usize)
        } else {
            let local_addr = ((addr - 0xA000) % 512) as usize;
            if self.ram_enabled {
                self.ram_data[local_addr] | 0xF0
            } else {
                0xFF
            }
        }
    }

    /// Writes a register (0x0000-0x3FFF) or, when enabled, the built-in RAM, which
    /// stores the value with its upper half-byte set. Other addresses are ignored.
    pub fn write(&mut self, _data: &mut CartridgeData, addr: u16, value: u8)
        requires
            old(self).wf(),
        ensures
            final(self).wf(),
            *final(_data) == *old(_data),
            old(self).write_rel(addr, value, *final(self)),
    {
        if addr < 0x4000 {
            self.set_register(addr, value);
        } else if 0xA000 <= addr && addr < 0xC000 {
            let local_addr = ((addr - 0xA000) % 512) as usize;
            if self.ram_enabled {
                self.ram_data.set(local_addr, value | 0xF0);
            }
        }
    }
}

/// With RAM enabled, a half-byte written to MBC2 RAM reads back (upper bits as 1s).
pub proof fn lemma_mbc2_ram_read_after_write(s: MBC2State, t: MBC2State, data: CartridgeData, addr: u16, value: u8)
    requires
        s.wf(),
        0xA000 <= addr < 0xC000,
        s.ram_enabled,
        t.ram_enabled,
        t.ram_data@ == s.ram_data@.update(MBC2State::local_addr(addr), value | 0xF0),
    ensures
        t.spec_read(data, addr) == value | 0xF0,
{
    assert((value | 0xF0u8) | 0xF0u8 == value | 0xF0u8) by (bit_vector);
}

} // verus!
