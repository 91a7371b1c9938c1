use vstd::prelude::*;
use crate::cartridge::cartridge_data::CartridgeData;
use crate::cartridge::mbc1::{mbc_address, bank_counts_fit};

verus! {

/// MBC5: a 9-bit ROM bank register and a 4-bit RAM bank register.
#[derive(Clone, Copy, Debug)]
pub struct MBC5State {
    pub rom_bank: u16,
    pub ram_bank: u8,
    pub ram_enabled: bool,
}

impl MBC5State {
    pub open spec fn ram_accessible(self, data: CartridgeData) -> bool {
        data.ram_banks@.len() > 0 && self.ram_enabled
    }

    pub open spec fn effective_ram_bank(self, data: CartridgeData) -> int {
        self.ram_bank as int % data.ram_banks@.len() as int
    }

    pub open spec fn spec_read(self, data: CartridgeData, addr: u16) -> u8 {
        if addr < 0x4000 {
            data.rom()[0][addr as int]
        } else if addr < 0x8000 {
            data.rom()[self.rom_bank as int % data.rom_banks@.len() as int][addr - 0x4000]
        } else if !self.ram_accessible(data) {
            0xFF
        } else {
            data.ram()[self.effective_ram_bank(data)][addr - 0xA000]
        }
    }

    /// The controller after a write to 0x0000-0x7FFF.
    pub open spec fn spec_write_register(self, addr: u16, value: u8) -> MBC5State {
        if addr < 0x2000 {
            MBC5State { ram_enabled: value & 0xF == 0xA, ..self }
        } else if addr < 0x3000 {
            MBC5State { rom_bank: (self.rom_bank & 0xFF00) | (value as u16), ..self }
        } else if addr < 0x4000 {
            MBC5State { rom_bank: (self.rom_bank & 0x00FF) | (((value as u16) & 1) << 8u16), ..self }
        } else if addr < 0x6000 {
            MBC5State { ram_bank: value & 0x0F, ..self }
        } else {
            self
        }
    }

    /// `s2` and `data2` are the controller and memory after writing `value` to `addr`:
    /// registers below 0x8000, external RAM (when present and enabled) above.
    pub open spec fn write_rel(self, data: CartridgeData, addr: u16, value: u8, s2: Self, data2: CartridgeData) -> bool {
        &&& addr < 0x8000 ==> s2 == self.spec_write_register(addr, value) && data2 == data
        &&& addr >= 0x8000 ==> s2 == self
        &&& addr >= 0x8000 && !self.ram_accessible(data) ==> data2 == data
        &&& addr >= 0x8000 && self.ram_accessible(data) ==> data.ram_written(
            data2,
            self.effective_ram_bank(data),
            addr - 0xA000,
            value,
        )
    }

    pub fn default() -> (s: Self)
        ensures
            s.rom_bank == 1,
            s.ram_bank == 0,
            !s.ram_enabled,
    {
        Self { rom_bank: 1, ram_bank: 0, ram_enabled: false }
    }

    fn get_rom_bank(&self) -> (b: u16)
        ensures
            b == self.rom_bank,
    {
        self.rom_bank
    }

    fn get_ram_bank(&self) -> (b: u16)
        ensures
            b == self.ram_bank,
    {
        self.ram_bank as u16
    }

    fn set_ram_bank(&mut self, value: u8)
        ensures
            *final(self) == old(self).spec_write_register(0x4000, value),
    {
        self.ram_bank = value & 0x0F;
    }

    fn set_rom_bank(&mut self, value: u8)
        ensures
            *final(self) == old(self).spec_write_register(0x2000, value),
    {
        self.rom_bank = self.rom_bank & 0xFF00;
        self.rom_bank = self.rom_bank | (value as u16);
    }

    fn set_rom_bank_upper(&mut self, value: u8)
        ensures
            *final(self) == old(self).spec_write_register(0x3000, value),
    {
        self.rom_bank = self.rom_bank & 0x00FF;
        self.rom_bank = self.rom_bank | (((value as u16) & 1) << 8u16);
    }

    fn set_ram_enable(&mut self, value: u8)
        ensures
            *final(self) == old(self).spec_write_register(0, value),
    {
        self.ram_enabled = value & 0xF == 0xA;
    }

    /// Reads ROM or external RAM; RAM that is absent or disabled reads 0xFF.
    pub fn read(&self, data: &CartridgeData, addr: u16) -> (r: u8)
        requires
            mbc_address(addr),
            bank_counts_fit(*data),
        ensures
            r == self.spec_read(*data, addr),
    {
        if addr < 0x4000 {
            data.rom_byte(0, addr as usize)
        } else if addr < 0x8000 {
            let bank = self.get_rom_bank() as usize % data.rom_banks.len();
            data.rom_byte(bank, (addr - 0x4000) as usize)
        } else {
            if data.ram_banks.len() == 0 || !self.ram_enabled {
                return 0xFF;
            }
            let bank = self.get_ram_bank() as usize % data.ram_banks.len();
            data.ram_byte(bank, (addr - 0xA000) as usize)
        }
    }

    /// Writes a register or, when enabled, external RAM.
    pub fn write(&mut self, data: &mut CartridgeData, addr: u16, value: u8)
        requires
            mbc_address(addr),
            bank_counts_fit(*old(data)),
        ensures
            old(self).write_rel(*old(data), addr, value, *final(self), *final(data)),
            bank_counts_fit(*final(data)),
    {
        if addr < 0x2000 {
            self.set_ram_enable(value)
        } else if addr < 0x3000 {
            self.set_rom_bank(value)
        } else if addr < 0x4000 {
            self.set_rom_bank_upper(value)
        } else if addr < 0x6000 {
            self.set_ram_bank(value)
        } else if addr < 0x8000 {
        } else {
            if data.ram_banks.len() == 0 || !self.ram_enabled {
                return;
            }
            let bank = self.get_ram_bank() % (data.ram_banks.len() as u16);
            data.set_ram_byte(bank as usize, (addr - 0xA000) as usize, value);
        }
    }
}

/// The ROM bank register holds at most nine bits.
pub proof fn lemma_mbc5_rom_bank_nine_bits(s: MBC5State, addr: u16, value: u8)
    requires
        s.rom_bank < 0x200,
        addr < 0x8000,
    ensures
        s.spec_write_register(addr, value).rom_bank < 0x200,
{
    let r = s.rom_bank;
    assert((r & 0xFF00) | (value as u16) < 0x200) by (bit_vector)
        requires
            r < 0x200,
    ;
    assert((r & 0x00FF) | (((value as u16) & 1) << 8u16) < 0x200) by (bit_vector);
}

/// With RAM enabled, a byte written to external RAM reads back unchanged.
pub proof fn lemma_mbc5_ram_read_after_write(s: MBC5State, data: CartridgeData, after: CartridgeData, addr: u16, value: u8)
    requires
        0xA000 <= addr < 0xC000,
        s.ram_accessible(data),
        data.ram_written(after, s.effective_ram_bank(data), addr - 0xA000, value),
    ensures
        s.spec_read(after, addr) == value,
{
    assert(after.ram_banks@.len() == after.ram().len());
    assert(data.ram_banks@.len() == data.ram().len());
}

/// After `v` is written to 0x4000-0x5FFF, external RAM is bank `v & 0x0F` (modulo the
/// bank count): reads see that bank, and a write changes that byte of that bank alone,
/// every other bank keeping its contents.
pub proof fn lemma_mbc5_ram_bank_select(
    s: MBC5State,
    data: CartridgeData,
    select: u16,
    v: u8,
    addr: u16,
    value: u8,
    s2: MBC5State,
    data2: CartridgeData,
)
    requires
        0x4000 <= select < 0x6000,
        0xA000 <= addr < 0xC000,
        s.ram_enabled,
        data.ram_banks@.len() > 0,
        s.spec_write_register(select, v).write_rel(data, addr, value, s2, data2),
    ensures
        ({
            let bank = (v & 0x0F) as int % data.ram_banks@.len() as int;
            &&& s.spec_write_register(select, v).spec_read(data, addr) == data.ram()[bank][addr - 0xA000]
            &&& data2.ram()[bank][addr - 0xA000] == value
            &&& forall|c: int| 0 <= c < data.ram_banks@.len() && c != bank ==> #[trigger] data2.ram()[c] == data.ram()[c]
        }),
{
    let bank = (v & 0x0F) as int % data.ram_banks@.len() as int;
    assert(data.ram()[bank].len() == 0x2000);
}

} // verus!
