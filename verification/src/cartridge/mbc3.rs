use vstd::prelude::*;
use crate::cartridge::cartridge_data::CartridgeData;
use crate::cartridge::mbc1::mbc_address;

verus! {

/// What 0xA000-0xBFFF is mapped to: a RAM bank or a clock register.
#[derive(Clone, Copy, Debug, PartialEq, Eq, Structural)]
pub enum Mbc3BankingMode {
    Ram,
    Rtc,
}

/// MBC3: 7-bit ROM bank, four RAM banks or a real-time-clock register at 0xA000.
#[derive(Clone, Copy, Debug)]
pub struct MBC3State {
    pub banking_mode: Mbc3BankingMode,
    pub rom_bank: usize,
    pub ram_bank: usize,
    pub ram_enabled: bool,
    pub rtc_register: usize,
}

impl MBC3State {
    pub open spec fn spec_default() -> MBC3State {
        MBC3State { banking_mode: Mbc3BankingMode::Ram, rom_bank: 0, ram_bank: 0, ram_enabled: false, rtc_register: 0 }
    }

    /// The bank at 0x4000-0x7FFF; bank 0 selects bank 1.
    pub open spec fn spec_rom_bank(self) -> usize {
        if self.rom_bank == 0 {
            1
        } else {
            self.rom_bank
        }
    }

    pub open spec fn spec_write_register(self, value: u8) -> MBC3State {
        if value < 4 {
            MBC3State { banking_mode: Mbc3BankingMode::Ram, ram_bank: value as usize, ..self }
        } else if 8 <= value < 0xC {
            MBC3State { banking_mode: Mbc3BankingMode::Rtc, rtc_register: value as usize, ..self }
        } else {
            self
        }
    }

    /// The controller after a write to 0x0000-0x7FFF.
    pub open spec fn spec_write_control(self, addr: u16, value: u8) -> MBC3State {
        if addr < 0x2000 {
            MBC3State { ram_enabled: value == 0x0A, ..self }
        } else if addr < 0x4000 {
            MBC3State { rom_bank: value as usize, ..self }
        } else if addr < 0x6000 {
            self.spec_write_register(value)
        } else {
            self
        }
    }

    /// The banks the mapped addresses need exist (else the cartridge access faults).
    pub open spec fn banks_present(self, data: CartridgeData, addr: u16) -> bool {
        &&& data.rom_banks@.len() > 0
        &&& (0x4000 <= addr < 0x8000 ==> self.spec_rom_bank() < data.rom_banks@.len())
        &&& (0xA000 <= addr < 0xC000 && self.banking_mode == Mbc3BankingMode::Ram ==> self.ram_bank
            < data.ram_banks@.len())
    }

    pub open spec fn spec_read(self, data: CartridgeData, addr: u16) -> u8 {
        if addr < 0x4000 {
            data.rom()[0][addr as int]
        } else if addr < 0x8000 {
            data.rom()[self.spec_rom_bank() as int][addr - 0x4000]
        } else {
            match self.banking_mode {
                Mbc3BankingMode::Ram => data.ram()[self.ram_bank as int][addr - 0xA000],
                Mbc3BankingMode::Rtc => 0,
            }
        }
    }

    /// `s2` and `data2` are the controller and memory after writing `value` to `addr`.
    pub open spec fn write_rel(self, data: CartridgeData, addr: u16, value: u8, s2: Self, data2: CartridgeData) -> bool {
        &&& addr < 0x8000 ==> s2 == self.spec_write_control(addr, value) && data2 == data
        &&& addr >= 0x8000 ==> s2 == self
        &&& 0xA000 <= addr < 0xC000 && self.banking_mode == Mbc3BankingMode::Ram ==> data.ram_written(
            data2,
            self.ram_bank as int,
            addr - 0xA000,
            value,
        )
        &&& !(0xA000 <= addr < 0xC000 && self.banking_mode == Mbc3BankingMode::Ram) ==> data2 == data
    }

    /// The bank a write to `addr` needs exists.
    pub open spec fn can_write(self, data: CartridgeData, addr: u16) -> bool {
        (0xA000 <= addr < 0xC000 && self.banking_mode == Mbc3BankingMode::Ram) ==> self.ram_bank < data.ram_banks@.len()
    }

    pub fn default() -> (s: Self)
        ensures
            s == Self::spec_default(),
    {
        Self { banking_mode: Mbc3BankingMode::Ram, rom_bank: 0, ram_bank: 0, ram_enabled: false, rtc_register: 0 }
    }

    fn get_rom_bank(&self) -> (b: usize)
        ensures
            b == self.spec_rom_bank(),
    {
        if self.rom_bank == 0 {
            1
        } else {
            self.rom_bank
        }
    }

    fn write_register(&mut self, value: u8)
        ensures
            *final(self) == old(self).spec_write_register(value),
    {
        if value < 4 {
            self.banking_mode = Mbc3BankingMode::Ram;
            self.ram_bank = value as usize;
        } else if 8 <= value && value < 0xC {
            self.banking_mode = Mbc3BankingMode::Rtc;
            self.rtc_register = value as usize;
        }
    }

    /// Reads ROM, or the selected RAM bank (the clock registers read 0).
    pub fn read(&self, data: &CartridgeData, addr: u16) -> (r: u8)
        requires
            mbc_address(addr),
            self.banks_present(*data, addr),
        ensures
            r == self.spec_read(*data, addr),
    {
        if addr < 0x4000 {
            data.rom_byte(0, addr as usize)
        } else if addr < 0x8000 {
            let bank = self.get_rom_bank();
            data.rom_byte(bank, (addr - 0x4000) as usize)
        } else {
            match self.banking_mode {
                Mbc3BankingMode::Ram => data.ram_byte(self.ram_bank, (addr - 0xA000) as usize),
                Mbc3BankingMode::Rtc => 0,
            }
        }
    }

    /// Writes a control register, or the selected RAM bank (clock writes are dropped).
    pub fn write(&mut self, data: &mut CartridgeData, addr: u16, value: u8)
        requires
            old(self).can_write(*old(data), addr),
        ensures
            old(self).write_rel(*old(data), addr, value, *final(self), *final(data)),
            final(data).rom_banks@.len() == old(data).rom_banks@.len(),
            final(data).ram_banks@.len() == old(data).ram_banks@.len(),
    {
        if addr < 0x2000 {
            self.ram_enabled = value == 0x0A;
        } else if addr < 0x4000 {
            self.rom_bank = value as usize;
        } else if addr < 0x6000 {
            self.write_register(value);
        } else if addr < 0x8000 {
        } else if 0xA000 <= addr && addr < 0xC000 {
            match self.banking_mode {
                Mbc3BankingMode::Ram => data.set_ram_byte(self.ram_bank, (addr - 0xA000) as usize, value),
                Mbc3BankingMode::Rtc => {},
            }
        }
    }
}

/// In RAM mode, a byte written to 0xA000-0xBFFF reads back unchanged.
pub proof fn lemma_mbc3_ram_read_after_write(s: MBC3State, data: CartridgeData, after: CartridgeData, addr: u16, value: u8)
    requires
        0xA000 <= addr < 0xC000,
        s.banking_mode == Mbc3BankingMode::Ram,
        s.ram_bank < data.ram_banks@.len(),
        data.ram_written(after, s.ram_bank as int, addr - 0xA000, value),
    ensures
        s.spec_read(after, addr) == value,
{
}

} // verus!
