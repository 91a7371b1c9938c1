use vstd::prelude::*;
use crate::cartridge::cartridge_data::CartridgeData;
use crate::bits::lemma_u8_facts;

verus! {

#[derive(Clone, Copy, Debug, PartialEq, Eq, Structural)]
pub enum BankingMode {
    Simple,
    Complex,
}

/// MBC1: a 7-bit banking register (5 low ROM bits, 2 bits shared between the
/// upper ROM bits and the RAM bank), a RAM gate and a banking mode.
#[derive(Clone, Copy, Debug)]
pub struct MBC1State {
    pub banking_mode: BankingMode,
    pub banking_register: u8,
    pub ram_enabled: bool,
}

/// The addresses a memory bank controller answers: ROM and external RAM.
pub open spec fn mbc_address(addr: u16) -> bool {
    addr < 0x8000 || (0xA000 <= addr < 0xC000)
}

/// The cartridge's bank counts fit the 16-bit arithmetic the controllers use.
pub open spec fn bank_counts_fit(data: CartridgeData) -> bool {
    &&& 0 < data.rom_banks@.len() < 0x10000
    &&& data.ram_banks@.len() < 0x10000
}

impl MBC1State {
    pub open spec fn spec_default() -> MBC1State {
        MBC1State { banking_mode: BankingMode::Simple, banking_register: 0, ram_enabled: false }
    }

    /// The bank mapped at 0x0000-0x3FFF.
    pub open spec fn spec_zero_rom_bank(self) -> u16 {
        match self.banking_mode {
            BankingMode::Simple => 0,
            BankingMode::Complex => (self.banking_register as u16) & 0b01100000,
        }
    }

    /// The bank mapped at 0x4000-0x7FFF; a zero in the low five bits selects one higher.
    pub open spec fn spec_rom_bank(self) -> u16 {
        let bank = self.banking_register & 0b01111111;
        (if bank & 0b00011111 == 0 { (bank + 1) as u8 } else { bank }) as u16
    }

    /// The RAM bank mapped at 0xA000-0xBFFF.
    pub open spec fn spec_ram_bank(self) -> u16 {
        match self.banking_mode {
            BankingMode::Simple => 0,
            BankingMode::Complex => ((self.banking_register >> 5u8) & 0b11) as u16,
        }
    }

    pub open spec fn ram_accessible(self, data: CartridgeData) -> bool {
        data.ram_banks@.len() > 0 && self.ram_enabled
    }

    /// The RAM bank actually addressed: the selected bank modulo the number of banks.
    pub open spec fn effective_ram_bank(self, data: CartridgeData) -> int {
        self.spec_ram_bank() as int % data.ram_banks@.len() as int
    }

    pub open spec fn spec_read(self, data: CartridgeData, addr: u16) -> u8 {
        if addr < 0x4000 {
            data.rom()[self.spec_zero_rom_bank() as int % data.rom_banks@.len() as int][addr as int]
        } else if addr < 0x8000 {
            data.rom()[self.spec_rom_bank() as int % data.rom_banks@.len() as int][addr - 0x4000]
        } else if !self.ram_accessible(data) {
            0xFF
        } else {
            data.ram()[self.effective_ram_bank(data)][addr - 0xA000]
        }
    }

    /// The controller after a write to its register area (0x0000-0x7FFF).
    pub open spec fn spec_write_register(self, addr: u16, value: u8) -> MBC1State {
        if addr < 0x2000 {
            MBC1State { ram_enabled: value & 0xF == 0xA, ..self }
        } else if addr < 0x4000 {
            MBC1State { banking_register: (self.banking_register & 0b01100000) | (value & 0b00011111), ..self }
        } else if addr < 0x6000 {
            MBC1State { banking_register: (self.banking_register & 0b00011111) | ((value & 0b11) << 5u8), ..self }
        } else {
            MBC1State { banking_mode: if value == 1 { BankingMode::Complex } else { BankingMode::Simple }, ..self }
        }
    }

    /// `s2` and `data2` are the controller and memory after writing `value` to `addr`:
    /// registers below 0x8000, external RAM (when present and enabled) above.
    pub open spec fn write_rel(self, data: CartridgeData, addr: u16, value: u8, s2: Self, data2: CartridgeData) -> bool {
        &&& addr < 0x8000 ==> s2 == self.spec_write_register(addr, value) && data2 == data
        &&& addr >= 0x8000 ==> s2 == self
        &&& addr >= 0x8000 && !self.ram_accessible(data) ==> data2 == data
        &&& addr >= 0x8000 && self.ram_accessible(data) ==> data.ram_written(
            data2,
            self.effective_ram_bank(data),
            addr - 0xA000,
            value,
        )
    }

    pub fn default() -> (s: Self)
        ensures
            s == Self::spec_default(),
    {
        Self { banking_mode: BankingMode::Simple, banking_register: 0, ram_enabled: false }
    }

    fn get_zero_rom_bank(&self) -> (b: u16)
        ensures
            b == self.spec_zero_rom_bank(),
    {
        let bank = self.banking_register;
        match self.banking_mode {
            BankingMode::Simple => 0,
            BankingMode::Complex => (bank as u16) & 0b01100000,
        }
    }

    fn get_rom_bank(&self) -> (b: u16)
        ensures
            b == self.spec_rom_bank(),
    {
        let reg = self.banking_register;
        let bank = reg & 0b01111111;
        proof {
            lemma_u8_facts();
        }
        (if bank & 0b00011111 == 0 {
            bank + 1
        } else {
            bank
        }) as u16
    }

    fn get_ram_bank(&self) -> (b: u16)
        ensures
            b == self.spec_ram_bank(),
    {
        match self.banking_mode {
            BankingMode::Simple => 0,
            BankingMode::Complex => ((self.banking_register >> 5u8) & 0b11) as u16,
        }
    }

    fn set_ram_bank(&mut self, value: u8)
        ensures
            *final(self) == old(self).spec_write_register(0x4000, value),
    {
        let value = value & 0b00000011;
        self.banking_register = self.banking_register & 0b00011111;
        self.banking_register = self.banking_register | (value << 5u8);
    }

    fn set_rom_bank(&mut self, value: u8)
        ensures
            *final(self) == old(self).spec_write_register(0x2000, value),
    {
        let value = value & 0b00011111;
        self.banking_register = self.banking_register & 0b01100000;
        self.banking_register = self.banking_register | value;
    }

    fn set_ram_enable(&mut self, value: u8)
        ensures
            *final(self) == old(self).spec_write_register(0, value),
    {
        self.ram_enabled = value & 0xF == 0xA;
    }

    fn set_banking_mode(&mut self, value: u8)
        ensures
            *final(self) == old(self).spec_write_register(0x6000, value),
    {
        self.banking_mode = if value == 1 { BankingMode::Complex } else { BankingMode::Simple };
    }

    /// Reads ROM (0x0000-0x7FFF) or external RAM (0xA000-0xBFFF); RAM that is absent
    /// or disabled reads 0xFF.
    pub fn read(&self, data: &CartridgeData, addr: u16) -> (r: u8)
        requires
            mbc_address(addr),
            bank_counts_fit(*data),
        ensures
            r == self.spec_read(*data, addr),
    {
        if addr < 0x4000 {
            let bank = self.get_zero_rom_bank() as usize % data.rom_banks.len();
            data.rom_byte(bank, addr as usize)
        } else if addr < 0x8000 {
            let bank = self.get_rom_bank() % (data.rom_banks.len() as u16);
            data.rom_byte(bank as usize, (addr - 0x4000) as usize)
        } else {
            if data.ram_banks.len() == 0 || !self.ram_enabled {
                return 0xFF;
            }
            let bank = self.get_ram_bank() % (data.ram_banks.len() as u16);
            data.ram_byte(bank as usize, (addr - 0xA000) as usize)
        }
    }

    /// Writes a register (0x0000-0x7FFF) or external RAM (0xA000-0xBFFF); writes to
    /// RAM that is absent or disabled are dropped.
    pub fn write(&mut self, data: &mut CartridgeData, addr: u16, value: u8)
        requires
            mbc_address(addr),
            bank_counts_fit(*old(data)),
        ensures
            old(self).write_rel(*old(data), addr, value, *final(self), *final(data)),
            bank_counts_fit(*final(data)),
    {
        if addr < 0x2000 {
            self.set_ram_enable(value)
        } else if addr < 0x4000 {
            self.set_rom_bank(value)
        } else if addr < 0x6000 {
            self.set_ram_bank(value)
        } else if addr < 0x8000 {
            self.set_banking_mode(value)
        } else {
            if data.ram_banks.len() == 0 || !self.ram_enabled {
                return;
            }
            let bank = self.get_ram_bank() % (data.ram_banks.len() as u16);
            data.set_ram_byte(bank as usize, (addr - 0xA000) as usize, value);
        }
    }
}

/// MBC1 never maps a bank whose low five bits are zero at 0x4000-0x7FFF.
pub proof fn lemma_mbc1_rom_bank_nonzero(s: MBC1State)
    ensures
        s.spec_rom_bank() % 32 != 0,
{
    let r = s.banking_register;
    assert((if (r & 0x7F) & 0x1F == 0 { ((r & 0x7F) + 1) as u8 } else { r & 0x7F }) % 32 != 0) by (bit_vector);
}

/// With RAM enabled, a byte written to external RAM reads back unchanged.
pub proof fn lemma_mbc1_ram_read_after_write(
    s: MBC1State,
    data: CartridgeData,
    after: CartridgeData,
    addr: u16,
    value: u8,
)
    requires
        0xA000 <= addr < 0xC000,
        bank_counts_fit(data),
        s.ram_accessible(data),
        data.ram_written(after, s.effective_ram_bank(data), addr - 0xA000, value),
        forall|b: int| 0 <= b < data.ram_banks@.len() ==> #[trigger] data.ram()[b].len() == 0x2000,
    ensures
        s.spec_read(after, addr) == value,
{
    assert(after.ram_banks@.len() == after.ram().len());
    assert(data.ram_banks@.len() == data.ram().len());
}

} // verus!
