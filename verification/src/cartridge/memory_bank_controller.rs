use vstd::prelude::*;
use crate::cartridge::Cartridge;
use crate::cartridge::cartridge_data::CartridgeData;
use crate::cartridge::mbc1::{MBC1State, mbc_address, bank_counts_fit};
use crate::cartridge::mbc2::MBC2State;
use crate::cartridge::mbc3::MBC3State;
use crate::cartridge::mbc5::MBC5State;

verus! {

/// A memory bank controller seen as a read/write device.
pub trait MemoryBankController: Sized {
    fn read(&mut self, addr: u16) -> u8;
    fn write(&mut self, addr: u16, value: u8);
}

/// The memory bank controller fitted to a cartridge.
#[derive(Clone, Debug)]
pub enum Mbc {
    ROM,
    MBC1(MBC1State),
    MBC2(MBC2State),
    MBC3(MBC3State),
    MBC5(MBC5State),
    MBC6,
    MMM01,
    MBC7,
    HUC3,
    HUC1,
}

impl Mbc {
    /// The controllers this emulator implements.
    pub open spec fn supported(self) -> bool {
        self is ROM || self is MBC1 || self is MBC2 || self is MBC3 || self is MBC5
    }
}

impl Cartridge {
    /// A read of `addr` is defined: the controller is implemented, the address is
    /// one it answers, and the banks it maps exist.
    pub open spec fn can_read(self, addr: u16) -> bool {
        match self.1 {
            Mbc::ROM => self.0.rom_banks@.len() >= 2,
            Mbc::MBC1(_) => mbc_address(addr) && bank_counts_fit(self.0),
            Mbc::MBC2(s) => s.wf() && mbc_address(addr) && bank_counts_fit(self.0),
            Mbc::MBC3(s) => mbc_address(addr) && s.banks_present(self.0, addr),
            Mbc::MBC5(_) => mbc_address(addr) && bank_counts_fit(self.0),
            _ => false,
        }
    }

    pub open spec fn can_write(self, addr: u16) -> bool {
        match self.1 {
            Mbc::ROM => true,
            Mbc::MBC1(_) => mbc_address(addr) && bank_counts_fit(self.0),
            Mbc::MBC2(s) => s.wf(),
            Mbc::MBC3(s) => s.can_write(self.0, addr),
            Mbc::MBC5(_) => mbc_address(addr) && bank_counts_fit(self.0),
            _ => false,
        }
    }

    pub open spec fn spec_read(self, addr: u16) -> u8 {
        match self.1 {
            Mbc::ROM => if addr < 0x4000 {
                self.0.rom()[0][addr as int]
            } else if addr < 0x8000 {
                self.0.rom()[1][addr - 0x4000]
            } else {
                0xFF
            },
            Mbc::MBC1(s) => s.spec_read(self.0, addr),
            Mbc::MBC2(s) => s.spec_read(self.0, addr),
            Mbc::MBC3(s) => s.spec_read(self.0, addr),
            Mbc::MBC5(s) => s.spec_read(self.0, addr),
            _ => 0,
        }
    }

    /// `c2` is the cartridge after writing `value` to `addr`.
    pub open spec fn write_rel(self, addr: u16, value: u8, c2: Cartridge) -> bool {
        &&& c2.2 == self.2
        &&& match (self.1, c2.1) {
            (Mbc::ROM, Mbc::ROM) => c2.0 == self.0,
            (Mbc::MBC1(s), Mbc::MBC1(s2)) => s.write_rel(self.0, addr, value, s2, c2.0),
            (Mbc::MBC2(s), Mbc::MBC2(s2)) => s.write_rel(addr, value, s2) && c2.0 == self.0,
            (Mbc::MBC3(s), Mbc::MBC3(s2)) => s.write_rel(self.0, addr, value, s2, c2.0),
            (Mbc::MBC5(s), Mbc::MBC5(s2)) => s.write_rel(self.0, addr, value, s2, c2.0),
            _ => false,
        }
    }

    /// Reads the cartridge's address space (ROM 0x0000-0x7FFF, RAM 0xA000-0xBFFF).
    pub fn read(&self, addr: u16) -> (r: u8)
        requires
            self.can_read(addr),
        ensures
            r == self.spec_read(addr),
    {
        match &self.1 {
            Mbc::ROM => {
                if addr < 0x4000 {
                    self.0.rom_byte(0, addr as usize)
                } else if addr < 0x8000 {
                    self.0.rom_byte(1, (addr as usize) - 0x4000)
                } else {
                    0xFF
                }
            },
            Mbc::MBC1(state) => state.read(&self.0, addr),
            Mbc::MBC2(state) => state.read(&self.0, addr),
            Mbc::MBC3(state) => state.read(&self.0, addr),
            Mbc::MBC5(state) => state.read(&self.0, addr),
            _ => 0,
        }
    }

    /// Writes the cartridge's address space: controller registers or external RAM.
    /// The ROM itself never changes.
    pub fn write(&mut self, addr: u16, value: u8)
        requires
            old(self).can_write(addr),
        ensures
            old(self).write_rel(addr, value, *final(self)),
            final(self).0.rom() == old(self).0.rom(),
    {
        let Cartridge(data, mbc, _info) = self;
        match mbc {
            Mbc::ROM => {},
            Mbc::MBC1(state) => state.write(data, addr, value),
            Mbc::MBC2(state) => state.write(data, addr, value),
            Mbc::MBC3(state) => state.write(data, addr, value),
            Mbc::MBC5(state) => state.write(data, addr, value),
            _ => {},
        }
    }
}

} // verus!
