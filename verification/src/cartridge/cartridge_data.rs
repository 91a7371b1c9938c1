use vstd::prelude::*;

verus! {

pub const ROM_BANK_SIZE: usize = 0x4000;
pub const RAM_BANK_SIZE: usize = 0x2000;

/// One 8 KiB bank of cartridge RAM.
#[derive(Clone, Copy, Debug)]
pub struct RamBank {
    pub data: [u8; 0x2000],
}

/// One 16 KiB bank of cartridge ROM.
#[derive(Clone, Copy, Debug)]
pub struct RomBank {
    pub data: [u8; 0x4000],
}

impl RomBank {
    pub fn index(&self, index: usize) -> (r: u8)
        requires
            index < ROM_BANK_SIZE,
        ensures
            r == self.data@[index as int],
    {
        self.data[index]
    }

    pub fn set(&mut self, index: usize, value: u8)
        requires
            index < ROM_BANK_SIZE,
        ensures
            final(self).data@ == old(self).data@.update(index as int, value),
    {
        self.data[index] = value;
    }
}

impl RamBank {
    pub fn index(&self, index: usize) -> (r: u8)
        requires
            index < RAM_BANK_SIZE,
        ensures
            r == self.data@[index as int],
    {
        self.data[index]
    }

    pub fn set(&mut self, index: usize, value: u8)
        requires
            index < RAM_BANK_SIZE,
        ensures
            final(self).data@ == old(self).data@.update(index as int, value),
    {
        self.data[index] = value;
    }
}

/// The cartridge's memory: its ROM banks and its battery-backed RAM banks.
#[derive(Clone, Debug)]
pub struct CartridgeData {
    pub ram_banks: Vec<RamBank>,
    pub rom_banks: Vec<RomBank>,
    /// False after a save state is restored until the ROM banks are put back.
    pub loaded: bool,
}

impl CartridgeData {
    /// The ROM, bank by bank.
    pub open spec fn rom(self) -> Seq<Seq<u8>> {
        self.rom_banks@.map_values(|b: RomBank| b.data@)
    }

    /// The RAM, bank by bank.
    pub open spec fn ram(self) -> Seq<Seq<u8>> {
        self.ram_banks@.map_values(|b: RamBank| b.data@)
    }

    /// Byte `i` of RAM bank `bank` replaced by `value`; everything else kept.
    pub open spec fn ram_written(self, other: CartridgeData, bank: int, i: int, value: u8) -> bool {
        &&& other.rom() == self.rom()
        &&& other.loaded == self.loaded
        &&& other.ram() == self.ram().update(bank, self.ram()[bank].update(i, value))
    }

    /// Splits `raw_data` into `banks` consecutive 16 KiB banks.
    pub fn create_rom_banks(banks: u32, raw_data: &[u8]) -> (r: Vec<RomBank>)
        requires
            raw_data@.len() >= banks * ROM_BANK_SIZE,
        ensures
            r@.len() == banks,
            forall|b: int, i: int|
                0 <= b < banks && 0 <= i < ROM_BANK_SIZE ==> #[trigger] r@[b].data@[i] == raw_data@[b * ROM_BANK_SIZE + i],
    {
        let n = raw_data.len();
        let mut res: Vec<RomBank> = Vec::new();
        let mut bank: usize = 0;
        while bank < banks as usize
            invariant
                bank <= banks,
                res@.len() == bank,
                raw_data@.len() >= banks * ROM_BANK_SIZE,
                n == raw_data@.len(),
                forall|b: int, i: int|
                    0 <= b < bank && 0 <= i < ROM_BANK_SIZE ==> #[trigger] res@[b].data@[i] == raw_data@[b * ROM_BANK_SIZE + i],
            decreases banks - bank,
        {
            let mut rb = RomBank { data: [0u8; 0x4000] };
            let mut i: usize = 0;
            while i < ROM_BANK_SIZE
                invariant
                    bank < banks,
                    i <= ROM_BANK_SIZE,
                    raw_data@.len() >= banks * ROM_BANK_SIZE,
                    n == raw_data@.len(),
                    forall|j: int| 0 <= j < i ==> #[trigger] rb.data@[j] == raw_data@[bank * ROM_BANK_SIZE + j],
                decreases ROM_BANK_SIZE - i,
            {
                proof {
                    assert(bank * ROM_BANK_SIZE + i < banks * ROM_BANK_SIZE) by (nonlinear_arith)
                        requires
                            bank < banks,
                            i < ROM_BANK_SIZE,
                    ;
                    assert(bank * ROM_BANK_SIZE + i < raw_data@.len());
                }
                let k: usize = bank * ROM_BANK_SIZE + i;
                rb.data[i] = raw_data[k];
                i += 1;
            }
            res.push(rb);
            bank += 1;
        }
        res
    }

    /// `banks` RAM banks, all zero.
    pub fn create_ram_banks(banks: u32) -> (r: Vec<RamBank>)
        ensures
            r@.len() == banks,
            forall|b: int, i: int| 0 <= b < banks && 0 <= i < RAM_BANK_SIZE ==> #[trigger] r@[b].data@[i] == 0,
    {
        let mut res: Vec<RamBank> = Vec::new();
        let mut bank: u32 = 0;
        while bank < banks
            invariant
                bank <= banks,
                res@.len() == bank,
                forall|b: int, i: int| 0 <= b < bank && 0 <= i < RAM_BANK_SIZE ==> #[trigger] res@[b].data@[i] == 0,
            decreases banks - bank,
        {
            let rb = RamBank { data: [0u8; 0x2000] };
            assert(forall|i: int| 0 <= i < RAM_BANK_SIZE ==> rb.data@[i] == 0);
            res.push(rb);
            bank += 1;
        }
        res
    }

    pub fn new(raw_data: &[u8], rom_banks: u32, ram_banks: u32) -> (d: Self)
        requires
            raw_data@.len() >= rom_banks * ROM_BANK_SIZE,
        ensures
            d.loaded,
            d.rom_banks@.len() == rom_banks,
            d.ram_banks@.len() == ram_banks,
            forall|b: int, i: int|
                0 <= b < rom_banks && 0 <= i < ROM_BANK_SIZE ==> #[trigger] d.rom_banks@[b].data@[i] == raw_data@[b * ROM_BANK_SIZE + i],
            forall|b: int, i: int| 0 <= b < ram_banks && 0 <= i < RAM_BANK_SIZE ==> #[trigger] d.ram_banks@[b].data@[i] == 0,
    {
        let rom_banks = Self::create_rom_banks(rom_banks, raw_data);
        let ram_banks = Self::create_ram_banks(ram_banks);
        Self { rom_banks, ram_banks, loaded: true }
    }

    /// Byte `i` of ROM bank `bank`.
    pub fn rom_byte(&self, bank: usize, i: usize) -> (r: u8)
        requires
            bank < self.rom_banks@.len(),
            i < ROM_BANK_SIZE,
        ensures
            r == self.rom()[bank as int][i as int],
    {
        self.rom_banks[bank].data[i]
    }

    /// Byte `i` of RAM bank `bank`.
    pub fn ram_byte(&self, bank: usize, i: usize) -> (r: u8)
        requires
            bank < self.ram_banks@.len(),
            i < RAM_BANK_SIZE,
        ensures
            r == self.ram()[bank as int][i as int],
    {
        self.ram_banks[bank].data[i]
    }

    /// Stores `value` at byte `i` of RAM bank `bank`.
    pub fn set_ram_byte(&mut self, bank: usize, i: usize, value: u8)
        requires
            bank < old(self).ram_banks@.len(),
            i < RAM_BANK_SIZE,
        ensures
            old(self).ram_written(*final(self), bank as int, i as int, value),
            final(self).ram_banks@.len() == old(self).ram_banks@.len(),
            final(self).rom_banks@.len() == old(self).rom_banks@.len(),
    {
        let mut b = self.ram_banks[bank];
        b.data[i] = value;
        self.ram_banks.set(bank, b);
        proof {
            assert(self.ram() =~= old(self).ram().update(bank as int, old(self).ram()[bank as int].update(i as int, value)));
            assert(self.rom() =~= old(self).rom());
        }
    }
}

} // verus!
