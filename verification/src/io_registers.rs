use vstd::prelude::*;

verus! {

// Timers
pub const DIV: u16 = 0xFF04;
pub const TIMA: u16 = 0xFF05;
pub const TMA: u16 = 0xFF06;
pub const TAC: u16 = 0xFF07;

// Sound
pub const NR10: u16 = 0xFF10;
pub const NR11: u16 = 0xFF11;
pub const NR12: u16 = 0xFF12;
pub const NR14: u16 = 0xFF14;
pub const NR21: u16 = 0xFF16;
pub const NR22: u16 = 0xFF17;
pub const NR24: u16 = 0xFF19;
pub const NR30: u16 = 0xFF1A;
pub const NR31: u16 = 0xFF1B;
pub const NR32: u16 = 0xFF1C;
pub const NR33: u16 = 0xFF1E;
pub const NR41: u16 = 0xFF20;
pub const NR42: u16 = 0xFF21;
pub const NR43: u16 = 0xFF22;
pub const NR44: u16 = 0xFF23;
pub const NR50: u16 = 0xFF24;
pub const NR51: u16 = 0xFF25;
pub const NR52: u16 = 0xFF26;

// Picture unit
pub const LCDC: u16 = 0xFF40;
pub const STAT: u16 = 0xFF41;
pub const SCY: u16 = 0xFF42;
pub const SCX: u16 = 0xFF43;
pub const LY: u16 = 0xFF44;
pub const LYC: u16 = 0xFF45;
pub const DMA: u16 = 0xFF46;
/// Background palette data (monochrome mode only).
pub const BGP: u16 = 0xFF47;
/// Object palette 0 data (monochrome mode only).
pub const OBP0: u16 = 0xFF48;
/// Object palette 1 data (monochrome mode only).
pub const OBP1: u16 = 0xFF49;
pub const WY: u16 = 0xFF4A;
pub const WX: u16 = 0xFF4B;

// Serial transfer, interrupts, joypad
pub const SB: u16 = 0xFF01;
pub const SC: u16 = 0xFF02;
pub const IF: u16 = 0xFF0F;
pub const IE: u16 = 0xFFFF;
pub const JOYP: u16 = 0xFF00;

pub const DISABLE_BOOT: u16 = 0xFF50;

// Game Boy Color registers
/// VRAM bank.
pub const VBK: u16 = 0xFF4F;
/// Infra-red communications port.
pub const RP: u16 = 0xFF56;
/// Speed switch: bit 7 the current speed (read only), bit 0 prepare a switch.
pub const KEY1: u16 = 0xFF4D;
/// Object priority mode.
pub const OPRI: u16 = 0xFF6C;
/// Background colour palette index.
pub const BGPI: u16 = 0xFF68;
/// Background colour palette data.
pub const BGPD: u16 = 0xFF69;
/// Object colour palette index.
pub const OBPI: u16 = 0xFF6A;
/// Object colour palette data.
pub const OBPD: u16 = 0xFF6B;
/// Work RAM bank.
pub const SVBK: u16 = 0xFF70;
pub const HDMA1: u16 = 0xFF51;
pub const HDMA2: u16 = 0xFF52;
pub const HDMA3: u16 = 0xFF53;
pub const HDMA4: u16 = 0xFF54;
pub const HDMA5: u16 = 0xFF55;

/// The plain storage behind the I/O registers 0xFF00-0xFF7F.
#[derive(Clone, Copy, Debug)]
pub struct IORegisterState {
    pub values: [u8; 0x80],
}

/// An address inside the I/O register block.
pub open spec fn io_address(addr: u16) -> bool {
    0xFF00 <= addr < 0xFF80
}

impl IORegisterState {
    pub fn default() -> (s: Self)
        ensures
            s.values@ == Seq::new(0x80, |i: int| 0u8),
    {
        let s = Self { values: [0; 0x80] };
        assert(s.values@ =~= Seq::new(0x80, |i: int| 0u8));
        s
    }

    /// The byte stored for register `index`.
    pub fn index(&self, index: u16) -> (r: u8)
        requires
            io_address(index),
        ensures
            r == self.values@[index - 0xFF00],
    {
        self.values[(index - 0xFF00) as usize]
    }

    /// Stores `value` for register `index`.
    pub fn set(&mut self, index: u16, value: u8)
        requires
            io_address(index),
        ensures
            final(self).values@ == old(self).values@.update(index - 0xFF00, value),
    {
        self.values[(index - 0xFF00) as usize] = value;
    }
}

/// Read and write access to the I/O register block of a machine. A write to HDMA5 may
/// start a general-purpose VRAM DMA transfer, which the write performs at once.
pub trait IORegisters {
    /// The machine is in a state in which its registers can be served.
    spec fn io_ready(&self) -> bool;

    /// Writing `value` to register `addr` cannot fault.
    spec fn io_write_ok(&self, addr: u16, value: u8) -> bool;

    fn read_io(&self, addr: u16) -> u8
        requires
            self.io_ready(),
            io_address(addr),
    ;

    fn write_io(&mut self, addr: u16, value: u8)
        requires
            old(self).io_ready(),
            io_address(addr),
            old(self).io_write_ok(addr, value),
        ensures
            final(self).io_ready(),
    ;
}

/// JOYP as read: with bit 4 of the stored select bits set, the low half of the raw
/// joypad byte; else with bit 5 set, its high half; else no lines. Bits 6-7 read as 1.
pub open spec fn spec_read_joyp(select: u8, raw_joyp_input: u8) -> u8 {
    if select & 0x10 == 0x10 {
        (raw_joyp_input & 0x0F) | 0xC0
    } else if select & 0x20 == 0x20 {
        ((raw_joyp_input >> 4u8) & 0x0F) | 0xC0
    } else {
        0xCF
    }
}

/// Reads JOYP from the stored select bits and the raw joypad byte (active low).
pub fn read_joyp(select: u8, raw_joyp_input: u8) -> (r: u8)
    ensures
        r == spec_read_joyp(select, raw_joyp_input),
{
    if select & 0x10 == 0x10 {
        (raw_joyp_input & 0b1111) | 0b11000000
    } else if select & 0x20 == 0x20 {
        ((raw_joyp_input >> 4u8) & 0b1111) | 0b11000000
    } else {
        0b11001111
    }
}

/// A stored register reads back what was stored, and no other register changes.
pub proof fn lemma_io_read_after_write(s: IORegisterState, t: IORegisterState, a: u16, b: u16, value: u8)
    requires
        io_address(a),
        io_address(b),
        t.values@ == s.values@.update(a - 0xFF00, value),
    ensures
        t.values@[b - 0xFF00] == if a == b { value } else { s.values@[b - 0xFF00] },
{
}

} // verus!
