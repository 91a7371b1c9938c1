use vstd::prelude::*;
use crate::cartridge::{Cartridge, known_type};
use crate::cartridge::header::{rom_parse, CARTRIDGE_TYPE, CGB_FLAG};
use crate::cgb::{CGBState, Speed};
use crate::controller::ControllerState;
use crate::dma_controller::{DMAController, DMATransferRequest};
use crate::io_registers::{
    io_address, read_joyp, spec_read_joyp, IORegisterState, IORegisters, BGP, BGPD, BGPI, DISABLE_BOOT, DMA, HDMA1,
    HDMA2, HDMA3, HDMA4, HDMA5, IF, JOYP, KEY1, LCDC, LY, LYC, OBP0, OBP1, OBPD, OBPI, SB, SC, SCX, SCY, STAT, SVBK,
    VBK, WX, WY,
};
use crate::memory_mapper::{
    is_accessible, lemma_echo_ram, read_region, spec_is_accessible, spec_read_region, spec_region, write_region, Region,
    Source,
};
use crate::oam_dma::OamDmaState;
use crate::ppu::color_ram::read_byte_of;
use crate::ppu::stat::Stat;
use crate::ppu::{lemma_step_keeps_palettes, PPUMode, PPUView, Registers, GBMode, PPU, VRAMBank};
use crate::save_state::RomSource;

verus! {

/// The hardware being emulated.
#[derive(Clone, Copy, Debug)]
pub enum Mode {
    /// Game Boy Color.
    GBC(CGBState),
    /// The monochrome Game Boy.
    DMG,
}

impl Mode {
    /// The VRAM bank the CPU sees: always bank 0 on the monochrome model.
    pub fn get_vram_bank(&self) -> (b: VRAMBank)
        ensures
            b == match self {
                Mode::GBC(state) => state.vram_bank,
                Mode::DMG => VRAMBank::Bank0,
            },
    {
        match self {
            Mode::DMG => VRAMBank::Bank0,
            Mode::GBC(state) => state.get_vram_bank(),
        }
    }

    /// The CPU speed: always normal on the monochrome model.
    pub fn get_speed(&self) -> (s: Speed)
        ensures
            s == match self {
                Mode::GBC(state) => state.speed,
                Mode::DMG => Speed::Normal,
            },
    {
        match self {
            Mode::GBC(state) => state.current_speed(),
            Mode::DMG => Speed::Normal,
        }
    }
}

/// What the STOP instruction asks of the rest of the machine.
#[derive(Clone, Copy, Debug, PartialEq, Eq, Structural)]
pub struct StopEffect {
    /// DIV is reset to 0.
    pub reset_div: bool,
    /// The CPU enters HALT.
    pub halt: bool,
    /// The byte after STOP is read and skipped.
    pub skip_next_byte: bool,
    /// After a speed switch, the M-cycles during which the CPU waits for the clock.
    pub speed_switch_delay: Option<u32>,
}

/// M-cycles the CPU waits after a speed switch: 128 Ki clocks.
pub const SPEED_SWITCH_DELAY: u32 = 32768;

impl Mode {
    /// A speed switch is armed (Color model only).
    pub open spec fn switch_armed(self) -> bool {
        self matches Mode::GBC(state) && state.prepare_speed_switch
    }

    /// The effect of STOP: `interrupt_pending` whether an enabled interrupt is
    /// requested, `joypad` the value JOYP reads.
    pub open spec fn spec_stop_effect(self, interrupt_pending: bool, joypad: u8) -> StopEffect {
        if joypad & 0x0F != 0 {
            StopEffect { reset_div: !interrupt_pending, halt: !interrupt_pending, skip_next_byte: false, speed_switch_delay: None }
        } else if self.switch_armed() {
            StopEffect { reset_div: true, halt: false, skip_next_byte: !interrupt_pending, speed_switch_delay: Some(SPEED_SWITCH_DELAY) }
        } else {
            StopEffect { reset_div: true, halt: false, skip_next_byte: !interrupt_pending, speed_switch_delay: None }
        }
    }

    /// The model after STOP: an armed speed switch is performed when no joypad line is set.
    pub open spec fn spec_after_stop(self, joypad: u8) -> Mode {
        match self {
            Mode::GBC(state) => if joypad & 0x0F == 0 {
                Mode::GBC(state.spec_perform_speed_switch().0)
            } else {
                self
            },
            Mode::DMG => self,
        }
    }
}

/// Executes STOP. With a joypad line set, STOP halts the CPU (and resets DIV) unless
/// an interrupt is pending. Otherwise DIV is reset, the following byte is skipped
/// unless an interrupt is pending, and an armed speed switch is performed, after
/// which the CPU waits `SPEED_SWITCH_DELAY` M-cycles.
pub fn exec_stop(mode: &mut Mode, interrupt_pending: bool, joypad: u8) -> (e: StopEffect)
    ensures
        e == old(mode).spec_stop_effect(interrupt_pending, joypad),
        *final(mode) == old(mode).spec_after_stop(joypad),
{
    let has_joyp_input = joypad & 0b1111 != 0;
    let speed_switch_pending = match mode {
        Mode::GBC(state) => state.prepare_speed_switch,
        Mode::DMG => false,
    };
    if has_joyp_input {
        if interrupt_pending {
            StopEffect { reset_div: false, halt: false, skip_next_byte: false, speed_switch_delay: None }
        } else {
            StopEffect { reset_div: true, halt: true, skip_next_byte: false, speed_switch_delay: None }
        }
    } else if speed_switch_pending {
        let switched = match mode {
            Mode::GBC(state) => state.perform_speed_switch(),
            Mode::DMG => false,
        };
        StopEffect {
            reset_div: true,
            halt: false,
            skip_next_byte: !interrupt_pending,
            speed_switch_delay: if switched { Some(SPEED_SWITCH_DELAY) } else { None },
        }
    } else {
        StopEffect { reset_div: true, halt: false, skip_next_byte: !interrupt_pending, speed_switch_delay: None }
    }
}

/// The CPU's interrupt state: HALT, the master enable (IME) and an EI waiting to
/// take effect after the next instruction. The register file is not part of it.
#[derive(Clone, Copy, Debug, PartialEq, Eq, Structural)]
pub struct CPUState {
    pub halted: bool,
    pub ime: bool,
    pub ie_next: bool,
}

/// The lowest requested interrupt among the five (V-blank first, joypad last).
pub open spec fn lowest_interrupt(requests: u8) -> Option<u8> {
    if requests & 0x01 != 0 {
        Some(0x01u8)
    } else if requests & 0x02 != 0 {
        Some(0x02u8)
    } else if requests & 0x04 != 0 {
        Some(0x04u8)
    } else if requests & 0x08 != 0 {
        Some(0x08u8)
    } else if requests & 0x10 != 0 {
        Some(0x10u8)
    } else {
        None
    }
}

/// The serial transfer interrupt request bit.
pub const INT_SERIAL: u8 = 0x08;

/// The machine: the model with its speed state, the picture unit, the cartridge,
/// work and high RAM, the I/O register block, the interrupt registers, the joypad
/// lines, the boot ROMs and the DMA engines. The CPU's own registers and the timer
/// are not part of it; DIV, TIMA, TMA and TAC are kept as stored registers.
pub struct Gameboy {
    /// A debugger break was asked for and not yet taken.
    pub debug_break: bool,
    pub cpu_state: CPUState,
    pub mode: Mode,
    pub ppu: PPU,
    pub cartridge_state: Option<Cartridge>,
    /// Work RAM: eight 4 KiB banks; bank 0 at 0xC000, the selected bank at 0xD000.
    pub w_ram: Vec<u8>,
    /// The work RAM bank at 0xD000 (1..=7; always 1 on the monochrome model).
    pub wram_bank: usize,
    pub hram: [u8; 0x80],
    pub io_register_state: IORegisterState,
    /// IF: the pending interrupt requests.
    pub interrupt_request: u8,
    /// IE: the enabled interrupts.
    pub interrupt_enable: u8,
    /// The joypad lines, active low: buttons in bits 0-3, directions in bits 4-7.
    pub raw_joyp_input: u8,
    pub booting: bool,
    /// The boot ROM mapped while booting: the image of the current model.
    pub boot_rom: Vec<u8>,
    /// The boot ROM image of the monochrome model.
    pub dmg_boot_rom: Vec<u8>,
    /// The boot ROM image of the Color model.
    pub cgb_boot_rom: Vec<u8>,
    pub dma_controller: DMAController,
    pub oam_dma: OamDmaState,
    /// Dots (T-states) run so far.
    pub t_states: u64,
    /// M-cycles left of the wait after a speed switch.
    pub speed_switch_delay: u32,
}

impl Gameboy {
    pub open spec fn is_cgb(self) -> bool {
        self.mode is GBC
    }

    pub open spec fn wf(self) -> bool {
        &&& self.ppu@.wf()
        &&& self.ppu.bg_color.wf()
        &&& self.ppu.obj_color.wf()
        &&& self.w_ram@.len() == 0x8000
        &&& 1 <= self.wram_bank <= 7
    }

    pub open spec fn vram_bank(self) -> VRAMBank {
        match self.mode {
            Mode::GBC(state) => state.vram_bank,
            Mode::DMG => VRAMBank::Bank0,
        }
    }

    /// A read of `addr` cannot fault: a boot ROM byte exists, and the cartridge can
    /// answer the address.
    pub open spec fn read_ok(self, addr: u16) -> bool {
        match spec_read_region(addr, self.booting, self.is_cgb()) {
            Region::BootRom(a) => a < self.boot_rom@.len(),
            Region::CartridgeRom(a) => self.cartridge_state matches Some(c) ==> c.can_read(a),
            Region::CartridgeRam(a) => self.cartridge_state matches Some(c) ==> c.can_read(a),
            _ => true,
        }
    }

    /// What a read of I/O register `addr` returns.
    pub open spec fn spec_read_io(self, addr: u16) -> u8 {
        let r = self.ppu.registers;
        if addr == LCDC { r.lcdc.0 }
        else if addr == SCY { r.scy }
        else if addr == SCX { r.scx }
        else if addr == LYC { r.lyc }
        else if addr == BGP { r.bgp }
        else if addr == OBP0 { r.obp0 }
        else if addr == OBP1 { r.obp1 }
        else if addr == WY { r.wy }
        else if addr == WX { r.wx }
        else if addr == LY { r.ly }
        else if addr == STAT { self.ppu@.spec_read_stat() }
        else if BGPI <= addr <= OBPD {
            if !self.is_cgb() {
                0xFF
            } else if addr == BGPI {
                self.ppu.bg_color.spec_read_spec()
            } else if addr == BGPD {
                read_byte_of(self.ppu.bg_color.data@[(self.ppu.bg_color.index / 2) as int], self.ppu.bg_color.index)
            } else if addr == OBPI {
                self.ppu.obj_color.spec_read_spec()
            } else {
                read_byte_of(self.ppu.obj_color.data@[(self.ppu.obj_color.index / 2) as int], self.ppu.obj_color.index)
            }
        }
        else if addr == HDMA5 { self.dma_controller.hdma5 }
        else if addr == SVBK { if self.is_cgb() { self.wram_bank as u8 } else { 0xFF } }
        else if addr == VBK { if self.is_cgb() { self.wram_bank as u8 } else { 0xFF } }
        else if addr == KEY1 {
            match self.mode {
                Mode::GBC(state) => state.spec_read_key1(),
                Mode::DMG => 0xFF,
            }
        }
        else if addr == JOYP { spec_read_joyp(self.io_register_state.values@[JOYP - 0xFF00], self.raw_joyp_input) }
        else if addr == IF { self.interrupt_request | 0xE0 }
        else { self.io_register_state.values@[addr - 0xFF00] }
    }

    /// What a read of `addr` returns.
    pub open spec fn spec_read(self, addr: u16) -> u8 {
        match spec_read_region(addr, self.booting, self.is_cgb()) {
            Region::BootRom(a) => self.boot_rom@[a as int],
            Region::CartridgeRom(a) => match self.cartridge_state {
                Some(c) => c.spec_read(a),
                None => 0xFF,
            },
            Region::CartridgeRam(a) => match self.cartridge_state {
                Some(c) => c.spec_read(a),
                None => 0xFF,
            },
            Region::VRam(o) => if self.vram_bank() == VRAMBank::Bank0 {
                self.ppu.v_ram_bank_0@[o as int]
            } else {
                self.ppu.v_ram_bank_1@[o as int]
            },
            Region::WorkRamLow(o) => self.w_ram@[o as int],
            Region::WorkRamHigh(o) => self.w_ram@[self.wram_bank * 0x1000 + o],
            Region::Oam(o) => self.ppu.oam@[o as int],
            Region::Unusable => 0xFF,
            Region::Io(a) => self.spec_read_io(a),
            Region::HRam(o) => self.hram@[o as int],
            Region::InterruptEnable => self.interrupt_enable,
        }
    }

    /// `g2` is the machine after I/O register `addr` is written with `value`, and `req`
    /// the VRAM transfer the write asks for.
    pub open spec fn io_written(self, addr: u16, value: u8, g2: Gameboy, req: Option<DMATransferRequest>) -> bool {
        let same_ppu_but = |ppu: PPU| g2 == Gameboy { ppu, ..self };
        let regs = self.ppu.registers;
        let stores = |v: Seq<u8>| g2.io_register_state.values@ == v && g2 == Gameboy {
            io_register_state: g2.io_register_state,
            ..self
        };
        &&& (addr != HDMA5 ==> req is None)
        &&& if addr == LCDC {
            let (v, ir) = self.ppu@.spec_write_lcdc(value, self.interrupt_request);
            g2.ppu@ == v && g2 == Gameboy { ppu: g2.ppu, interrupt_request: ir, ..self }
        } else if addr == SCY {
            same_ppu_but(PPU { registers: Registers { scy: value, ..regs }, ..self.ppu })
        } else if addr == SCX {
            same_ppu_but(PPU { registers: Registers { scx: value, ..regs }, ..self.ppu })
        } else if addr == LYC {
            same_ppu_but(PPU { registers: Registers { lyc: value, ..regs }, ..self.ppu })
        } else if addr == BGP {
            same_ppu_but(PPU { registers: Registers { bgp: value, ..regs }, ..self.ppu })
        } else if addr == OBP0 {
            same_ppu_but(PPU { registers: Registers { obp0: value, ..regs }, ..self.ppu })
        } else if addr == OBP1 {
            same_ppu_but(PPU { registers: Registers { obp1: value, ..regs }, ..self.ppu })
        } else if addr == WY {
            same_ppu_but(PPU { registers: Registers { wy: value, ..regs }, ..self.ppu })
        } else if addr == WX {
            same_ppu_but(PPU { registers: Registers { wx: value, ..regs }, ..self.ppu })
        } else if addr == STAT {
            same_ppu_but(
                PPU { registers: Registers { stat: Stat(value & !crate::ppu::stat::MODE_MASK), ..regs }, ..self.ppu },
            )
        } else if addr == HDMA1 || addr == HDMA2 || addr == HDMA3 || addr == HDMA4 || addr == HDMA5 {
            let d = self.dma_controller;
            let (d2, r) = if addr == HDMA1 {
                (DMAController { source: (d.source & 0x00FF) | ((value as u16) << 8u16), ..d }, None)
            } else if addr == HDMA2 {
                (DMAController { source: (d.source & 0xFF00) | ((value & 0xF0) as u16), ..d }, None)
            } else if addr == HDMA3 {
                (
                    DMAController {
                        destination: (d.destination & 0x00FF) | ((((value & 0x1F) as u16) << 8u16) | 0x8000),
                        ..d
                    },
                    None,
                )
            } else if addr == HDMA4 {
                (DMAController { destination: (d.destination & 0xFF00) | ((value & 0xF0) as u16), ..d }, None)
            } else {
                d.spec_write_hdma5(value)
            };
            g2 == Gameboy { dma_controller: d2, ..self } && req == r
        } else if BGPI <= addr <= OBPD {
            if !self.is_cgb() {
                g2 == self
            } else if addr == BGPI || addr == BGPD {
                &&& addr == BGPI ==> self.ppu.bg_color.index_written(value, g2.ppu.bg_color)
                &&& addr == BGPD ==> self.ppu.bg_color.data_written(value, self.ppu.mode, g2.ppu.bg_color)
                &&& same_ppu_but(PPU { bg_color: g2.ppu.bg_color, ..self.ppu })
            } else {
                &&& addr == OBPI ==> self.ppu.obj_color.index_written(value, g2.ppu.obj_color)
                &&& addr == OBPD ==> self.ppu.obj_color.data_written(value, self.ppu.mode, g2.ppu.obj_color)
                &&& same_ppu_but(PPU { obj_color: g2.ppu.obj_color, ..self.ppu })
            }
        } else if addr == SVBK {
            if self.is_cgb() {
                g2 == Gameboy { wram_bank: if value & 7 == 0 { 1 } else { (value & 7) as usize }, ..self }
            } else {
                g2 == self
            }
        } else if addr == VBK {
            match self.mode {
                Mode::GBC(state) => g2 == Gameboy {
                    mode: Mode::GBC(
                        CGBState { vram_bank: if value & 1 == 1 { VRAMBank::Bank1 } else { VRAMBank::Bank0 }, ..state },
                    ),
                    ..self
                },
                Mode::DMG => g2 == self,
            }
        } else if addr == KEY1 {
            match self.mode {
                Mode::GBC(state) => g2 == Gameboy {
                    mode: Mode::GBC(CGBState { prepare_speed_switch: value & 1 == 1, ..state }),
                    ..self
                },
                Mode::DMG => g2 == self,
            }
        } else if addr == DISABLE_BOOT {
            g2 == Gameboy { booting: false, ..self }
        } else if addr == JOYP {
            stores(self.io_register_state.values@.update(JOYP - 0xFF00, value & 0x30))
        } else if addr == SC {
            if value == 0x81 {
                &&& g2.io_register_state.values@ == self.io_register_state.values@.update(SC - 0xFF00, 0x01).update(
                    SB - 0xFF00,
                    0xFF,
                )
                &&& g2 == Gameboy {
                    io_register_state: g2.io_register_state,
                    interrupt_request: self.interrupt_request | INT_SERIAL,
                    ..self
                }
            } else {
                g2 == self
            }
        } else if addr == IF {
            &&& g2.io_register_state.values@ == self.io_register_state.values@.update(IF - 0xFF00, value & 0x1F)
            &&& g2 == Gameboy {
                io_register_state: g2.io_register_state,
                interrupt_request: value & 0x1F,
                ..self
            }
        } else if addr == DMA {
            &&& g2.io_register_state.values@ == self.io_register_state.values@.update(DMA - 0xFF00, value)
            &&& g2 == Gameboy {
                io_register_state: g2.io_register_state,
                oam_dma: OamDmaState { dma_addr: OamDmaState::source_page(value), start_delay: 2, ..self.oam_dma },
                ..self
            }
        } else {
            stores(self.io_register_state.values@.update(addr - 0xFF00, value))
        }
    }

    /// Writing `value` to register `addr` cannot fault: a general-purpose VRAM
    /// transfer must fit the address space.
    pub open spec fn spec_io_write_ok(self, addr: u16, value: u8) -> bool {
        addr == HDMA5 ==> (!(self.dma_controller.hblank_active() && value & 0x80 == 0) && value & 0x80 == 0
            ==> self.dma_controller.transfer_fits(value))
    }

    /// A write of `value` to `addr` cannot fault.
    pub open spec fn write_ok(self, addr: u16, value: u8) -> bool {
        match spec_region(addr) {
            Region::CartridgeRom(a) => self.cartridge_state matches Some(c) ==> c.can_write(a),
            Region::CartridgeRam(a) => self.cartridge_state matches Some(c) ==> c.can_write(a),
            Region::Io(a) => self.spec_io_write_ok(a, value),
            _ => true,
        }
    }

    /// `g2` is the machine after `value` is written to `addr`, and `req` the VRAM
    /// transfer the write asks for. Writes never reach the boot ROM.
    pub open spec fn written(self, addr: u16, value: u8, g2: Gameboy, req: Option<DMATransferRequest>) -> bool {
        match spec_region(addr) {
            Region::CartridgeRom(a) | Region::CartridgeRam(a) => req is None && match self.cartridge_state {
                Some(c) => g2.cartridge_state matches Some(c2) && c.write_rel(a, value, c2) && g2 == Gameboy {
                    cartridge_state: g2.cartridge_state,
                    ..self
                },
                None => g2 == self,
            },
            Region::VRam(o) => req is None && g2 == Gameboy { ppu: g2.ppu, ..self } && g2.ppu@ == if self.vram_bank()
                == VRAMBank::Bank0 {
                PPUView { vram0: self.ppu@.vram0.update(o as int, value), ..self.ppu@ }
            } else {
                PPUView { vram1: self.ppu@.vram1.update(o as int, value), ..self.ppu@ }
            },
            Region::WorkRamLow(o) => req is None && g2 == Gameboy { w_ram: g2.w_ram, ..self } && g2.w_ram@
                == self.w_ram@.update(o as int, value),
            Region::WorkRamHigh(o) => req is None && g2 == Gameboy { w_ram: g2.w_ram, ..self } && g2.w_ram@
                == self.w_ram@.update(self.wram_bank * 0x1000 + o, value),
            Region::Oam(o) => req is None && g2 == Gameboy { ppu: g2.ppu, ..self } && g2.ppu@ == PPUView {
                oam: self.ppu@.oam.update(o as int, value),
                ..self.ppu@
            },
            Region::Unusable => req is None && g2 == self,
            Region::Io(a) => self.io_written(a, value, g2, req),
            Region::HRam(o) => req is None && g2 == Gameboy { hram: g2.hram, ..self } && g2.hram@ == self.hram@.update(
                o as int,
                value,
            ),
            Region::InterruptEnable => req is None && g2 == Gameboy { interrupt_enable: value & 0x1F, ..self },
            Region::BootRom(_) => false,
        }
    }
}

impl IORegisters for Gameboy {
    open spec fn io_ready(&self) -> bool {
        self.wf()
    }

    /// The register write cannot fault, and a transfer it starts can be performed.
    open spec fn io_write_ok(&self, addr: u16, value: u8) -> bool {
        &&& self.spec_io_write_ok(addr, value)
        &&& forall|g1: Gameboy, q: DMATransferRequest| #[trigger]
            self.io_written(addr, value, g1, Some(q)) ==> g1.transfer_ok(q)
    }

    /// Reads I/O register `addr`: the picture unit's registers, the colour palettes
    /// and the speed and bank registers of the Color model (0xFF on the monochrome
    /// one), HDMA5, the joypad lines, IF with its unused bits set, else the store.
    fn read_io(&self, addr: u16) -> (r: u8)
        ensures
            r == self.spec_read_io(addr),
    {
        let cgb = match self.mode {
            Mode::GBC(_) => true,
            Mode::DMG => false,
        };
        if addr == LCDC {
            self.ppu.read_lcdc()
        } else if addr == SCY {
            self.ppu.registers.scy
        } else if addr == SCX {
            self.ppu.registers.scx
        } else if addr == LYC {
            self.ppu.registers.lyc
        } else if addr == BGP {
            self.ppu.registers.bgp
        } else if addr == OBP0 {
            self.ppu.registers.obp0
        } else if addr == OBP1 {
            self.ppu.registers.obp1
        } else if addr == WY {
            self.ppu.registers.wy
        } else if addr == WX {
            self.ppu.registers.wx
        } else if addr == LY {
            self.ppu.get_ly()
        } else if addr == STAT {
            self.ppu.read_stat()
        } else if BGPI <= addr && addr <= OBPD {
            if !cgb {
                0xFF
            } else if addr == BGPI {
                self.ppu.bg_color.read_spec()
            } else if addr == BGPD {
                self.ppu.bg_color.read_data()
            } else if addr == OBPI {
                self.ppu.obj_color.read_spec()
            } else {
                self.ppu.obj_color.read_data()
            }
        } else if addr == HDMA5 {
            self.dma_controller.read_hdma5()
        } else if addr == SVBK {
            if cgb {
                self.wram_bank as u8
            } else {
                0xFF
            }
        } else if addr == VBK {
            if cgb {
                self.wram_bank as u8
            } else {
                0xFF
            }
        } else if addr == KEY1 {
            match self.mode {
                Mode::GBC(state) => state.read_key1(),
                Mode::DMG => 0xFF,
            }
        } else if addr == JOYP {
            read_joyp(self.io_register_state.index(JOYP), self.raw_joyp_input)
        } else if addr == IF {
            self.interrupt_request | 0xE0
        } else {
            self.io_register_state.index(addr)
        }
    }

    /// Writes I/O register `addr`; a general-purpose transfer started through HDMA5
    /// is performed before the write returns.
    fn write_io(&mut self, addr: u16, value: u8)
        ensures
            old(self).io_performed(addr, value, *final(self)),
    {
        let req = self.write_register(addr, value);
        match req {
            Some(q) => self.handle_dma_transfer(q),
            None => {},
        }
    }
}

impl Gameboy {
    /// Writes I/O register `addr`. A write to HDMA5 may ask for a VRAM transfer, which
    /// is returned for the caller to perform.
    #[verifier::spinoff_prover]
    #[verifier::rlimit(60)]
    fn write_register(&mut self, addr: u16, value: u8) -> (req: Option<DMATransferRequest>)
        requires
            old(self).wf(),
            io_address(addr),
            old(self).spec_io_write_ok(addr, value),
        ensures
            old(self).io_written(addr, value, *final(self), req),
            final(self).wf(),
    {
        let cgb = match self.mode {
            Mode::GBC(_) => true,
            Mode::DMG => false,
        };
        if addr == LCDC {
            let mut ir = self.interrupt_request;
            self.ppu.write_lcdc(value, &mut ir);
            self.interrupt_request = ir;
            assert(self.ppu@.wf());
            assert(self.ppu.bg_color.wf());
        } else if addr == SCY {
            self.ppu.registers.scy = value;
        } else if addr == SCX {
            self.ppu.registers.scx = value;
        } else if addr == LYC {
            self.ppu.registers.lyc = value;
        } else if addr == BGP {
            self.ppu.registers.bgp = value;
        } else if addr == OBP0 {
            self.ppu.registers.obp0 = value;
        } else if addr == OBP1 {
            self.ppu.registers.obp1 = value;
        } else if addr == WY {
            self.ppu.registers.wy = value;
        } else if addr == WX {
            self.ppu.registers.wx = value;
        } else if addr == STAT {
            self.ppu.registers.stat.write(value);
        } else if addr == HDMA1 {
            self.dma_controller.write_source_high(value);
        } else if addr == HDMA2 {
            self.dma_controller.write_source_low(value);
        } else if addr == HDMA3 {
            self.dma_controller.write_destination_high(value);
        } else if addr == HDMA4 {
            self.dma_controller.write_destination_low(value);
        } else if addr == HDMA5 {
            return self.dma_controller.write_hdma5(value);
        } else if BGPI <= addr && addr <= OBPD {
            if cgb {
                let mode = self.ppu.mode;
                if addr == BGPI {
                    self.ppu.bg_color.write_spec(value);
                } else if addr == BGPD {
                    self.ppu.bg_color.write_data(value, mode);
                } else if addr == OBPI {
                    self.ppu.obj_color.write_spec(value);
                } else {
                    self.ppu.obj_color.write_data(value, mode);
                }
            }
        } else if addr == SVBK {
            if cgb {
                let b = value & 7;
                assert(value & 7u8 <= 7) by (bit_vector);
                self.wram_bank = if b == 0 { 1 } else { b as usize };
            }
        } else if addr == VBK {
            if let Mode::GBC(mut state) = self.mode {
                state.set_vram_bank(value);
                self.mode = Mode::GBC(state);
            }
        } else if addr == KEY1 {
            if let Mode::GBC(mut state) = self.mode {
                state.write_key1(value);
                self.mode = Mode::GBC(state);
            }
        } else if addr == DISABLE_BOOT {
            self.booting = false;
        } else if addr == JOYP {
            self.io_register_state.set(JOYP, value & 0b0011_0000);
        } else if addr == SC {
            if value == 0x81 {
                self.io_register_state.set(SC, 0x01);
                self.io_register_state.set(SB, 0xFF);
                self.interrupt_request = self.interrupt_request | INT_SERIAL;
            }
        } else if addr == IF {
            self.io_register_state.set(IF, value & 0b0001_1111);
            self.interrupt_request = value & 0b0001_1111;
        } else if addr == DMA {
            self.io_register_state.set(DMA, value);
            self.oam_dma.start_oam_dma(value);
        } else {
            self.io_register_state.set(addr, value);
        }
        None
    }
}

impl Gameboy {
    /// The machine is model `mode` at power-on, with no cartridge, holding the boot ROM
    /// images `dmg_boot_rom` and `cgb_boot_rom` and booting from the one of `mode`.
    pub open spec fn powered_on(self, mode: Mode, dmg_boot_rom: Seq<u8>, cgb_boot_rom: Seq<u8>) -> bool {
        &&& self.wf()
        &&& self.mode == mode
        &&& self.booting
        &&& self.dmg_boot_rom@ == dmg_boot_rom
        &&& self.cgb_boot_rom@ == cgb_boot_rom
        &&& self.boot_rom@ == self.boot_rom_of(mode)
        &&& self.cartridge_state is None
        &&& !self.debug_break
        &&& self.wram_bank == 1
        &&& self.w_ram@ == Seq::new(0x8000, |i: int| 0u8)
        &&& self.hram@ == Seq::new(0x80, |i: int| 0u8)
        &&& self.io_register_state.values@ == Seq::new(0x80, |i: int| 0u8)
        &&& self.interrupt_request == 0 && self.interrupt_enable == 0
        &&& self.cpu_state == (CPUState { halted: false, ime: false, ie_next: false })
        &&& self.raw_joyp_input == 0xFF
        &&& self.t_states == 0 && self.speed_switch_delay == 0
        &&& self.dma_controller == (DMAController { source: 0, destination: 0, hdma5: 0xFF })
        &&& self.oam_dma == (OamDmaState { start_delay: 0, dma_cycle: 0, dma_active: false, dma_addr: 0 })
        &&& self.ppu.gb_mode == (if mode is GBC { GBMode::CGB } else { GBMode::DMG })
        &&& self.ppu.mode == crate::ppu::PPUMode::OamScan
        &&& !self.ppu@.enabled() && self.ppu@.ly() == 0
    }

    /// A machine of model `mode` at power-on, with no cartridge, given the boot ROM
    /// images of both models; it boots from the one of `mode`.
    pub fn new(mode: Mode, dmg_boot_rom: Vec<u8>, cgb_boot_rom: Vec<u8>) -> (g: Self)
        ensures
            g.powered_on(mode, dmg_boot_rom@, cgb_boot_rom@),
    {
        let boot_rom = match mode {
            Mode::GBC(_) => cgb_boot_rom.clone(),
            Mode::DMG => dmg_boot_rom.clone(),
        };
        let mut ppu = PPU::default();
        ppu.gb_mode = match mode {
            Mode::GBC(_) => GBMode::CGB,
            Mode::DMG => GBMode::DMG,
        };
        let g = Gameboy {
            debug_break: false,
            cpu_state: CPUState { halted: false, ime: false, ie_next: false },
            mode,
            ppu,
            cartridge_state: None,
            w_ram: vec![0; 0x8000],
            wram_bank: 1,
            hram: [0; 0x80],
            io_register_state: IORegisterState::default(),
            interrupt_request: 0,
            interrupt_enable: 0,
            raw_joyp_input: 0xFF,
            booting: true,
            boot_rom,
            dmg_boot_rom,
            cgb_boot_rom,
            dma_controller: DMAController::default(),
            oam_dma: OamDmaState::default(),
            t_states: 0,
            speed_switch_delay: 0,
        };
        assert(g.w_ram@ =~= Seq::new(0x8000, |i: int| 0u8));
        assert(g.boot_rom@ =~= g.boot_rom_of(mode));
        assert(0u8 & 0x80u8 != 0x80u8) by (bit_vector);
        assert(g.hram@ =~= Seq::new(0x80, |i: int| 0u8));
        g
    }

    /// Reads the bus: the boot ROM while booting, then cartridge ROM, VRAM in the
    /// selected bank, cartridge RAM, work RAM (echoed at 0xE000-0xFDFF), OAM, the
    /// unusable area (0xFF), the I/O registers, high RAM and IE.
    pub fn read(&self, addr: u16) -> (r: u8)
        requires
            self.wf(),
            self.read_ok(addr),
        ensures
            r == self.spec_read(addr),
    {
        let cgb = match self.mode {
            Mode::GBC(_) => true,
            Mode::DMG => false,
        };
        proof {
            lemma_echo_ram(addr);
        }
        match read_region(addr, self.booting, cgb) {
            Region::BootRom(a) => self.boot_rom[a as usize],
            Region::CartridgeRom(a) => match &self.cartridge_state {
                Some(c) => c.read(a),
                None => 0xFF,
            },
            Region::CartridgeRam(a) => match &self.cartridge_state {
                Some(c) => c.read(a),
                None => 0xFF,
            },
            Region::VRam(o) => match self.mode.get_vram_bank() {
                VRAMBank::Bank0 => self.ppu.v_ram_bank_0[o as usize],
                VRAMBank::Bank1 => self.ppu.v_ram_bank_1[o as usize],
            },
            Region::WorkRamLow(o) => self.w_ram[o as usize],
            Region::WorkRamHigh(o) => self.w_ram[self.wram_bank * 0x1000 + o as usize],
            Region::Oam(o) => self.ppu.oam[o as usize],
            Region::Unusable => 0xFF,
            Region::Io(a) => self.read_io(a),
            Region::HRam(o) => self.hram[o as usize],
            Region::InterruptEnable => self.interrupt_enable,
        }
    }

    /// Writes the bus. The cartridge takes writes to its ROM area (its bank registers)
    /// and RAM; IE keeps five bits. A general-purpose VRAM transfer started through
    /// HDMA5 is performed before the write returns.
    pub fn write(&mut self, addr: u16, value: u8)
        requires
            old(self).wf(),
            old(self).write_ok(addr, value),
            forall|g1: Gameboy, q: DMATransferRequest| #[trigger]
                old(self).written(addr, value, g1, Some(q)) ==> g1.transfer_ok(q),
        ensures
            old(self).performed(addr, value, *final(self)),
            final(self).wf(),
    {
        let req = self.write_byte(addr, value);
        match req {
            Some(q) => self.handle_dma_transfer(q),
            None => {},
        }
    }

    /// Writes one byte on the bus; a transfer the write asks for is returned, not performed.
    fn write_byte(&mut self, addr: u16, value: u8) -> (req: Option<DMATransferRequest>)
        requires
            old(self).wf(),
            old(self).write_ok(addr, value),
        ensures
            old(self).written(addr, value, *final(self), req),
            final(self).wf(),
    {
        proof {
            lemma_echo_ram(addr);
        }
        match write_region(addr) {
            Region::CartridgeRom(a) | Region::CartridgeRam(a) => {
                match &mut self.cartridge_state {
                    Some(c) => c.write(a, value),
                    None => {},
                }
                None
            },
            Region::VRam(o) => {
                match self.mode.get_vram_bank() {
                    VRAMBank::Bank0 => self.ppu.v_ram_bank_0[o as usize] = value,
                    VRAMBank::Bank1 => self.ppu.v_ram_bank_1[o as usize] = value,
                }
                None
            },
            Region::WorkRamLow(o) => {
                self.w_ram.set(o as usize, value);
                None
            },
            Region::WorkRamHigh(o) => {
                let i = self.wram_bank * 0x1000 + o as usize;
                self.w_ram.set(i, value);
                None
            },
            Region::Oam(o) => {
                self.ppu.oam[o as usize] = value;
                None
            },
            Region::Unusable => None,
            Region::Io(a) => self.write_register(a, value),
            Region::HRam(o) => {
                self.hram[o as usize] = value;
                None
            },
            Region::InterruptEnable => {
                self.interrupt_enable = value & 0b0001_1111;
                None
            },
            Region::BootRom(_) => None,
        }
    }
}

impl Gameboy {
    /// A Color machine at power-on (see `new`).
    pub fn cgb(dmg_boot_rom: Vec<u8>, cgb_boot_rom: Vec<u8>) -> (g: Self)
        ensures
            g.powered_on(Mode::GBC(CGBState::spec_default()), dmg_boot_rom@, cgb_boot_rom@),
    {
        Gameboy::new(Mode::GBC(CGBState::default()), dmg_boot_rom, cgb_boot_rom)
    }

    /// A monochrome machine at power-on (see `new`).
    pub fn dmg(dmg_boot_rom: Vec<u8>, cgb_boot_rom: Vec<u8>) -> (g: Self)
        ensures
            g.powered_on(Mode::DMG, dmg_boot_rom@, cgb_boot_rom@),
    {
        Gameboy::new(Mode::DMG, dmg_boot_rom, cgb_boot_rom)
    }

    /// The VRAM bank mapped at 0x8000.
    pub fn get_vram_bank(&self) -> (b: VRAMBank)
        ensures
            b == self.vram_bank(),
    {
        self.mode.get_vram_bank()
    }

    /// Asks the debugger to break.
    pub fn debug_break(&mut self)
        ensures
            *final(self) == (Gameboy { debug_break: true, ..*old(self) }),
    {
        self.debug_break = true;
    }

    /// Takes a pending debugger break: true, and cleared, if one was asked for.
    pub fn consume_debug_break(&mut self) -> (r: bool)
        ensures
            r == old(self).debug_break,
            *final(self) == (Gameboy { debug_break: false, ..*old(self) }),
    {
        if self.debug_break {
            self.debug_break = false;
            return true;
        }
        false
    }

    /// The work RAM bank mapped at 0xD000.
    pub fn get_wram_bank(&self) -> (b: usize)
        ensures
            b == self.wram_bank,
    {
        self.wram_bank
    }

    /// Latches the joypad lines from the controller state (active low).
    pub fn set_controller_state(&mut self, state: &ControllerState)
        ensures
            *final(self) == (Gameboy { raw_joyp_input: state.spec_as_byte(), ..*old(self) }),
    {
        self.raw_joyp_input = state.as_byte();
    }

    /// The boot ROM image of model `mode`.
    pub open spec fn boot_rom_of(self, mode: Mode) -> Seq<u8> {
        if mode is GBC {
            self.cgb_boot_rom@
        } else {
            self.dmg_boot_rom@
        }
    }

    /// Switches the model: its boot ROM mapped, fresh work RAM (bank 1 at 0xD000), the
    /// picture unit's model set to match.
    fn set_gb_mode(&mut self, mode: Mode)
        requires
            old(self).wf(),
        ensures
            final(self).wf(),
            final(self).mode == mode,
            final(self).boot_rom@ == old(self).boot_rom_of(mode),
            final(self).w_ram@ == Seq::new(0x8000, |i: int| 0u8),
            final(self).wram_bank == 1,
            final(self).ppu@ == (PPUView {
                gb_mode: if mode is GBC { GBMode::CGB } else { GBMode::DMG },
                ..old(self).ppu@
            }),
            *final(self) == (Gameboy {
                mode,
                boot_rom: final(self).boot_rom,
                w_ram: final(self).w_ram,
                wram_bank: 1,
                ppu: final(self).ppu,
                ..*old(self)
            }),
    {
        self.boot_rom = match mode {
            Mode::GBC(_) => self.cgb_boot_rom.clone(),
            Mode::DMG => self.dmg_boot_rom.clone(),
        };
        assert(self.boot_rom@ =~= old(self).boot_rom_of(mode));
        self.w_ram = vec![0; 0x8000];
        self.wram_bank = 1;
        self.ppu.gb_mode = match mode {
            Mode::GBC(_) => GBMode::CGB,
            Mode::DMG => GBMode::DMG,
        };
        self.mode = mode;
        assert(self.w_ram@ =~= Seq::new(0x8000, |i: int| 0u8));
    }

    /// Inserts the cartridge built from `rom`, switching to the model its header asks
    /// for. A ROM the cartridge check refuses leaves the machine as it was.
    pub fn load_rom(&mut self, rom: &[u8], source: Option<RomSource>)
        requires
            old(self).wf(),
        ensures
            final(self).wf(),
            rom_parse(rom@) is Ok && known_type(rom@[CARTRIDGE_TYPE as int]) ==> {
                let cgb = rom@[CGB_FLAG as int] & 0x80 != 0;
                &&& final(self).cartridge_state matches Some(c) && c.built_from(rom@, source)
                &&& final(self).mode == if cgb { Mode::GBC(CGBState::spec_default()) } else { Mode::DMG }
                &&& final(self).boot_rom@ == old(self).boot_rom_of(final(self).mode)
                &&& final(self).w_ram@ == Seq::new(0x8000, |i: int| 0u8)
                &&& final(self).wram_bank == 1
                &&& final(self).ppu@ == (PPUView {
                    gb_mode: if cgb { GBMode::CGB } else { GBMode::DMG },
                    ..old(self).ppu@
                })
                &&& *final(self) == (Gameboy {
                    mode: final(self).mode,
                    boot_rom: final(self).boot_rom,
                    w_ram: final(self).w_ram,
                    wram_bank: 1,
                    ppu: final(self).ppu,
                    cartridge_state: final(self).cartridge_state,
                    ..*old(self)
                })
            },
            !(rom_parse(rom@) is Ok && known_type(rom@[CARTRIDGE_TYPE as int])) ==> *final(self) == *old(self),
    {
        match Cartridge::try_new(rom, source) {
            Ok(cart) => {
                if cart.2.cgb {
                    self.set_gb_mode(Mode::GBC(CGBState::default()));
                } else {
                    self.set_gb_mode(Mode::DMG);
                }
                self.cartridge_state = Some(cart);
            },
            Err(_) => {},
        }
    }

    /// One M-cycle of OAM DMA: when a byte is due, it is read from the bus and
    /// stored in OAM.
    pub fn step_oam_dma(&mut self)
        requires
            old(self).wf(),
            old(self).oam_dma.wf(),
            old(self).oam_dma.spec_step().1 matches Some((src, _)) ==> old(self).read_ok(src),
        ensures
            final(self).wf(),
            final(self).oam_dma == old(self).oam_dma.spec_step().0,
            final(self).oam_dma.wf(),
            old(self).oam_dma.spec_step().1 matches Some((src, i)) ==> {
                &&& final(self).ppu@ == (PPUView {
                    oam: old(self).ppu@.oam.update(i as int, old(self).spec_read(src)),
                    ..old(self).ppu@
                })
                &&& *final(self) == (Gameboy { ppu: final(self).ppu, oam_dma: final(self).oam_dma, ..*old(self) })
            },
            old(self).oam_dma.spec_step().1 is None ==> *final(self) == (Gameboy {
                oam_dma: final(self).oam_dma,
                ..*old(self)
            }),
    {
        let mut dma = self.oam_dma;
        let due = dma.step();
        match due {
            Some((src, i)) => {
                let value = self.read(src);
                self.oam_dma = dma;
                self.ppu.oam[i as usize] = value;
            },
            None => {
                self.oam_dma = dma;
            },
        }
    }
}

impl Gameboy {
    /// `g2` is the machine after byte `k` of a transfer from `from` to `to` is copied:
    /// the byte the bus reads at `from + k` written to `to + k`, asking for nothing more.
    pub open spec fn copy_step(self, from: u16, to: u16, k: int, g2: Gameboy) -> bool {
        self.written((to + k) as u16, self.spec_read((from + k) as u16), g2, None)
    }

    /// `h` is the machine after the first `n` bytes of a transfer from `from` to `to`
    /// are copied one by one in address order, each read after the bytes before it
    /// were written.
    pub open spec fn copies(self, from: u16, to: u16, n: nat, h: Gameboy) -> bool
        decreases n,
    {
        if n == 0 {
            h == self
        } else {
            exists|g1: Gameboy|
                self.copies(from, to, (n - 1) as nat, g1) && #[trigger] g1.copy_step(from, to, n - 1, h)
        }
    }

    /// Bytes `k..m` of a transfer from `from` to `to` can be copied from this machine:
    /// each read and write cannot fault, and no write starts another transfer.
    pub open spec fn copy_ok(self, from: u16, to: u16, k: int, m: int) -> bool
        decreases m - k,
    {
        if k >= m {
            true
        } else {
            let src = (from + k) as u16;
            let dst = (to + k) as u16;
            &&& self.read_ok(src)
            &&& self.write_ok(dst, self.spec_read(src))
            &&& forall|g2: Gameboy, r: Option<DMATransferRequest>| #[trigger]
                self.written(dst, self.spec_read(src), g2, r) ==> r is None && g2.copy_ok(from, to, k + 1, m)
        }
    }

    /// `request` can be performed on this machine: both ranges stay inside the 16-bit
    /// address space and every byte can be copied.
    pub open spec fn transfer_ok(self, request: DMATransferRequest) -> bool {
        &&& request.from + request.rows * 16 <= u16::MAX
        &&& request.to + request.rows * 16 <= u16::MAX
        &&& self.copy_ok(request.from, request.to, 0, request.rows * 16)
    }

    /// `h` is the machine once the transfer `req` asked for (if any) is performed on `g1`.
    pub open spec fn after_request(g1: Gameboy, req: Option<DMATransferRequest>, h: Gameboy) -> bool {
        match req {
            Some(q) => g1.copies(q.from, q.to, (q.rows * 16) as nat, h),
            None => h == g1,
        }
    }

    /// `h` is the machine after `value` is written to `addr` on the bus and the transfer
    /// the write started is performed.
    pub open spec fn performed(self, addr: u16, value: u8, h: Gameboy) -> bool {
        exists|g1: Gameboy, req: Option<DMATransferRequest>|
            #[trigger] self.written(addr, value, g1, req) && Gameboy::after_request(g1, req, h)
    }

    /// `h` is the machine after I/O register `addr` is written with `value` and the
    /// transfer the write started is performed.
    pub open spec fn io_performed(self, addr: u16, value: u8, h: Gameboy) -> bool {
        exists|g1: Gameboy, req: Option<DMATransferRequest>|
            #[trigger] self.io_written(addr, value, g1, req) && Gameboy::after_request(g1, req, h)
    }

    /// Performs a VRAM transfer: `rows` rows of 16 bytes copied through the bus from
    /// `from` to `to` in address order. The machine's clock is not advanced here.
    pub fn handle_dma_transfer(&mut self, request: DMATransferRequest)
        requires
            old(self).wf(),
            old(self).transfer_ok(request),
        ensures
            final(self).wf(),
            old(self).copies(request.from, request.to, (request.rows * 16) as nat, *final(self)),
            final(self).t_states == old(self).t_states,
    {
        let ghost g0 = *self;
        let total: u16 = request.rows * 16;
        let mut k: u16 = 0;
        while k < total
            invariant
                k <= total,
                total == request.rows * 16,
                request.from + total <= u16::MAX,
                request.to + total <= u16::MAX,
                self.wf(),
                self.t_states == g0.t_states,
                g0.copies(request.from, request.to, k as nat, *self),
                self.copy_ok(request.from, request.to, k as int, total as int),
            decreases total - k,
        {
            let src = request.from + k;
            let dst = request.to + k;
            let ghost before = *self;
            let value = self.read(src);
            let r = self.write_byte(dst, value);
            proof {
                assert(before.written(dst, value, *self, r));
                assert(r is None);
                assert(before.copy_step(request.from, request.to, k as int, *self));
                assert(g0.copies(request.from, request.to, (k + 1) as nat, *self)) by {
                    let n = (k + 1) as nat;
                    assert(g0.copies(request.from, request.to, (n - 1) as nat, before));
                    assert(before.copy_step(request.from, request.to, n - 1, *self));
                }
            }
            k += 1;
        }
    }
}

impl Gameboy {
    /// One dot of the picture unit from this machine: its next state, the interrupt
    /// requests, and the mode entered, if any.
    #[verifier::opaque]
    pub open spec fn dot_result(self) -> (PPUView, u8, Option<PPUMode>) {
        self.ppu@.spec_step(self.interrupt_request)
    }

    /// `g1` is this machine with the picture unit advanced by one dot, and the
    /// interrupt requests it raises added.
    pub open spec fn ppu_stepped(self, g1: Gameboy) -> bool {
        let (p, ir, _) = self.dot_result();
        g1.ppu@ == p && g1 == Gameboy { ppu: g1.ppu, interrupt_request: ir, ..self }
    }

    /// One dot enters HBlank, so the HBlank DMA engine is stepped: always, unless the
    /// speed-switch delay holds all ones (the test is that its bitwise complement is
    /// above zero).
    pub open spec fn hblank_dma_due(self) -> bool {
        self.dot_result().2 == Some(PPUMode::HBlank) && !self.speed_switch_delay > 0
    }

    /// `h` is the machine after one dot: the picture unit advanced, and on entering
    /// HBlank the HBlank DMA engine stepped and the row it asks for copied.
    pub open spec fn dot_stepped(self, h: Gameboy) -> bool {
        exists|g1: Gameboy|
            #[trigger] self.ppu_stepped(g1) && if self.hblank_dma_due() {
                let (d, req) = self.dma_controller.spec_step();
                Gameboy::after_request(Gameboy { dma_controller: d, ..g1 }, req, h)
            } else {
                h == g1
            }
    }

    /// `h` is the machine after `n` dots.
    pub open spec fn dots_stepped(self, n: nat, h: Gameboy) -> bool
        decreases n,
    {
        if n == 0 {
            h == self
        } else {
            exists|g1: Gameboy| self.dots_stepped((n - 1) as nat, g1) && #[trigger] g1.dot_stepped(h)
        }
    }

    /// One dot cannot fault: the picture unit can step, and an HBlank row it starts
    /// fits the address space and can be copied.
    pub open spec fn dot_ok(self) -> bool {
        &&& self.ppu@.step_safe()
        &&& self.hblank_dma_due() && self.dma_controller.hblank_active() ==> {
            let (d, req) = self.dma_controller.spec_step();
            &&& self.dma_controller.source + 0x10 <= u16::MAX
            &&& self.dma_controller.destination + 0x10 <= u16::MAX
            &&& forall|g1: Gameboy| #[trigger]
                self.ppu_stepped(g1) ==> (Gameboy { dma_controller: d, ..g1 }).transfer_ok(req.unwrap())
        }
    }

    /// The next `n` dots cannot fault.
    pub open spec fn dots_ok(self, n: nat) -> bool
        decreases n,
    {
        n == 0 || (self.dot_ok() && forall|h: Gameboy| #[trigger] self.dot_stepped(h) ==> h.dots_ok((n - 1) as nat))
    }

    /// Steps the picture unit by one dot; returns the mode entered, if any.
    #[verifier::spinoff_prover]
    fn step_ppu(&mut self) -> (entered: Option<PPUMode>)
        requires
            old(self).wf(),
            old(self).ppu@.step_safe(),
        ensures
            final(self).wf(),
            old(self).ppu_stepped(*final(self)),
            entered == old(self).dot_result().2,
    {
        let ghost before = *self;
        proof {
            lemma_step_keeps_palettes(self.ppu@, self.interrupt_request);
        }
        let mut ir = self.interrupt_request;
        let entered = self.ppu.step(&mut ir);
        self.interrupt_request = ir;
        assert(before.dot_result() == (self.ppu@, ir, entered)) by {
            reveal(Gameboy::dot_result);
        }
        entered
    }

    /// One dot: the picture unit stepped and, on entering HBlank (see
    /// `hblank_dma_due`), one row of an HBlank DMA transfer copied.
    #[verifier::spinoff_prover]
    fn step_dot(&mut self)
        requires
            old(self).wf(),
            old(self).dot_ok(),
        ensures
            final(self).wf(),
            old(self).dot_stepped(*final(self)),
            final(self).t_states == old(self).t_states,
    {
        let ghost before = *self;
        let entered = self.step_ppu();
        let ghost g1 = *self;
        if !self.speed_switch_delay > 0 {
            match entered {
                Some(PPUMode::HBlank) => {
                    let req = self.dma_controller.step();
                    match req {
                        Some(q) => self.handle_dma_transfer(q),
                        None => {},
                    }
                },
                _ => {},
            }
        }
        proof {
            assert(before.dot_stepped(*self));
        }
    }

    /// Advances the machine by `t_states` dots: each steps the picture unit, and each
    /// entry into HBlank (see `hblank_dma_due`) runs one row of an HBlank DMA
    /// transfer. The dot counter grows by `t_states`.
    pub fn tick_t_states(&mut self, t_states: u32)
        requires
            old(self).wf(),
            old(self).dots_ok(t_states as nat),
            old(self).t_states + t_states <= u64::MAX,
        ensures
            final(self).wf(),
            exists|h: Gameboy|
                #[trigger] old(self).dots_stepped(t_states as nat, h) && *final(self) == (Gameboy {
                    t_states: (old(self).t_states + t_states) as u64,
                    ..h
                }),
    {
        let ghost g0 = *self;
        let mut i: u32 = 0;
        while i < t_states
            invariant
                i <= t_states,
                self.wf(),
                g0.dots_stepped(i as nat, *self),
                self.dots_ok((t_states - i) as nat),
                self.t_states == g0.t_states,
            decreases t_states - i,
        {
            let ghost before = *self;
            self.step_dot();
            proof {
                assert(g0.dots_stepped((i + 1) as nat, *self)) by {
                    let n = (i + 1) as nat;
                    assert(g0.dots_stepped((n - 1) as nat, before));
                    assert(before.dot_stepped(*self));
                }
            }
            i += 1;
        }
        self.t_states = self.t_states + t_states as u64;
    }
}

impl Gameboy {
    /// `source` may access `addr` now: the CPU is kept from OAM during OAM DMA and OAM
    /// scan and drawing, and from VRAM while drawing.
    pub open spec fn accessible(self, addr: u16, source: Source) -> bool {
        spec_is_accessible(!self.oam_dma.dma_active, self.ppu.mode, addr, source)
    }

    /// Reads `addr` for `source`: the bus value where the access is allowed, else 0xFF.
    pub fn read_from(&self, addr: u16, source: Source) -> (r: u8)
        requires
            self.wf(),
            self.accessible(addr, source) ==> self.read_ok(addr),
        ensures
            r == if self.accessible(addr, source) { self.spec_read(addr) } else { 0xFF },
    {
        if is_accessible(self.oam_dma.oam_is_accessible(), self.ppu.mode(), addr, source) {
            self.read(addr)
        } else {
            0xFF
        }
    }

    /// Writes `value` to `addr` for `source` where the access is allowed; a blocked
    /// write changes nothing.
    pub fn write_from(&mut self, addr: u16, value: u8, source: Source)
        requires
            old(self).wf(),
            old(self).accessible(addr, source) ==> old(self).write_ok(addr, value),
            old(self).accessible(addr, source) ==> forall|g1: Gameboy, q: DMATransferRequest| #[trigger]
                old(self).written(addr, value, g1, Some(q)) ==> g1.transfer_ok(q),
        ensures
            final(self).wf(),
            old(self).accessible(addr, source) ==> old(self).performed(addr, value, *final(self)),
            !old(self).accessible(addr, source) ==> *final(self) == *old(self),
    {
        if is_accessible(self.oam_dma.oam_is_accessible(), self.ppu.mode(), addr, source) {
            self.write(addr, value);
        }
    }

    /// The interrupts both enabled and requested, as the bus reads IE and IF.
    pub open spec fn requests(self) -> u8 {
        self.interrupt_enable & (self.interrupt_request | 0xE0)
    }

    /// Requests interrupt `interrupt` (its flag bit) in IF.
    pub fn request_interrupt(&mut self, interrupt: u8)
        ensures
            *final(self) == (Gameboy { interrupt_request: old(self).interrupt_request | interrupt, ..*old(self) }),
    {
        self.interrupt_request = self.interrupt_request | interrupt;
    }

    /// Interrupt `interrupt` (a flag bit) is enabled and requested.
    pub fn check_interrupt(&self, interrupt: u8) -> (r: bool)
        requires
            self.wf(),
        ensures
            r == (self.requests() & interrupt != 0),
    {
        let ie = self.read(0xFFFF);
        let flags = self.read(IF);
        ie & flags & interrupt != 0
    }

    /// Withdraws the request for `interrupt` (a flag bit) through IF.
    pub fn clear_request(&mut self, interrupt: u8)
        requires
            old(self).wf(),
        ensures
            final(self).wf(),
            final(self).interrupt_request == ((old(self).interrupt_request | 0xE0) & !interrupt) & 0x1F,
            final(self).io_register_state.values@ == old(self).io_register_state.values@.update(
                IF - 0xFF00,
                ((old(self).interrupt_request | 0xE0) & !interrupt) & 0x1F,
            ),
            *final(self) == (Gameboy {
                interrupt_request: final(self).interrupt_request,
                io_register_state: final(self).io_register_state,
                ..*old(self)
            }),
    {
        let flag = self.read(IF);
        let _ = self.write_byte(IF, flag & !interrupt);
    }

    /// Some enabled interrupt is requested (none can be while IE is zero).
    pub fn interrupt_pending(&self) -> (r: bool)
        requires
            self.wf(),
        ensures
            r == (self.interrupt_enable != 0 && self.requests() != 0),
    {
        if self.interrupt_enable == 0 {
            return false;
        }
        self.interrupt_enable & self.read(IF) != 0
    }

    /// With IME set, takes the lowest enabled and requested interrupt (V-blank
    /// first): its request is cleared and its flag bit returned. Nothing is taken
    /// with IME clear.
    pub fn fetch_next_interrupt(&mut self) -> (r: Option<u8>)
        requires
            old(self).wf(),
        ensures
            final(self).wf(),
            r == (if old(self).cpu_state.ime { lowest_interrupt(old(self).requests()) } else { None }),
            r is None ==> *final(self) == *old(self),
            r matches Some(i) ==> {
                &&& final(self).interrupt_request == ((old(self).interrupt_request | 0xE0) & !i) & 0x1F
                &&& *final(self) == (Gameboy {
                    interrupt_request: final(self).interrupt_request,
                    io_register_state: final(self).io_register_state,
                    ..*old(self)
                })
                &&& final(self).io_register_state.values@ == old(self).io_register_state.values@.update(
                    IF - 0xFF00,
                    ((old(self).interrupt_request | 0xE0) & !i) & 0x1F,
                )
            },
    {
        if !self.cpu_state.ime {
            return None;
        }
        let requests = self.interrupt_enable & self.read(IF);
        proof {
            lemma_lowest_interrupt(requests);
        }
        if requests == 0 {
            return None;
        }
        let mut index: u8 = 0;
        while index < 5
            invariant
                index <= 5,
                *self == *old(self),
                self.wf(),
                requests == old(self).requests(),
                requests != 0,
                self.cpu_state.ime,
                lowest_interrupt(requests) == lowest_from(requests, index),
            decreases 5 - index,
        {
            let interrupt: u8 = 1u8 << index;
            proof {
                lemma_lowest_step(requests, index);
            }
            if requests & interrupt != 0 {
                self.clear_request(interrupt);
                return Some(interrupt);
            }
            index += 1;
        }
        None
    }
}

/// The lowest requested interrupt among flags `index..5`.
pub open spec fn lowest_from(requests: u8, index: u8) -> Option<u8>
    decreases 5 - index,
{
    if index >= 5 {
        None
    } else if requests & ((1u8 << index) as u8) != 0 {
        Some((1u8 << index) as u8)
    } else {
        lowest_from(requests, (index + 1) as u8)
    }
}

proof fn lemma_lowest_interrupt(requests: u8)
    ensures
        lowest_interrupt(requests) == lowest_from(requests, 0),
        requests == 0 ==> lowest_interrupt(requests) is None,
{
    reveal_with_fuel(lowest_from, 6);
    assert((1u8 << 0u8) == 1u8 && (1u8 << 1u8) == 2u8 && (1u8 << 2u8) == 4u8 && (1u8 << 3u8) == 8u8 && (1u8 << 4u8)
        == 16u8) by (bit_vector);
    assert(requests == 0 ==> (requests & 1u8 == 0 && requests & 2u8 == 0 && requests & 4u8 == 0 && requests & 8u8 == 0
        && requests & 16u8 == 0)) by (bit_vector);
}

proof fn lemma_lowest_step(requests: u8, index: u8)
    requires
        index < 5,
    ensures
        (1u8 << index) as u8 == if index == 0 { 1u8 } else if index == 1 { 2u8 } else if index == 2 { 4u8 } else if index
            == 3 { 8u8 } else { 16u8 },
{
    assert((1u8 << 0u8) == 1u8 && (1u8 << 1u8) == 2u8 && (1u8 << 2u8) == 4u8 && (1u8 << 3u8) == 8u8 && (1u8 << 4u8)
        == 16u8) by (bit_vector);
}

/// A byte written to RAM on the bus (VRAM, work RAM and its echo, OAM, high RAM)
/// reads back unchanged at the same address; IE reads back its five low bits.
pub proof fn lemma_bus_read_after_write(g: Gameboy, g2: Gameboy, addr: u16, value: u8)
    requires
        g.wf(),
        g.performed(addr, value, g2),
        spec_region(addr) is VRam || spec_region(addr) is WorkRamLow || spec_region(addr) is WorkRamHigh
            || spec_region(addr) is Oam || spec_region(addr) is HRam || spec_region(addr) is InterruptEnable,
    ensures
        g2.spec_read(addr) == if addr == 0xFFFF { value & 0x1F } else { value },
{
    lemma_echo_ram(addr);
    let (g1, req) = choose|g1: Gameboy, req: Option<DMATransferRequest>|
        #[trigger] g.written(addr, value, g1, req) && Gameboy::after_request(g1, req, g2);
    assert(g2 == g1);
}

/// A VRAM transfer from outside VRAM leaves, at each `to + i` of the selected bank,
/// the byte the bus read at `from + i` before the transfer. Every other address
/// reads as before, the other bank is untouched, and nothing but VRAM changes.
pub proof fn lemma_vram_transfer(g: Gameboy, from: u16, to: u16, n: nat, h: Gameboy)
    requires
        g.copies(from, to, n, h),
        0x8000 <= to,
        to + n <= 0xA000,
        from + n <= 0x8000 || 0xA000 <= from,
        from + n <= u16::MAX,
    ensures
        h == (Gameboy { ppu: h.ppu, ..g }),
        h.ppu@ == (PPUView { vram0: h.ppu@.vram0, vram1: h.ppu@.vram1, ..g.ppu@ }),
        g.vram_bank() == VRAMBank::Bank0 ==> h.ppu@.vram1 == g.ppu@.vram1,
        g.vram_bank() == VRAMBank::Bank1 ==> h.ppu@.vram0 == g.ppu@.vram0,
        forall|i: int| 0 <= i < n ==> #[trigger] h.spec_read((to + i) as u16) == g.spec_read((from + i) as u16),
        forall|a: u16| !(to <= a < to + n) ==> #[trigger] h.spec_read(a) == g.spec_read(a),
    decreases n,
{
    if n > 0 {
        let g1 = choose|g1: Gameboy|
            g.copies(from, to, (n - 1) as nat, g1) && #[trigger] g1.copy_step(from, to, n - 1, h);
        lemma_vram_transfer(g, from, to, (n - 1) as nat, g1);
        let src = (from + n - 1) as u16;
        let dst = (to + n - 1) as u16;
        lemma_echo_ram(dst);
        assert(spec_region(dst) == Region::VRam((dst - 0x8000) as u16));
        assert(g1.spec_read(src) == g.spec_read(src));
        assert forall|i: int| 0 <= i < n implies #[trigger] h.spec_read((to + i) as u16) == g.spec_read(
            (from + i) as u16,
        ) by {
            let a = (to + i) as u16;
            lemma_echo_ram(a);
            if i < n - 1 {
                assert(g1.spec_read(a) == g.spec_read((from + i) as u16));
            }
        }
        assert forall|a: u16| !(to <= a < to + n) implies #[trigger] h.spec_read(a) == g.spec_read(a) by {
            lemma_echo_ram(a);
            assert(g1.spec_read(a) == g.spec_read(a));
        }
    }
}

} // verus!
