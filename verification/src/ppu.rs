pub mod color_ram;
pub mod dmg_palette;
pub mod lcdc;
pub mod renderer;
pub mod schedule;
pub mod sprite;
pub mod stat;
pub mod tile_data;

use vstd::prelude::*;
use std::collections::VecDeque;
use crate::lcd::{GameboyLCD, SyncMode, BUFFER_LEN};
use crate::ppu::color_ram::ColorRamController;
use crate::ppu::dmg_palette::DMGPalette;
use crate::ppu::lcdc::{Lcdc, DISPLAY_ENABLE};
use crate::ppu::renderer::{Pixel, pixels_valid};
use crate::ppu::sprite::Sprite;
use crate::ppu::stat::{Stat, LYC_EQ_LY, LYC_EQ_LY_IE};
use crate::bits::{BIT_7, lemma_u8_facts};

verus! {

/// The V-blank interrupt request bit.
pub const INT_VBLANK: u8 = 0x01;
/// The LCD STAT interrupt request bit.
pub const INT_LCD_STAT: u8 = 0x02;
/// Dots in one scanline.
pub const SCANLINE_CYCLES: u64 = 455;
/// Dots spent in OAM scan, less the one that starts it.
pub const OAM_SCAN_CYCLES: u64 = 79;

/// Whether the pixel fetcher is drawing the background or the window.
#[derive(Clone, Copy, Debug, PartialEq, Eq, Structural)]
pub enum FetcherMode {
    Background,
    Window,
}

#[derive(Clone, Copy, Debug, PartialEq, Eq, Structural)]
pub enum GBMode {
    CGB,
    DMG,
}

/// The picture unit's mode, as reported in STAT bits 0-1.
#[derive(Clone, Copy, Debug, PartialEq, Eq, Structural)]
pub enum PPUMode {
    HBlank,
    VBlank,
    OamScan,
    Draw,
}

impl PPUMode {
    /// The mode number reported in STAT.
    pub open spec fn spec_number(self) -> u8 {
        match self {
            PPUMode::HBlank => 0,
            PPUMode::VBlank => 1,
            PPUMode::OamScan => 2,
            PPUMode::Draw => 3,
        }
    }

    pub fn number(self) -> (n: u8)
        ensures
            n == self.spec_number(),
    {
        match self {
            PPUMode::HBlank => 0,
            PPUMode::VBlank => 1,
            PPUMode::OamScan => 2,
            PPUMode::Draw => 3,
        }
    }
}

#[derive(Clone, Copy, Debug, PartialEq, Eq, Structural)]
pub enum VRAMBank {
    Bank0,
    Bank1,
}

impl VRAMBank {
    /// The bank selected by bit 0 of `value`.
    pub open spec fn spec_from(value: u8) -> VRAMBank {
        if value & 1 == 0 {
            VRAMBank::Bank0
        } else {
            VRAMBank::Bank1
        }
    }

}

impl From<u8> for VRAMBank {
    /// The bank selected by bit 0.
    fn from(value: u8) -> (b: VRAMBank) {
        if value & 1 == 0 {
            VRAMBank::Bank0
        } else {
            VRAMBank::Bank1
        }
    }
}

impl vstd::std_specs::convert::FromSpecImpl<u8> for VRAMBank {
    open spec fn obeys_from_spec() -> bool {
        true
    }

    open spec fn from_spec(v: u8) -> VRAMBank {
        VRAMBank::spec_from(v)
    }
}

/// The picture unit's memory-mapped registers.
#[derive(Clone, Copy, Debug)]
pub struct Registers {
    pub scy: u8,
    pub scx: u8,
    pub lyc: u8,
    pub bgp: u8,
    pub obp0: u8,
    pub obp1: u8,
    pub wy: u8,
    pub wx: u8,
    pub ly: u8,
    pub stat: Stat,
    pub lcdc: Lcdc,
}

impl Registers {
    pub fn default() -> (r: Self)
        ensures
            r == (Registers {
                scy: 0,
                scx: 0,
                lyc: 0,
                bgp: 0,
                obp0: 0,
                obp1: 0,
                wy: 0,
                wx: 0,
                ly: 0,
                stat: Stat(0),
                lcdc: Lcdc(0),
            }),
    {
        Registers { scy: 0, scx: 0, lyc: 0, bgp: 0, obp0: 0, obp1: 0, wy: 0, wx: 0, ly: 0, stat: Stat(0), lcdc: Lcdc(0) }
    }
}

/// The picture processing unit: VRAM, OAM, palettes, the mode state machine and
/// the pixel FIFOs that draw each scanline into the LCD.
pub struct PPU {
    pub gb_mode: GBMode,
    pub cycle: u64,
    pub ran_cycles: u64,
    pub last_frame: u64,
    pub scanline_cycle_start: u64,
    pub v_ram_bank_0: [u8; 0x2000],
    /// Only in Game Boy Color mode.
    pub v_ram_bank_1: [u8; 0x2000],
    pub oam: [u8; 0xA0],
    pub lcd: GameboyLCD,
    pub registers: Registers,
    pub bg_color: ColorRamController,
    pub obj_color: ColorRamController,
    pub frame: u64,
    pub dmg_pallette: DMGPalette,
    pub mode: PPUMode,
    pub stat_irq: bool,
    pub fetcher_mode: FetcherMode,
    pub current_pixel: u8,
    pub window_line: u8,
    pub sprites: Vec<Sprite>,
    pub current_tile: u8,
    pub fifo_pixel: u8,
    pub fifo_bg: VecDeque<Pixel>,
    pub fifo_obj: VecDeque<Pixel>,
}

/// The picture unit as a mathematical value: memories and queues as sequences.
pub ghost struct PPUView {
    pub gb_mode: GBMode,
    pub cycle: u64,
    pub ran_cycles: u64,
    pub last_frame: u64,
    pub scanline_cycle_start: u64,
    pub vram0: Seq<u8>,
    pub vram1: Seq<u8>,
    pub oam: Seq<u8>,
    pub lcd_front: Seq<u8>,
    pub lcd_back: Seq<u8>,
    pub lcd_sync: SyncMode,
    pub lcd_frame: u64,
    pub registers: Registers,
    pub bg_color: ColorRamController,
    pub obj_color: ColorRamController,
    pub frame: u64,
    pub dmg_pallette: DMGPalette,
    pub mode: PPUMode,
    pub stat_irq: bool,
    pub fetcher_mode: FetcherMode,
    pub current_pixel: u8,
    pub window_line: u8,
    pub sprites: Seq<Sprite>,
    pub current_tile: u8,
    pub fifo_pixel: u8,
    pub fifo_bg: Seq<Pixel>,
    pub fifo_obj: Seq<Pixel>,
}

impl View for PPU {
    type V = PPUView;

    open spec fn view(&self) -> PPUView {
        PPUView {
            gb_mode: self.gb_mode,
            cycle: self.cycle,
            ran_cycles: self.ran_cycles,
            last_frame: self.last_frame,
            scanline_cycle_start: self.scanline_cycle_start,
            vram0: self.v_ram_bank_0@,
            vram1: self.v_ram_bank_1@,
            oam: self.oam@,
            lcd_front: self.lcd.buffer_front@,
            lcd_back: self.lcd.buffer_back@,
            lcd_sync: self.lcd.sync_mode,
            lcd_frame: self.lcd.frame,
            registers: self.registers,
            bg_color: self.bg_color,
            obj_color: self.obj_color,
            frame: self.frame,
            dmg_pallette: self.dmg_pallette,
            mode: self.mode,
            stat_irq: self.stat_irq,
            fetcher_mode: self.fetcher_mode,
            current_pixel: self.current_pixel,
            window_line: self.window_line,
            sprites: self.sprites@,
            current_tile: self.current_tile,
            fifo_pixel: self.fifo_pixel,
            fifo_bg: self.fifo_bg@,
            fifo_obj: self.fifo_obj@,
        }
    }
}

impl PPUView {
    pub open spec fn wf(self) -> bool {
        &&& self.vram0.len() == 0x2000
        &&& self.vram1.len() == 0x2000
        &&& self.oam.len() == 0xA0
        &&& self.lcd_front.len() == BUFFER_LEN
        &&& self.lcd_back.len() == BUFFER_LEN
        &&& self.current_tile < 32
        &&& pixels_valid(self.fifo_bg)
        &&& pixels_valid(self.fifo_obj)
    }

    pub open spec fn enabled(self) -> bool {
        self.registers.lcdc.has(DISPLAY_ENABLE)
    }

    pub open spec fn ly(self) -> u8 {
        self.registers.ly
    }

    pub open spec fn with_ly(self, ly: u8) -> PPUView {
        PPUView { registers: Registers { ly, ..self.registers }, ..self }
    }

    /// STAT interrupt line: raised on the rising edge of (mode interrupt or coincidence).
    pub open spec fn spec_update_stat_irq(self, ir: u8) -> (PPUView, u8) {
        let stat = self.registers.stat;
        let mode_int = stat.spec_int_enable(self.mode) || (stat.spec_int_enable(PPUMode::OamScan) && self.ly() == 144);
        let lyc_int = stat.has(LYC_EQ_LY) && stat.has(LYC_EQ_LY_IE);
        let new_value = mode_int || lyc_int;
        let rising = !self.stat_irq && new_value;
        (PPUView { stat_irq: new_value, ..self }, if rising { ir | INT_LCD_STAT } else { ir })
    }

    pub open spec fn spec_update_lyc(self, ir: u8) -> (PPUView, u8) {
        let s = self.registers.stat.0;
        let stat = Stat(if self.ly() == self.registers.lyc { s | LYC_EQ_LY } else { s & !LYC_EQ_LY });
        PPUView { registers: Registers { stat, ..self.registers }, ..self }.spec_update_stat_irq(ir)
    }

    /// Entering `mode`: with the display on, the STAT line is updated and V-blank requested.
    pub open spec fn spec_set_mode(self, mode: PPUMode, ir: u8) -> (PPUView, u8, Option<PPUMode>) {
        let v = PPUView { mode, ..self };
        if !v.enabled() {
            (v, ir, None)
        } else {
            let (w, ir2) = v.spec_update_stat_irq(ir);
            (w, if mode == PPUMode::VBlank { ir2 | INT_VBLANK } else { ir2 }, Some(mode))
        }
    }

    pub open spec fn spec_write_lcdc(self, value: u8, ir: u8) -> (PPUView, u8) {
        let v1 = if value & BIT_7 == 0 && self.enabled() { self.with_ly(0) } else { self };
        let (v2, ir2) = if value & BIT_7 != 0 && !self.enabled() {
            let (w, i, _) = PPUView { current_pixel: 0, ..v1 }.spec_set_mode(PPUMode::HBlank, ir);
            (w, i)
        } else {
            (v1, ir)
        };
        (PPUView { registers: Registers { lcdc: Lcdc(value), ..v2.registers }, ..v2 }, ir2)
    }

    pub open spec fn spec_read_stat(self) -> u8 {
        if self.enabled() {
            (self.registers.stat.0 | BIT_7) | self.mode.spec_number()
        } else {
            BIT_7
        }
    }

    /// The frame counter advanced and, when double buffered, the buffers exchanged.
    pub open spec fn spec_swap_buffers(self) -> PPUView {
        if self.lcd_sync == SyncMode::DoubleBuffered {
            PPUView { lcd_frame: (self.lcd_frame + 1) as u64, lcd_front: self.lcd_back, lcd_back: self.lcd_front, ..self }
        } else {
            PPUView { lcd_frame: (self.lcd_frame + 1) as u64, ..self }
        }
    }
}

impl PPU {
    /// Power-on state: memories zeroed, display registers clear, in OAM scan.
    #[verifier::spinoff_prover]
    pub fn default() -> (p: Self)
        ensures
            p@.wf(),
            p@.vram0 == Seq::new(0x2000, |i: int| 0u8),
            p@.vram1 == Seq::new(0x2000, |i: int| 0u8),
            p@.oam == Seq::new(0xA0, |i: int| 0u8),
            p.gb_mode == GBMode::CGB,
            p.mode == PPUMode::OamScan,
            p.cycle == 0 && p.ran_cycles == 0 && p.last_frame == 0 && p.scanline_cycle_start == 0 && p.frame == 0,
            !p.stat_irq,
            p.window_line == 0xFF,
            p.current_pixel == 0 && p.current_tile == 0 && p.fifo_pixel == 0,
            p.fetcher_mode == FetcherMode::Background,
            p@.sprites.len() == 0 && p@.fifo_bg.len() == 0 && p@.fifo_obj.len() == 0,
            p.registers == (Registers {
                scy: 0,
                scx: 0,
                lyc: 0,
                bgp: 0,
                obp0: 0,
                obp1: 0,
                wy: 0,
                wx: 0,
                ly: 0,
                stat: Stat(0),
                lcdc: Lcdc(0),
            }),
            p@.lcd_front == Seq::new(BUFFER_LEN as nat, |i: int| 100u8),
            p@.lcd_back == Seq::new(BUFFER_LEN as nat, |i: int| 100u8),
            p@.lcd_sync == SyncMode::Immediate && p@.lcd_frame == 0,
            p.bg_color.wf() && p.obj_color.wf(),
            p.bg_color.index == 0 && !p.bg_color.increment && p.bg_color.data@ == Seq::new(32, |i: int| 0u16),
            p.bg_color.colors@ == Seq::new(32, |i: int| (0u8, 0u8, 0u8, 255u8)),
            p.obj_color.index == 0 && !p.obj_color.increment && p.obj_color.data@ == Seq::new(32, |i: int| 0u16),
            p.obj_color.colors@ == Seq::new(32, |i: int| (0u8, 0u8, 0u8, 255u8)),
            p.dmg_pallette.0@ == seq![
                (0xFFu8, 0xFFu8, 0xFFu8, 0xFFu8),
                (0xAAu8, 0xAAu8, 0xAAu8, 0xFFu8),
                (0x55u8, 0x55u8, 0x55u8, 0xFFu8),
                (0x00u8, 0x00u8, 0x00u8, 0xFFu8),
            ],
    {
        let p = PPU {
            gb_mode: GBMode::CGB,
            stat_irq: false,
            last_frame: 0,
            ran_cycles: 0,
            window_line: 0xFF,
            v_ram_bank_0: [0; 0x2000],
            v_ram_bank_1: [0; 0x2000],
            oam: [0; 0xA0],
            cycle: 0,
            mode: PPUMode::OamScan,
            lcd: GameboyLCD::default(),
            registers: Registers::default(),
            bg_color: ColorRamController::default(),
            obj_color: ColorRamController::default(),
            frame: 0,
            fetcher_mode: FetcherMode::Background,
            current_pixel: 0,
            sprites: Vec::new(),
            current_tile: 0,
            fifo_pixel: 0,
            fifo_bg: VecDeque::with_capacity(16),
            fifo_obj: VecDeque::with_capacity(16),
            dmg_pallette: DMGPalette::default(),
            scanline_cycle_start: 0,
        };
        assert(p@.vram0 =~= Seq::new(0x2000, |i: int| 0u8));
        assert(p@.vram1 =~= Seq::new(0x2000, |i: int| 0u8));
        assert(p@.oam =~= Seq::new(0xA0, |i: int| 0u8));
        p
    }

    pub fn mode(&self) -> (m: PPUMode)
        ensures
            m == self.mode,
    {
        self.mode
    }

    pub fn get_ly(&self) -> (r: u8)
        ensures
            r == self.registers.ly,
    {
        self.registers.ly
    }

    pub fn is_enabled(&self) -> (r: bool)
        ensures
            r == self@.enabled(),
    {
        self.registers.lcdc.display_enabled()
    }

    pub fn read_lcdc(&self) -> (r: u8)
        ensures
            r == self.registers.lcdc.0,
    {
        self.registers.lcdc.read()
    }

    pub fn set_lyc(&mut self, lyc: u8, _interrupt_register: &mut u8)
        ensures
            final(self)@ == (PPUView { registers: Registers { lyc, ..old(self).registers }, ..old(self)@ }),
            *final(_interrupt_register) == *old(_interrupt_register),
    {
        self.registers.lyc = lyc;
    }

    pub fn set_ly(&mut self, value: u8, _interrupt_register: &mut u8)
        ensures
            final(self)@ == old(self)@.with_ly(value),
            *final(_interrupt_register) == *old(_interrupt_register),
    {
        self.registers.ly = value;
    }

    pub fn write_stat(&mut self, value: u8, _interrupt_register: &mut u8)
        ensures
            final(self)@ == (PPUView {
                registers: Registers { stat: Stat(value & !crate::ppu::stat::MODE_MASK), ..old(self).registers },
                ..old(self)@
            }),
            *final(_interrupt_register) == *old(_interrupt_register),
    {
        self.registers.stat.write(value);
    }

    /// STAT as read: the stored bits, bit 7, and the current mode while the display is on.
    pub fn read_stat(&self) -> (r: u8)
        ensures
            r == self@.spec_read_stat(),
    {
        if self.is_enabled() {
            self.registers.stat.read(self.is_enabled()) | self.mode.number()
        } else {
            self.registers.stat.read(self.is_enabled())
        }
    }

    pub fn update_stat_irq(&mut self, interrupt_register: &mut u8)
        ensures
            (final(self)@, *final(interrupt_register)) == old(self)@.spec_update_stat_irq(*old(interrupt_register)),
    {
        let mode_int = self.registers.stat.int_enable(self.mode);
        let mode_int = mode_int || (self.registers.stat.int_enable(PPUMode::OamScan) && self.get_ly() == 144);
        let lyc_int = self.registers.stat.lyc_eq_ly() && self.registers.stat.lyc_eq_ly_ie();
        let new_value = mode_int || lyc_int;
        let rising_edge = !self.stat_irq && new_value;
        self.stat_irq = new_value;
        if rising_edge {
            *interrupt_register = *interrupt_register | INT_LCD_STAT;
        }
    }

    /// Recomputes the LY=LYC coincidence flag and the STAT line.
    pub fn update_lyc(&mut self, interrupt_register: &mut u8)
        ensures
            (final(self)@, *final(interrupt_register)) == old(self)@.spec_update_lyc(*old(interrupt_register)),
    {
        let eq = self.registers.ly == self.registers.lyc;
        self.registers.stat.set_lyc_eq_ly(eq);
        self.update_stat_irq(interrupt_register)
    }

    /// Enters `mode`. With the display off nothing is signalled and `None` is returned.
    pub fn set_mode(&mut self, mode: PPUMode, interrupt_register: &mut u8) -> (r: Option<PPUMode>)
        ensures
            (final(self)@, *final(interrupt_register), r) == old(self)@.spec_set_mode(mode, *old(interrupt_register)),
    {
        self.mode = mode;
        if !self.is_enabled() {
            return None;
        }
        self.update_stat_irq(interrupt_register);
        if mode == PPUMode::VBlank {
            *interrupt_register = *interrupt_register | INT_VBLANK;
        }
        Some(mode)
    }

    /// LCDC write: turning the display off resets LY; turning it on restarts the line
    /// in H-blank.
    #[verifier::spinoff_prover]
    pub fn write_lcdc(&mut self, value: u8, interrupt_register: &mut u8)
        ensures
            (final(self)@, *final(interrupt_register)) == old(self)@.spec_write_lcdc(value, *old(interrupt_register)),
    {
        if value & BIT_7 == 0 && self.is_enabled() {
            self.set_ly(0, interrupt_register);
        }
        if value & BIT_7 != 0 && !self.is_enabled() {
            self.current_pixel = 0;
            let _ = self.set_mode(PPUMode::HBlank, interrupt_register);
        }
        self.registers.lcdc.write(value);
    }
}

impl PPUView {
    /// The state at the start of a step with the display on: LY=LYC updated and the
    /// dot counted.
    pub open spec fn counted(self) -> PPUView {
        let v0 = self.spec_update_lyc(0).0;
        PPUView { ran_cycles: (self.ran_cycles + 1) as u64, ..v0 }
    }

    /// One dot of the picture unit: the next state, the interrupt requests, and the
    /// mode entered, if any.
    pub open spec fn spec_step(self, ir: u8) -> (PPUView, u8, Option<PPUMode>) {
        if !self.enabled() {
            (self, ir, None)
        } else {
            let (v0, ir0) = self.spec_update_lyc(ir);
            let v1 = PPUView { ran_cycles: (v0.ran_cycles + 1) as u64, ..v0 };
            if v1.cycle > 0 {
                (PPUView { cycle: (v1.cycle - 1) as u64, ..v1 }, ir0, None)
            } else {
                match v1.mode {
                    PPUMode::HBlank => v1.spec_end_hblank(ir0),
                    PPUMode::VBlank => v1.spec_end_vblank_line(ir0),
                    PPUMode::OamScan => v1.spec_end_oam_scan(ir0),
                    PPUMode::Draw => v1.spec_draw_dot(ir0),
                }
            }
        }
    }

    /// The end of H-blank: the next line's OAM scan, or V-blank after line 143.
    pub open spec fn spec_end_hblank(self, ir: u8) -> (PPUView, u8, Option<PPUMode>) {
        let v2 = self.with_ly((self.ly() + 1) as u8);
        if v2.ly() < 144 {
            PPUView { cycle: (v2.cycle + OAM_SCAN_CYCLES) as u64, scanline_cycle_start: v2.ran_cycles, ..v2 }.spec_set_mode(
                PPUMode::OamScan,
                ir,
            )
        } else {
            PPUView { cycle: (v2.cycle + SCANLINE_CYCLES) as u64, window_line: 255, ..v2 }.spec_set_mode(PPUMode::VBlank, ir)
        }
    }

    /// The end of a V-blank line: the next one, or after line 153 a new frame.
    pub open spec fn spec_end_vblank_line(self, ir: u8) -> (PPUView, u8, Option<PPUMode>) {
        if self.ly() < 153 {
            (PPUView { cycle: (self.cycle + SCANLINE_CYCLES) as u64, ..self }.with_ly((self.ly() + 1) as u8), ir, None)
        } else {
            PPUView {
                cycle: (self.cycle + OAM_SCAN_CYCLES) as u64,
                frame: (self.frame + 1) as u64,
                last_frame: self.ran_cycles,
                scanline_cycle_start: self.ran_cycles,
                ..self.with_ly(0)
            }.spec_swap_buffers().spec_set_mode(PPUMode::OamScan, ir)
        }
    }

    /// The end of OAM scan: the line is set up and drawing starts.
    pub open spec fn spec_end_oam_scan(self, ir: u8) -> (PPUView, u8, Option<PPUMode>) {
        PPUView { cycle: (self.cycle + 11) as u64, ..self }.spec_start_scanline().spec_set_mode(PPUMode::Draw, ir)
    }

    /// A drawing dot; after the 160th pixel, H-blank for the rest of the 456-dot line.
    pub open spec fn spec_draw_dot(self, ir: u8) -> (PPUView, u8, Option<PPUMode>) {
        let v2 = self.spec_step_fifo();
        if v2.current_pixel == 160 {
            let ran = v2.ran_cycles - v2.scanline_cycle_start;
            PPUView { cycle: (v2.cycle + (SCANLINE_CYCLES - ran)) as u64, ..v2 }.spec_set_mode(PPUMode::HBlank, ir)
        } else {
            (v2, ir, None)
        }
    }

    /// A step cannot fault: the counters and LY do not overflow, a drawing step is
    /// safe, and H-blank starts within the scanline.
    pub open spec fn step_safe(self) -> bool {
        self.enabled() ==> {
            let v1 = self.counted();
            &&& self.ran_cycles < u64::MAX
            &&& v1.cycle == 0 ==> match v1.mode {
                PPUMode::HBlank => v1.ly() < 255,
                PPUMode::VBlank => v1.ly() >= 153 ==> v1.frame < u64::MAX && v1.lcd_frame < u64::MAX,
                PPUMode::OamScan => true,
                PPUMode::Draw => {
                    let v2 = v1.spec_step_fifo();
                    &&& v1.step_fifo_safe()
                    &&& v2.current_pixel == 160 ==> v2.scanline_cycle_start <= v2.ran_cycles && v2.ran_cycles
                        - v2.scanline_cycle_start <= SCANLINE_CYCLES
                },
            }
        }
    }
}

impl PPU {
    /// Advances the picture unit by one dot; returns the mode entered, if any. With the
    /// display off nothing happens.
    #[verifier::spinoff_prover]
    pub fn step(&mut self, interrupt_register: &mut u8) -> (r: Option<PPUMode>)
        requires
            old(self)@.wf(),
            old(self)@.step_safe(),
        ensures
            (final(self)@, *final(interrupt_register), r) == old(self)@.spec_step(*old(interrupt_register)),
            final(self)@.wf(),
    {
        if !self.is_enabled() {
            return None;
        }
        self.update_lyc(interrupt_register);
        self.ran_cycles = self.ran_cycles + 1;
        if self.cycle > 0 {
            self.cycle = self.cycle - 1;
            return None;
        }
        match self.mode {
            PPUMode::HBlank => self.end_hblank(interrupt_register),
            PPUMode::VBlank => self.end_vblank_line(interrupt_register),
            PPUMode::OamScan => self.end_oam_scan(interrupt_register),
            PPUMode::Draw => self.draw_dot(interrupt_register),
        }
    }

    #[verifier::spinoff_prover]
    fn end_hblank(&mut self, interrupt_register: &mut u8) -> (r: Option<PPUMode>)
        requires
            old(self)@.wf(),
            old(self)@.ly() < 255,
            old(self).cycle == 0,
        ensures
            (final(self)@, *final(interrupt_register), r) == old(self)@.spec_end_hblank(*old(interrupt_register)),
            final(self)@.wf(),
    {
        let ly = self.get_ly();
        self.set_ly(ly + 1, interrupt_register);
        if self.get_ly() < 144 {
            self.cycle = self.cycle + OAM_SCAN_CYCLES;
            self.scanline_cycle_start = self.ran_cycles;
            self.set_mode(PPUMode::OamScan, interrupt_register)
        } else {
            self.cycle = self.cycle + SCANLINE_CYCLES;
            self.window_line = 255;
            self.set_mode(PPUMode::VBlank, interrupt_register)
        }
    }

    #[verifier::spinoff_prover]
    fn end_vblank_line(&mut self, interrupt_register: &mut u8) -> (r: Option<PPUMode>)
        requires
            old(self)@.wf(),
            old(self).cycle == 0,
            old(self)@.ly() >= 153 ==> old(self).frame < u64::MAX && old(self).lcd.frame < u64::MAX,
        ensures
            (final(self)@, *final(interrupt_register), r) == old(self)@.spec_end_vblank_line(*old(interrupt_register)),
            final(self)@.wf(),
    {
        if self.get_ly() < 153 {
            self.cycle = self.cycle + SCANLINE_CYCLES;
            let ly = self.get_ly();
            self.set_ly(ly + 1, interrupt_register);
            None
        } else {
            self.set_ly(0, interrupt_register);
            self.cycle = self.cycle + OAM_SCAN_CYCLES;
            self.frame = self.frame + 1;
            self.lcd.swap_buffers();
            self.last_frame = self.ran_cycles;
            self.scanline_cycle_start = self.ran_cycles;
            self.set_mode(PPUMode::OamScan, interrupt_register)
        }
    }

    #[verifier::spinoff_prover]
    fn end_oam_scan(&mut self, interrupt_register: &mut u8) -> (r: Option<PPUMode>)
        requires
            old(self)@.wf(),
            old(self).cycle == 0,
        ensures
            (final(self)@, *final(interrupt_register), r) == old(self)@.spec_end_oam_scan(*old(interrupt_register)),
            final(self)@.wf(),
    {
        self.cycle = self.cycle + 11;
        self.start_scanline();
        self.set_mode(PPUMode::Draw, interrupt_register)
    }

    #[verifier::spinoff_prover]
    fn draw_dot(&mut self, interrupt_register: &mut u8) -> (r: Option<PPUMode>)
        requires
            old(self)@.wf(),
            old(self).cycle == 0,
            old(self)@.step_fifo_safe(),
            old(self)@.spec_step_fifo().current_pixel == 160 ==> old(self)@.spec_step_fifo().scanline_cycle_start
                <= old(self)@.spec_step_fifo().ran_cycles && old(self)@.spec_step_fifo().ran_cycles
                - old(self)@.spec_step_fifo().scanline_cycle_start <= SCANLINE_CYCLES,
        ensures
            (final(self)@, *final(interrupt_register), r) == old(self)@.spec_draw_dot(*old(interrupt_register)),
            final(self)@.wf(),
    {
        proof {
            lemma_step_fifo_keeps_timing(old(self)@);
        }
        self.step_fifo();
        if self.current_pixel == 160 {
            let ran_cycles = self.ran_cycles - self.scanline_cycle_start;
            let remaining = SCANLINE_CYCLES - ran_cycles;
            self.cycle = self.cycle + remaining;
            self.set_mode(PPUMode::HBlank, interrupt_register)
        } else {
            None
        }
    }
}

/// A drawing step leaves the dot counters, the mode and the registers untouched.
pub proof fn lemma_step_fifo_keeps_timing(v: PPUView)
    ensures
        v.spec_step_fifo().cycle == v.cycle,
        v.spec_step_fifo().ran_cycles == v.ran_cycles,
        v.spec_step_fifo().scanline_cycle_start == v.scanline_cycle_start,
        v.spec_step_fifo().mode == v.mode,
        v.spec_step_fifo().registers == v.registers,
{
    lemma_sprite_fifo_keeps_timing(if v.fetcher_mode == FetcherMode::Background && v.spec_in_window() {
        v.spec_start_window()
    } else {
        v
    });
}

proof fn lemma_sprite_fifo_keeps_timing(v: PPUView)
    ensures
        v.spec_step_sprite_fifo().cycle == v.cycle,
        v.spec_step_sprite_fifo().ran_cycles == v.ran_cycles,
        v.spec_step_sprite_fifo().scanline_cycle_start == v.scanline_cycle_start,
        v.spec_step_sprite_fifo().mode == v.mode,
        v.spec_step_sprite_fifo().registers == v.registers,
    decreases v.sprites.len(),
{
    if v.sprites.len() > 0 {
        let next = v.sprites.last();
        if next.x == crate::bits::wrap8(v.current_pixel + 8) {
            lemma_sprite_fifo_keeps_timing(PPUView { sprites: v.sprites.drop_last(), ..v }.spec_draw_sprite(next));
        }
    }
}

impl PPUView {
    /// The picture unit after `n` dots.
    pub open spec fn steps(self, n: nat) -> PPUView
        decreases n,
    {
        if n == 0 {
            self
        } else {
            self.spec_step(0).0.steps((n - 1) as nat)
        }
    }
}

/// While the dot counter runs down nothing but the counters moves: the mode, the line
/// and the line's start stay, and the display stays on.
proof fn lemma_countdown(v: PPUView, k: nat)
    requires
        v.enabled(),
        k <= v.cycle,
        v.ran_cycles + k <= u64::MAX,
    ensures
        v.steps(k).enabled(),
        v.steps(k).mode == v.mode,
        v.steps(k).ly() == v.ly(),
        v.steps(k).cycle == v.cycle - k,
        v.steps(k).ran_cycles == v.ran_cycles + k,
        v.steps(k).scanline_cycle_start == v.scanline_cycle_start,
    decreases k,
{
    if k > 0 {
        lemma_countdown(v.spec_step(0).0, (k - 1) as nat);
    }
}

/// A visible line lasts 456 dots. When drawing ends (the step that enters H-blank),
/// H-blank is sized so that the next line's OAM scan starts exactly 456 dots after
/// this line's did.
pub proof fn lemma_scanline_lasts_456_dots(v: PPUView)
    requires
        v.enabled(),
        v.step_safe(),
        v.cycle == 0,
        v.mode == PPUMode::Draw,
        v.spec_step(0).0.mode == PPUMode::HBlank,
        v.ly() < 143,
        v.scanline_cycle_start + 456 <= u64::MAX,
    ensures
        ({
            let w = v.spec_step(0).0;
            let next = w.steps((w.cycle + 1) as nat);
            &&& next.mode == PPUMode::OamScan
            &&& next.ly() == v.ly() + 1
            &&& next.scanline_cycle_start == v.scanline_cycle_start + 456
        }),
{
    let v1 = v.counted();
    lemma_step_fifo_keeps_timing(v1);
    let w = v.spec_step(0).0;
    assert(w.cycle == SCANLINE_CYCLES - (v1.ran_cycles - v.scanline_cycle_start));
    lemma_countdown(w, w.cycle as nat);
    let u = w.steps(w.cycle as nat);
    lemma_steps_split(w, w.cycle as nat);
}

/// `n + 1` dots are `n` dots and then one more.
proof fn lemma_steps_split(v: PPUView, n: nat)
    ensures
        v.steps(n + 1) == v.steps(n).spec_step(0).0,
    decreases n,
{
    let w = v.spec_step(0).0;
    if n > 0 {
        lemma_steps_split(w, (n - 1) as nat);
        assert(v.steps(n) == w.steps((n - 1) as nat));
    } else {
        assert(w.steps(0) == w);
    }
    assert(v.steps(n + 1) == w.steps(n));
}

/// A V-blank line lasts 456 dots: from the start of one V-blank line to the start of
/// the next, LY advances by one and the picture unit stays in V-blank.
pub proof fn lemma_vblank_line_lasts_456_dots(v: PPUView)
    requires
        v.enabled(),
        v.mode == PPUMode::VBlank,
        v.cycle == SCANLINE_CYCLES,
        v.ly() < 153,
        v.ran_cycles + 456 <= u64::MAX,
    ensures
        v.steps(456).mode == PPUMode::VBlank,
        v.steps(456).ly() == v.ly() + 1,
        v.steps(456).cycle == SCANLINE_CYCLES,
{
    lemma_countdown(v, 455);
    lemma_steps_split(v, 455);
}

/// With the display off a step changes nothing and signals nothing.
pub proof fn lemma_disabled_step_is_idle(v: PPUView, ir: u8)
    requires
        !v.enabled(),
    ensures
        v.spec_step(ir) == (v, ir, None::<PPUMode>),
{
}

/// While the display is off, entering a mode raises no interrupt.
pub proof fn lemma_no_interrupts_when_off(v: PPUView, mode: PPUMode, ir: u8)
    requires
        !v.enabled(),
    ensures
        v.spec_set_mode(mode, ir).1 == ir,
        v.spec_set_mode(mode, ir).2 is None,
{
}

/// Entering V-blank with the display on always requests the V-blank interrupt.
pub proof fn lemma_vblank_requests_interrupt(v: PPUView, ir: u8)
    requires
        v.enabled(),
    ensures
        v.spec_set_mode(PPUMode::VBlank, ir).1 & INT_VBLANK == INT_VBLANK,
{
    let (w, ir2) = PPUView { mode: PPUMode::VBlank, ..v }.spec_update_stat_irq(ir);
    assert((ir2 | 1u8) & 1u8 == 1u8) by (bit_vector);
}

/// A dot leaves the colour palettes as they are.
pub proof fn lemma_step_keeps_palettes(v: PPUView, ir: u8)
    ensures
        v.spec_step(ir).0.bg_color == v.bg_color,
        v.spec_step(ir).0.obj_color == v.obj_color,
{
    if v.enabled() {
        let (v0, ir0) = v.spec_update_lyc(ir);
        let v1 = PPUView { ran_cycles: (v0.ran_cycles + 1) as u64, ..v0 };
        lemma_lyc_keeps_palettes(v, ir);
        if v1.cycle == 0 {
            match v1.mode {
                PPUMode::HBlank => lemma_hblank_keeps_palettes(v1, ir0),
                PPUMode::VBlank => lemma_vblank_keeps_palettes(v1, ir0),
                PPUMode::OamScan => lemma_oam_scan_keeps_palettes(v1, ir0),
                PPUMode::Draw => lemma_draw_keeps_palettes(v1, ir0),
            }
        }
    }
}

proof fn lemma_lyc_keeps_palettes(v: PPUView, ir: u8)
    ensures
        v.spec_update_lyc(ir).0.bg_color == v.bg_color,
        v.spec_update_lyc(ir).0.obj_color == v.obj_color,
{
}

proof fn lemma_hblank_keeps_palettes(v: PPUView, ir: u8)
    ensures
        v.spec_end_hblank(ir).0.bg_color == v.bg_color,
        v.spec_end_hblank(ir).0.obj_color == v.obj_color,
{
}

proof fn lemma_vblank_keeps_palettes(v: PPUView, ir: u8)
    ensures
        v.spec_end_vblank_line(ir).0.bg_color == v.bg_color,
        v.spec_end_vblank_line(ir).0.obj_color == v.obj_color,
{
}

proof fn lemma_oam_scan_keeps_palettes(v: PPUView, ir: u8)
    ensures
        v.spec_end_oam_scan(ir).0.bg_color == v.bg_color,
        v.spec_end_oam_scan(ir).0.obj_color == v.obj_color,
{
    crate::ppu::renderer::lemma_start_scanline_keeps_palettes(PPUView { cycle: (v.cycle + 11) as u64, ..v });
}

proof fn lemma_draw_keeps_palettes(v: PPUView, ir: u8)
    ensures
        v.spec_draw_dot(ir).0.bg_color == v.bg_color,
        v.spec_draw_dot(ir).0.obj_color == v.obj_color,
{
    crate::ppu::renderer::lemma_step_fifo_keeps_palettes(v);
}

/// The STAT line is high when the current mode's source is enabled (STAT bit 3 in
/// H-blank, bit 4 in V-blank, bit 5 in OAM scan, bit 5 also on line 144) or when the
/// LY=LYC flag (bit 2) and its enable (bit 6) are both set; the STAT interrupt is
/// requested exactly when the line rises.
pub proof fn lemma_stat_interrupt_sources(v: PPUView, ir: u8)
    ensures
        ({
            let s = v.registers.stat.0;
            let line = (v.mode == PPUMode::HBlank && s & 0x08 != 0) || (v.mode == PPUMode::VBlank && s & 0x10 != 0)
                || (v.mode == PPUMode::OamScan && s & 0x20 != 0) || (s & 0x20 != 0 && v.registers.ly == 144) || (s
                & 0x04 != 0 && s & 0x40 != 0);
            &&& v.spec_update_stat_irq(ir).0.stat_irq == line
            &&& v.spec_update_stat_irq(ir).1 == if !v.stat_irq && line { ir | 0x02 } else { ir }
        }),
{
    let s = v.registers.stat.0;
    assert((s & 0x08 == 0x08) == (s & 0x08 != 0) && (s & 0x10 == 0x10) == (s & 0x10 != 0) && (s & 0x20 == 0x20) == (s
        & 0x20 != 0) && (s & 0x04 == 0x04) == (s & 0x04 != 0) && (s & 0x40 == 0x40) == (s & 0x40 != 0)) by (bit_vector);
}

/// With the display on, entering H-blank while STAT bit 3 is set and the STAT line is low
/// requests the STAT interrupt.
pub proof fn lemma_hblank_entry_requests_stat(v: PPUView, ir: u8)
    requires
        v.enabled(),
        !v.stat_irq,
        v.registers.stat.0 & 0x08 != 0,
    ensures
        v.spec_set_mode(PPUMode::HBlank, ir).1 & INT_LCD_STAT != 0,
        v.spec_set_mode(PPUMode::HBlank, ir).2 == Some(PPUMode::HBlank),
{
    let w = PPUView { mode: PPUMode::HBlank, ..v };
    lemma_stat_interrupt_sources(w, ir);
    assert((ir | 0x02u8) & 0x02u8 != 0) by (bit_vector);
}

} // verus!
