use gameboy::cartridge::header::CartridgeParseError;
use gameboy::cgb::{CGBState, Speed};
use gameboy::controller::ControllerState;
use gameboy::io_registers::IORegisters;
use gameboy::memory_mapper::Source;
use gameboy::ppu::{PPUMode, VRAMBank};
use gameboy::state::{Gameboy, Mode, INT_SERIAL};

fn dmg_boot_rom() -> Vec<u8> {
    (0..0x100u32).map(|i| (i % 251) as u8).collect()
}

fn cgb_boot_rom() -> Vec<u8> {
    (0..0x900u32).map(|i| (i % 7) as u8 + 0x40).collect()
}

fn cgb() -> Gameboy {
    Gameboy::cgb(dmg_boot_rom(), cgb_boot_rom())
}

fn dmg() -> Gameboy {
    Gameboy::dmg(dmg_boot_rom(), cgb_boot_rom())
}

fn rom_image(cartridge_type: u8, cgb_flag: u8) -> Vec<u8> {
    let mut rom = vec![0u8; 2 * 0x4000];
    for i in 0x4000..0x8000 {
        rom[i] = 0x11;
    }
    rom[0x134..0x138].copy_from_slice(b"GAME");
    rom[0x143] = cgb_flag;
    rom[0x147] = cartridge_type;
    rom[0x0150] = 0xAB;
    rom
}

#[test]
fn boot_rom_overlays_cartridge_until_disabled() {
    let mut g = dmg();
    g.load_rom(&rom_image(0x00, 0x00), None);
    assert_eq!(g.read(0x0005), 5);
    assert_eq!(g.read(0x0150), 0xAB);
    assert_eq!(g.read(0x4000), 0x11);
    g.write(0xFF50, 1);
    assert!(!g.booting);
    assert_eq!(g.read(0x0005), 0);
}

#[test]
fn no_cartridge_reads_ff() {
    let mut g = dmg();
    g.write(0xFF50, 1);
    assert_eq!(g.read(0x0000), 0xFF);
    assert_eq!(g.read(0xA000), 0xFF);
    g.write(0x2000, 3);
    assert_eq!(g.read(0x4000), 0xFF);
}

#[test]
fn load_rom_picks_model() {
    let mut g = dmg();
    g.load_rom(&rom_image(0x00, 0x80), None);
    assert!(matches!(g.mode, Mode::GBC(_)));
    assert!(g.cartridge_state.is_some());
    let mut h = cgb();
    h.load_rom(&rom_image(0x00, 0x00), None);
    assert!(matches!(h.mode, Mode::DMG));
    let mut bad = dmg();
    bad.load_rom(&rom_image(0x04, 0x00), None);
    assert!(bad.cartridge_state.is_none());
    assert!(matches!(
        gameboy::cartridge::Cartridge::try_new(&rom_image(0x04, 0x00), None),
        Err(CartridgeParseError::MBCType)
    ));
}

#[test]
fn ram_read_after_write() {
    let mut g = cgb();
    for (addr, value) in [(0x8000u16, 1u8), (0x9FFF, 2), (0xC000, 3), (0xCFFF, 4), (0xD000, 5), (0xFE00, 6), (0xFE9F, 7), (0xFF80, 8), (0xFFFE, 9)] {
        g.write(addr, value);
        assert_eq!(g.read(addr), value);
    }
    g.write(0xFFFF, 0xFF);
    assert_eq!(g.read(0xFFFF), 0x1F);
    g.write(0xFEA0, 0x12);
    assert_eq!(g.read(0xFEA0), 0xFF);
}

#[test]
fn echo_ram_and_banks() {
    let mut g = cgb();
    g.write(0xE010, 0x42);
    assert_eq!(g.read(0xC010), 0x42);
    g.write(0xD010, 0x01);
    g.write(0xFF70, 3);
    assert_eq!(g.get_wram_bank(), 3);
    assert_eq!(g.read(0xFF70), 3);
    assert_eq!(g.read(0xD010), 0x00);
    g.write(0xD010, 0x33);
    assert_eq!(g.read(0xF010), 0x33);
    g.write(0xFF70, 0);
    assert_eq!(g.get_wram_bank(), 1);
    assert_eq!(g.read(0xD010), 0x01);
    // VRAM banks
    g.write(0x8000, 0xAA);
    g.write(0xFF4F, 1);
    assert_eq!(g.read(0xFF4F), 1);
    assert_eq!(g.read(0x8000), 0x00);
    g.write(0x8000, 0xBB);
    g.write(0xFF4F, 0);
    assert_eq!(g.read(0x8000), 0xAA);
}

#[test]
fn monochrome_ignores_color_registers() {
    let mut g = dmg();
    assert_eq!(g.read(0xFF70), 0xFF);
    assert_eq!(g.read(0xFF4F), 0xFF);
    assert_eq!(g.read(0xFF4D), 0xFF);
    assert_eq!(g.read(0xFF68), 0xFF);
    g.write(0xFF68, 0x80);
    g.write(0xFF69, 0x12);
    assert_eq!(g.read(0xFF69), 0xFF);
    g.write(0xFF70, 3);
    assert_eq!(g.get_wram_bank(), 1);
}

#[test]
fn palette_ports_on_color_model() {
    let mut g = cgb();
    g.write(0xFF68, 0x80);
    g.write(0xFF69, 0xFF);
    g.write(0xFF69, 0x7F);
    assert_eq!(g.read(0xFF68), 0x82);
    g.write(0xFF68, 0x00);
    assert_eq!(g.read(0xFF69), 0xFF);
    g.write(0xFF68, 0x01);
    assert_eq!(g.read(0xFF69), 0x7F);
    assert_eq!(g.ppu.bg_color.get_color(0, 0), (255, 255, 255, 255));
    g.write(0xFF6A, 0x05);
    g.write(0xFF6B, 0x3C);
    assert_eq!(g.read(0xFF6B), 0x3C);
    assert_eq!(g.read(0xFF6A), 0x05);
}

#[test]
fn key1_routes_speed_switch() {
    let mut g = cgb();
    assert_eq!(g.read(0xFF4D), 0x00);
    g.write(0xFF4D, 1);
    assert_eq!(g.read(0xFF4D), 0x01);
    if let Mode::GBC(mut s) = g.mode {
        assert!(s.perform_speed_switch());
        g.mode = Mode::GBC(s);
    }
    assert_eq!(g.read(0xFF4D), 0x80);
    assert_eq!(g.mode.get_speed(), Speed::Double);
}

#[test]
fn ppu_registers_through_bus() {
    let mut g = cgb();
    for (addr, value) in [(0xFF42u16, 1u8), (0xFF43, 2), (0xFF45, 3), (0xFF47, 4), (0xFF48, 5), (0xFF49, 6), (0xFF4A, 7), (0xFF4B, 8)] {
        g.write(addr, value);
        assert_eq!(g.read(addr), value);
    }
    g.write(0xFF41, 0xFF);
    assert_eq!(g.read(0xFF41), 0x80);
    g.write(0xFF40, 0x91);
    assert_eq!(g.read(0xFF40), 0x91);
    assert_eq!(g.read(0xFF41), 0xFC);
    assert_eq!(g.ppu.mode(), PPUMode::HBlank);
    assert_eq!(g.read(0xFF44), 0);
}

#[test]
fn interrupt_registers_keep_five_bits() {
    let mut g = dmg();
    g.write(0xFF0F, 0xFF);
    assert_eq!(g.interrupt_request, 0x1F);
    assert_eq!(g.read(0xFF0F), 0xFF);
    g.write(0xFF0F, 0x01);
    assert_eq!(g.read(0xFF0F), 0xE1);
}

#[test]
fn serial_transfer_raises_interrupt() {
    let mut g = dmg();
    g.write(0xFF01, 0x42);
    assert_eq!(g.read(0xFF01), 0x42);
    g.write(0xFF02, 0x80);
    assert_eq!(g.read(0xFF02), 0);
    assert_eq!(g.interrupt_request & INT_SERIAL, 0);
    g.write(0xFF02, 0x81);
    assert_eq!(g.read(0xFF02), 0x01);
    assert_eq!(g.read(0xFF01), 0xFF);
    assert_eq!(g.interrupt_request & INT_SERIAL, INT_SERIAL);
}

#[test]
fn joypad_through_bus() {
    let mut g = dmg();
    let held = ControllerState { a: true, up: true, ..Default::default() };
    g.set_controller_state(&held);
    g.write(0xFF00, 0xFF);
    assert_eq!(g.io_register_state.index(0xFF00), 0x30);
    assert_eq!(g.read(0xFF00), 0xCE);
    g.write(0xFF00, 0x20);
    assert_eq!(g.read(0xFF00), 0xCB);
    g.write(0xFF00, 0x00);
    assert_eq!(g.read(0xFF00), 0xCF);
}

#[test]
fn hdma_request_and_copy() {
    let mut g = cgb();
    for i in 0..32u16 {
        g.write(0xC000 + i, i as u8 + 1);
    }
    g.write(0xFF51, 0xC0);
    g.write(0xFF52, 0x00);
    g.write(0xFF53, 0x00);
    g.write(0xFF54, 0x40);
    g.write(0xFF55, 0x01);
    assert_eq!(g.read(0xFF55), 0xFF);
    assert_eq!(g.dma_controller.get_source(), 0xC020);
    assert_eq!(g.dma_controller.get_destination(), 0x8060);
    for i in 0..32u16 {
        assert_eq!(g.read(0x8040 + i), i as u8 + 1);
    }
    assert_eq!(g.read(0x8060), 0);
}

#[test]
fn oam_dma_through_bus() {
    let mut g = cgb();
    for i in 0..160u16 {
        g.write(0xC100 + i, (i as u8) ^ 0x5A);
    }
    g.write(0xFF46, 0xC1);
    assert_eq!(g.read(0xFF46), 0xC1);
    for _ in 0..(2 + 160) {
        g.step_oam_dma();
    }
    for i in 0..160u16 {
        assert_eq!(g.read(0xFE00 + i), (i as u8) ^ 0x5A);
    }
    assert!(g.oam_dma.oam_is_accessible());
}

#[test]
fn interrupts_dispatch_lowest_first() {
    let mut g = dmg();
    assert!(!g.interrupt_pending());
    g.write(0xFF0F, 0x14);
    assert!(!g.interrupt_pending());
    g.write(0xFFFF, 0x1C);
    assert!(g.interrupt_pending());
    assert!(g.check_interrupt(0x04));
    assert!(!g.check_interrupt(0x01));
    assert_eq!(g.fetch_next_interrupt(), None);
    g.cpu_state.ime = true;
    assert_eq!(g.fetch_next_interrupt(), Some(0x04));
    assert_eq!(g.read(0xFF0F), 0xF0);
    assert_eq!(g.fetch_next_interrupt(), Some(0x10));
    assert_eq!(g.read(0xFF0F), 0xE0);
    assert_eq!(g.fetch_next_interrupt(), None);
    assert!(!g.interrupt_pending());
    g.write(0xFF0F, 0x03);
    g.write(0xFFFF, 0x1F);
    g.clear_request(0x01);
    assert_eq!(g.interrupt_request, 0x02);
}

#[test]
fn hblank_hdma_is_armed_not_copied() {
    let mut g = cgb();
    g.write(0xC000, 0x77);
    g.write(0xFF51, 0xC0);
    g.write(0xFF52, 0x00);
    g.write(0xFF53, 0x00);
    g.write(0xFF54, 0x00);
    g.write(0xFF55, 0x83);
    assert_eq!(g.read(0xFF55), 0x03);
    assert_eq!(g.read(0x8000), 0x00);
    // Bit 7 clear while armed pauses the transfer.
    g.write(0xFF55, 0x00);
    assert_eq!(g.read(0xFF55), 0x83);
    assert_eq!(g.read(0x8000), 0x00);
}

#[test]
fn hdma_from_power_on_registers() {
    // Source and destination start at 0: one row of the boot ROM goes to the
    // cartridge area, which without a cartridge takes nothing.
    let mut g = cgb();
    g.write(0xFF55, 0x00);
    assert_eq!(g.read(0xFF55), 0xFF);
    assert_eq!(g.dma_controller.get_source(), 0x0010);
    assert_eq!(g.dma_controller.get_destination(), 0x0010);
    assert_eq!(g.read(0x0003), 0x43);
}

#[test]
fn hdma_reads_bytes_it_has_written() {
    // Overlapping ranges: each byte is read after the bytes before it were written.
    let mut g = cgb();
    g.write(0xFF4F, 0);
    g.write(0x8000, 0x5A);
    g.write(0xFF51, 0x80);
    g.write(0xFF52, 0x00);
    g.write(0xFF53, 0x00);
    g.write(0xFF54, 0x10);
    g.write(0xFF55, 0x01);
    assert_eq!(g.read(0x8010), 0x5A);
    assert_eq!(g.read(0x8011), 0x00);
    assert_eq!(g.read(0x8020), 0x5A);
    g.write(0xFF51, 0x80);
    g.write(0xFF52, 0x00);
    g.write(0xFF53, 0x00);
    g.write(0xFF54, 0x00);
    g.write(0x8000, 0x11);
    g.write(0x8001, 0x22);
    g.write(0xFF55, 0x00);
    assert_eq!(g.read(0x8000), 0x11);
    assert_eq!(g.read(0x8001), 0x22);
}

#[test]
fn vbk_reads_work_ram_bank() {
    let mut g = cgb();
    g.write(0xFF70, 5);
    g.write(0xFF4F, 1);
    assert_eq!(g.get_vram_bank(), VRAMBank::Bank1);
    assert_eq!(g.read(0xFF4F), 5);
    assert_eq!(g.read(0xFF70), 5);
    let d = dmg();
    assert_eq!(d.read(0xFF4F), 0xFF);
    assert_eq!(d.get_vram_bank(), VRAMBank::Bank0);
}

#[test]
fn boot_rom_follows_model() {
    let mut g = dmg();
    assert_eq!(g.boot_rom, dmg_boot_rom());
    assert_eq!(g.read(0x0005), 5);
    g.load_rom(&rom_image(0x00, 0x80), None);
    assert_eq!(g.boot_rom, cgb_boot_rom());
    assert_eq!(g.read(0x0005), 0x45);
    assert_eq!(g.read(0x0200), 0x40 + (0x200 % 7) as u8);
    g.load_rom(&rom_image(0x00, 0x00), None);
    assert_eq!(g.boot_rom, dmg_boot_rom());
    let c = cgb();
    assert_eq!(c.boot_rom, cgb_boot_rom());
}

#[test]
fn debug_break_is_taken_once() {
    let mut g = dmg();
    assert!(!g.consume_debug_break());
    g.debug_break();
    assert!(g.consume_debug_break());
    assert!(!g.consume_debug_break());
}

#[test]
fn cpu_is_blocked_from_oam_and_vram() {
    let mut g = cgb();
    g.write(0xFE00, 0x12);
    g.write(0x8000, 0x34);
    assert_eq!(g.ppu.mode(), PPUMode::OamScan);
    assert_eq!(g.read_from(0xFE00, Source::Cpu), 0xFF);
    assert_eq!(g.read_from(0xFE00, Source::Raw), 0x12);
    assert_eq!(g.read_from(0x8000, Source::Cpu), 0x34);
    g.write_from(0xFE00, 0x99, Source::Cpu);
    assert_eq!(g.read(0xFE00), 0x12);
    g.write_from(0xFE00, 0x99, Source::Raw);
    assert_eq!(g.read(0xFE00), 0x99);
    g.write_from(0xFF80, 0x42, Source::Cpu);
    assert_eq!(g.read_from(0xFF80, Source::Cpu), 0x42);
}

#[test]
fn hblank_hdma_runs_one_row_per_hblank() {
    let mut g = cgb();
    for i in 0..32u16 {
        g.write(0xC000 + i, 0xA0 + i as u8);
    }
    g.write(0xFF51, 0xC0);
    g.write(0xFF52, 0x00);
    g.write(0xFF53, 0x01);
    g.write(0xFF54, 0x00);
    g.write(0xFF55, 0x81);
    g.write(0xFF40, 0x91);
    let mut dots = 0u64;
    while g.read(0xFF55) == 0x01 {
        g.tick_t_states(1);
        dots += 1;
        assert!(dots < 456 * 3);
    }
    assert_eq!(g.read(0xFF55), 0x00);
    assert_eq!(g.ppu.mode(), PPUMode::HBlank);
    assert_eq!(g.read(0x8100), 0xA0);
    assert_eq!(g.read(0x810F), 0xAF);
    assert_eq!(g.read(0x8110), 0x00);
    while g.read(0xFF55) != 0xFF {
        g.tick_t_states(1);
        dots += 1;
        assert!(dots < 456 * 4);
    }
    assert_eq!(g.read(0x811F), 0xBF);
    assert_eq!(g.t_states, dots);
}

#[test]
fn hblank_hdma_and_speed_switch_delay() {
    let armed = |delay: u32| {
        let mut g = cgb();
        g.write(0xC000, 0x66);
        g.write(0xFF51, 0xC0);
        g.write(0xFF52, 0x00);
        g.write(0xFF53, 0x01);
        g.write(0xFF54, 0x00);
        g.write(0xFF55, 0x80);
        g.write(0xFF40, 0x91);
        g.speed_switch_delay = delay;
        g.tick_t_states(456 * 3);
        assert_eq!(g.t_states, 456 * 3);
        g
    };
    // A pending delay does not hold the transfer back.
    let g = armed(5);
    assert_eq!(g.read(0xFF55), 0xFF);
    assert_eq!(g.read(0x8100), 0x66);
    // A delay of all ones does.
    let h = armed(u32::MAX);
    assert_eq!(h.read(0xFF55), 0x00);
    assert_eq!(h.read(0x8100), 0x00);
}

#[test]
fn requested_interrupt_reads_in_if() {
    let mut g = dmg();
    g.request_interrupt(0x04);
    g.request_interrupt(0x01);
    assert_eq!(g.read(0xFF0F), 0xE5);
    g.write(0xFFFF, 0x01);
    g.cpu_state.ime = true;
    assert_eq!(g.fetch_next_interrupt(), Some(0x01));
    assert_eq!(g.read(0xFF0F), 0xE4);
}
