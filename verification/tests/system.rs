use gameboy::cgb::{CGBState, Speed};
use gameboy::controller::ControllerState;
use gameboy::io_registers::read_joyp;
use gameboy::memory_mapper::{read_region, write_region, Region};
use gameboy::ppu::VRAMBank;
use gameboy::state::{exec_stop, Mode, StopEffect, SPEED_SWITCH_DELAY};

#[test]
fn memory_map() {
    assert_eq!(write_region(0x0000), Region::CartridgeRom(0x0000));
    assert_eq!(write_region(0x7FFF), Region::CartridgeRom(0x7FFF));
    assert_eq!(write_region(0x8000), Region::VRam(0));
    assert_eq!(write_region(0x9FFF), Region::VRam(0x1FFF));
    assert_eq!(write_region(0xA123), Region::CartridgeRam(0xA123));
    assert_eq!(write_region(0xC010), Region::WorkRamLow(0x10));
    assert_eq!(write_region(0xD010), Region::WorkRamHigh(0x10));
    assert_eq!(write_region(0xFE9F), Region::Oam(0x9F));
    assert_eq!(write_region(0xFEA0), Region::Unusable);
    assert_eq!(write_region(0xFEFF), Region::Unusable);
    assert_eq!(write_region(0xFF40), Region::Io(0xFF40));
    assert_eq!(write_region(0xFF80), Region::HRam(0));
    assert_eq!(write_region(0xFFFE), Region::HRam(0x7E));
    assert_eq!(write_region(0xFFFF), Region::InterruptEnable);
}

#[test]
fn echo_ram_mirrors_work_ram() {
    assert_eq!(write_region(0xE010), Region::WorkRamLow(0x10));
    assert_eq!(write_region(0xF010), Region::WorkRamHigh(0x10));
    assert_eq!(write_region(0xFDFF), Region::WorkRamHigh(0xDFF));
    for a in 0xE000u16..0xFE00 {
        assert_eq!(write_region(a), write_region(a - 0x2000));
    }
}

#[test]
fn boot_rom_overlay() {
    assert_eq!(read_region(0x0000, true, false), Region::BootRom(0));
    assert_eq!(read_region(0x00FF, true, false), Region::BootRom(0xFF));
    assert_eq!(read_region(0x0100, true, false), Region::CartridgeRom(0x100));
    assert_eq!(read_region(0x0250, true, false), Region::CartridgeRom(0x250));
    assert_eq!(read_region(0x0250, true, true), Region::BootRom(0x250));
    assert_eq!(read_region(0x08FF, true, true), Region::BootRom(0x8FF));
    assert_eq!(read_region(0x0900, true, true), Region::CartridgeRom(0x900));
    assert_eq!(read_region(0x0150, true, true), Region::CartridgeRom(0x150));
    assert_eq!(read_region(0x0000, false, true), Region::CartridgeRom(0));
    assert_eq!(read_region(0xFF50, true, true), Region::Io(0xFF50));
}

#[test]
fn joypad_register() {
    assert_eq!(read_joyp(0x10, 0xA5), 0xC5);
    assert_eq!(read_joyp(0x20, 0xA5), 0xCA);
    assert_eq!(read_joyp(0x30, 0xA5), 0xC5);
    assert_eq!(read_joyp(0x00, 0xA5), 0xCF);
    let held = ControllerState { a: true, down: true, ..Default::default() };
    let raw = held.as_byte();
    assert_eq!(read_joyp(0x10, raw) & 0x0F, 0x0E);
    assert_eq!(read_joyp(0x20, raw) & 0x0F, 0x07);
}

#[test]
fn stop_with_joypad_line_halts() {
    let mut m = Mode::DMG;
    let e = exec_stop(&mut m, false, 0xCF);
    assert_eq!(e, StopEffect { reset_div: true, halt: true, skip_next_byte: false, speed_switch_delay: None });
    let e = exec_stop(&mut m, true, 0xC1);
    assert_eq!(e, StopEffect { reset_div: false, halt: false, skip_next_byte: false, speed_switch_delay: None });
}

#[test]
fn stop_performs_armed_speed_switch() {
    let mut s = CGBState::default();
    s.write_key1(1);
    let mut m = Mode::GBC(s);
    let e = exec_stop(&mut m, false, 0xC0);
    assert_eq!(
        e,
        StopEffect { reset_div: true, halt: false, skip_next_byte: true, speed_switch_delay: Some(SPEED_SWITCH_DELAY) }
    );
    assert_eq!(SPEED_SWITCH_DELAY, 128 * 1024 / 4);
    assert_eq!(m.get_speed(), Speed::Double);
    match m {
        Mode::GBC(state) => assert!(!state.prepare_speed_switch),
        Mode::DMG => panic!("model changed"),
    }
    // not armed any more: a plain STOP
    let e = exec_stop(&mut m, true, 0xC0);
    assert_eq!(e, StopEffect { reset_div: true, halt: false, skip_next_byte: false, speed_switch_delay: None });
    assert_eq!(m.get_speed(), Speed::Double);
}

#[test]
fn stop_with_joypad_line_keeps_switch_armed() {
    let mut s = CGBState::default();
    s.write_key1(1);
    let mut m = Mode::GBC(s);
    let e = exec_stop(&mut m, false, 0xCE);
    assert!(e.halt);
    assert_eq!(e.speed_switch_delay, None);
    assert_eq!(m.get_speed(), Speed::Normal);
    match m {
        Mode::GBC(state) => assert!(state.prepare_speed_switch),
        Mode::DMG => panic!("model changed"),
    }
}

#[test]
fn stop_on_monochrome_model() {
    let mut m = Mode::DMG;
    let e = exec_stop(&mut m, false, 0xC0);
    assert_eq!(e, StopEffect { reset_div: true, halt: false, skip_next_byte: true, speed_switch_delay: None });
    assert_eq!(m.get_speed(), Speed::Normal);
}

#[test]
fn vram_bank_by_model() {
    assert_eq!(Mode::DMG.get_vram_bank(), VRAMBank::Bank0);
    let mut s = CGBState::default();
    assert_eq!(Mode::GBC(s).get_vram_bank(), VRAMBank::Bank0);
    s.set_vram_bank(1);
    assert_eq!(Mode::GBC(s).get_vram_bank(), VRAMBank::Bank1);
}
