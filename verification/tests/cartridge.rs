use gameboy::cartridge::header::{CartridgeParseError, RawCartridgeHeader};
use gameboy::cartridge::memory_bank_controller::Mbc;
use gameboy::cartridge::Cartridge;
use gameboy::save_state::{load_save_state, RomSource};

/// A ROM image of `banks` banks; every byte of bank `b > 0` holds `b`.
fn image(banks: usize, cartridge_type: u8, rom_code: u8, ram_code: u8) -> Vec<u8> {
    let mut rom = vec![0u8; banks * 0x4000];
    for b in 1..banks {
        for i in 0..0x4000 {
            rom[b * 0x4000 + i] = b as u8;
        }
    }
    let title = b"TETRIS";
    rom[0x134..0x134 + title.len()].copy_from_slice(title);
    rom[0x147] = cartridge_type;
    rom[0x148] = rom_code;
    rom[0x149] = ram_code;
    rom[0x0100] = 0x3C;
    rom
}

fn load(rom: &[u8]) -> Cartridge {
    match Cartridge::try_new(rom, None) {
        Ok(c) => c,
        Err(e) => panic!("cartridge refused: {:?}", e),
    }
}

#[test]
fn short_image_is_refused() {
    let rom = vec![0u8; 0x14F];
    assert!(matches!(Cartridge::try_new(&rom, None), Err(CartridgeParseError::HeaderTooShort)));
    assert!(matches!(Cartridge::try_new(&[], None), Err(CartridgeParseError::HeaderTooShort)));
}

#[test]
fn undefined_rom_size_is_refused() {
    let rom = image(2, 0x00, 0x09, 0x00);
    assert!(matches!(Cartridge::try_new(&rom, None), Err(CartridgeParseError::RomSize)));
}

#[test]
fn undefined_ram_size_is_refused() {
    let rom = image(2, 0x00, 0x00, 0x06);
    assert!(matches!(Cartridge::try_new(&rom, None), Err(CartridgeParseError::RamSize)));
}

#[test]
fn truncated_rom_is_refused() {
    let mut rom = image(2, 0x00, 0x00, 0x00);
    rom.truncate(0x4000);
    assert!(matches!(Cartridge::try_new(&rom, None), Err(CartridgeParseError::RomTooShort)));
    let rom = image(2, 0x00, 0x01, 0x00);
    assert!(matches!(Cartridge::try_new(&rom, None), Err(CartridgeParseError::RomTooShort)));
}

#[test]
fn unknown_controller_is_refused() {
    let rom = image(2, 0x04, 0x00, 0x00);
    assert!(matches!(Cartridge::try_new(&rom, None), Err(CartridgeParseError::MBCType)));
    let rom = image(2, 0x21, 0x00, 0x00);
    assert!(matches!(Cartridge::try_new(&rom, None), Err(CartridgeParseError::MBCType)));
}

#[test]
fn header_is_read() {
    let mut rom = image(2, 0x00, 0x00, 0x00);
    rom[0x143] = 0x80;
    let source = RomSource::LocalUrl(String::from("roms/tetris.gb"));
    let c = match Cartridge::try_new(&rom, Some(source)) {
        Ok(c) => c,
        Err(e) => panic!("cartridge refused: {:?}", e),
    };
    assert_eq!(c.2.title, "TETRIS");
    assert!(c.2.cgb);
    assert_eq!(c.2.rom_banks, 2);
    assert_eq!(c.2.ram_banks, 0);
    assert!(matches!(c.2.rom_source, Some(RomSource::LocalUrl(ref s)) if s == "roms/tetris.gb"));
    assert!(matches!(c.1, Mbc::ROM));
    assert_eq!(c.0.rom_banks.len(), 2);
    assert_eq!(c.0.ram_banks.len(), 0);
}

#[test]
fn raw_header_fields() {
    let rom = image(4, 0x01, 0x01, 0x02);
    let h = RawCartridgeHeader::new(&rom, None);
    assert_eq!(h.len, 4 * 0x4000);
    assert_eq!(h.title, b"TETRIS".to_vec());
    assert_eq!(h.cartridge_type, 0x01);
    assert_eq!(h.rom_size, 0x01);
    assert_eq!(h.ram_size, 0x02);
    let info = match h.parse() {
        Ok(i) => i,
        Err(e) => panic!("header refused: {:?}", e),
    };
    assert_eq!(info.rom_banks, 4);
    assert_eq!(info.ram_banks, 1);
    assert!(!info.cgb);
    let short = RawCartridgeHeader::new(&rom[..0x140], None);
    assert_eq!(short.cartridge_type, 0);
    assert!(matches!(short.parse(), Err(CartridgeParseError::HeaderTooShort)));
}

#[test]
fn title_stops_at_first_zero_or_non_ascii() {
    let mut rom = image(2, 0x00, 0x00, 0x00);
    rom[0x136] = 0xC3;
    assert_eq!(load(&rom).2.title, "TE");
    let mut rom = image(2, 0x00, 0x00, 0x00);
    for i in 0x134..0x143 {
        rom[i] = b'A';
    }
    rom[0x143] = b'Z';
    assert_eq!(load(&rom).2.title, "AAAAAAAAAAAAAAA");
}

#[test]
fn bank_counts_follow_size_codes() {
    let c = load(&image(8, 0x19, 0x02, 0x03));
    assert_eq!(c.2.rom_banks, 8);
    assert_eq!(c.2.ram_banks, 4);
    assert_eq!(c.0.ram_banks.len(), 4);
    assert!(c.0.ram_banks.iter().all(|b| b.data.iter().all(|x| *x == 0)));
}

#[test]
fn rom_only_reads_both_banks() {
    let c = load(&image(2, 0x00, 0x00, 0x00));
    assert_eq!(c.read(0x0100), 0x3C);
    assert_eq!(c.read(0x4000), 1);
    assert_eq!(c.read(0x7FFF), 1);
    assert_eq!(c.read(0xA000), 0xFF);
}

#[test]
fn rom_only_ignores_writes() {
    let mut c = load(&image(2, 0x00, 0x00, 0x00));
    c.write(0x2000, 5);
    c.write(0x0100, 0);
    assert_eq!(c.read(0x0100), 0x3C);
    assert_eq!(c.read(0x4000), 1);
}

#[test]
fn mbc1_switches_rom_banks() {
    let mut c = load(&image(4, 0x01, 0x01, 0x00));
    assert_eq!(c.read(0x4000), 1);
    c.write(0x2000, 2);
    assert_eq!(c.read(0x4000), 2);
    c.write(0x2000, 3);
    assert_eq!(c.read(0x5000), 3);
    // bank 0 in the low bits selects bank 1
    c.write(0x2000, 0);
    assert_eq!(c.read(0x4000), 1);
    // the upper bits wrap round the banks that exist
    c.write(0x2000, 0x05);
    assert_eq!(c.read(0x4000), 1);
    assert_eq!(c.read(0x0000), 0);
}

#[test]
fn mbc1_ram_needs_enabling() {
    let mut c = load(&image(4, 0x03, 0x01, 0x02));
    assert_eq!(c.read(0xA000), 0xFF);
    c.write(0xA000, 0x42);
    assert_eq!(c.read(0xA000), 0xFF);
    c.write(0x0000, 0x0A);
    assert_eq!(c.read(0xA000), 0x00);
    c.write(0xA000, 0x42);
    c.write(0xBFFF, 0x17);
    assert_eq!(c.read(0xA000), 0x42);
    assert_eq!(c.read(0xBFFF), 0x17);
    c.write(0x0000, 0x00);
    assert_eq!(c.read(0xA000), 0xFF);
    c.write(0x0000, 0x1A);
    assert_eq!(c.read(0xA000), 0x42);
}

#[test]
fn mbc1_complex_mode_selects_ram_bank() {
    let mut c = load(&image(4, 0x03, 0x01, 0x03));
    c.write(0x0000, 0x0A);
    c.write(0xA010, 0x11);
    c.write(0x6000, 1);
    c.write(0x4000, 2);
    assert_eq!(c.read(0xA010), 0x00);
    c.write(0xA010, 0x22);
    c.write(0x6000, 0);
    assert_eq!(c.read(0xA010), 0x11);
    c.write(0x6000, 1);
    assert_eq!(c.read(0xA010), 0x22);
}

#[test]
fn mbc2_ram_keeps_half_bytes() {
    let mut c = load(&image(4, 0x06, 0x01, 0x00));
    assert_eq!(c.read(0xA000), 0xFF);
    c.write(0x0000, 0x0A);
    assert_eq!(c.read(0xA000), 0xF0);
    c.write(0xA005, 0x07);
    assert_eq!(c.read(0xA005), 0xF7);
    // the 512 half-bytes repeat through the RAM area
    assert_eq!(c.read(0xA205), 0xF7);
    c.write(0xA005, 0x3C);
    assert_eq!(c.read(0xA005), 0xFC);
}

#[test]
fn mbc2_rom_bank_register_uses_address_bit_8() {
    let mut c = load(&image(4, 0x05, 0x01, 0x00));
    c.write(0x2100, 3);
    assert_eq!(c.read(0x4000), 3);
    c.write(0x2100, 0);
    assert_eq!(c.read(0x4000), 1);
    // bit 8 clear: the RAM gate, not the bank
    c.write(0x2000, 2);
    assert_eq!(c.read(0x4000), 1);
}

#[test]
fn mbc3_banks_and_ram() {
    let mut c = load(&image(4, 0x13, 0x01, 0x03));
    assert_eq!(c.read(0x4000), 1);
    c.write(0x2000, 3);
    assert_eq!(c.read(0x4000), 3);
    c.write(0x2000, 0);
    assert_eq!(c.read(0x4000), 1);
    c.write(0x4000, 2);
    c.write(0xA100, 0x99);
    assert_eq!(c.read(0xA100), 0x99);
    c.write(0x4000, 1);
    assert_eq!(c.read(0xA100), 0x00);
    // a real-time clock register reads as zero
    c.write(0x4000, 0x08);
    assert_eq!(c.read(0xA100), 0);
}

#[test]
fn mbc5_nine_bit_rom_bank() {
    let mut c = load(&image(8, 0x19, 0x02, 0x02));
    assert_eq!(c.read(0x4000), 1);
    c.write(0x2000, 5);
    assert_eq!(c.read(0x4000), 5);
    c.write(0x2000, 0);
    assert_eq!(c.read(0x4000), 0);
    // bank 0x100 wraps to bank 0 on an eight-bank cartridge
    c.write(0x3000, 1);
    assert_eq!(c.read(0x4000), 0);
    c.write(0x2000, 7);
    assert_eq!(c.read(0x4000), 7);
    c.write(0x0000, 0x0A);
    c.write(0xB000, 0x55);
    assert_eq!(c.read(0xB000), 0x55);
}

#[test]
fn save_state_restores_rom_of_loaded_game() {
    let rom = image(4, 0x03, 0x01, 0x02);
    let current = load(&rom);
    let mut saved = load(&rom);
    saved.write(0x0000, 0x0A);
    saved.write(0xA000, 0x77);
    saved.write(0x2000, 3);
    saved.0.rom_banks.clear();
    saved.0.loaded = false;
    let restored = match load_save_state(&current, saved) {
        Some(c) => c,
        None => panic!("same game refused"),
    };
    assert!(restored.0.loaded);
    assert_eq!(restored.0.rom_banks.len(), 4);
    assert_eq!(restored.read(0x4000), 3);
    assert_eq!(restored.read(0xA000), 0x77);
    assert_eq!(restored.2.title, "TETRIS");
}

#[test]
fn save_state_of_another_game_is_refused() {
    let current = load(&image(2, 0x00, 0x00, 0x00));
    let mut other_rom = image(2, 0x00, 0x00, 0x00);
    other_rom[0x134] = b'Z';
    let other = load(&other_rom);
    assert!(load_save_state(&current, other).is_none());
}
