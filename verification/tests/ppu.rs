use gameboy::ppu::color_ram::ColorRamController;
use gameboy::ppu::dmg_palette::DMGPalette;
use gameboy::ppu::lcdc::Lcdc;
use gameboy::ppu::renderer::{AddressingMode, Pixel, SpriteHeight};
use gameboy::ppu::sprite::Sprite;
use gameboy::ppu::stat::Stat;
use gameboy::ppu::tile_data::{TileAttributes, TileData};
use gameboy::ppu::{FetcherMode, PPUMode, VRAMBank, INT_LCD_STAT, INT_VBLANK, PPU};
use std::cmp::Ordering;

#[test]
fn mode_numbers() {
    assert_eq!(PPUMode::HBlank.number(), 0);
    assert_eq!(PPUMode::VBlank.number(), 1);
    assert_eq!(PPUMode::OamScan.number(), 2);
    assert_eq!(PPUMode::Draw.number(), 3);
}

#[test]
fn vram_bank_from_bit_zero() {
    assert_eq!(VRAMBank::from(0u8), VRAMBank::Bank0);
    assert_eq!(VRAMBank::from(1u8), VRAMBank::Bank1);
    assert_eq!(VRAMBank::from(0xFEu8), VRAMBank::Bank0);
    assert_eq!(VRAMBank::from(0x03u8), VRAMBank::Bank1);
}

#[test]
fn lcdc_flags() {
    let l = Lcdc(0x91);
    assert!(l.display_enabled());
    assert!(l.bg_enabled());
    assert!(!l.win_enabled());
    assert!(!l.obj_enable());
    assert_eq!(l.obj_size(), SpriteHeight::Single);
    assert_eq!(l.addressing_mode(), AddressingMode::Signed);
    assert_eq!(l.tile_map_offset(FetcherMode::Background), 0x1800);
    assert_eq!(l.tile_map_offset(FetcherMode::Window), 0x1800);
    let mut l = Lcdc::default();
    l.write(0x6F);
    assert_eq!(l.read(), 0x6F);
    assert!(l.win_enabled());
    assert!(l.obj_enable());
    assert_eq!(l.obj_size(), SpriteHeight::Double);
    assert_eq!(l.addressing_mode(), AddressingMode::Unsigned);
    assert_eq!(l.tile_map_offset(FetcherMode::Background), 0x1C00);
    assert_eq!(l.tile_map_offset(FetcherMode::Window), 0x1C00);
    assert!(!l.display_enabled());
}

#[test]
fn window_needs_background_bit_too() {
    assert!(!Lcdc(0x20).win_enabled());
    assert!(!Lcdc(0x01).win_enabled());
    assert!(Lcdc(0x21).win_enabled());
}

#[test]
fn stat_register() {
    let mut s = Stat::default();
    s.write(0xFF);
    assert_eq!(s.0, 0xFC);
    assert_eq!(s.read(true), 0xFC);
    assert_eq!(s.read(false), 0x80);
    assert!(s.int_enable(PPUMode::HBlank));
    assert!(s.int_enable(PPUMode::VBlank));
    assert!(s.int_enable(PPUMode::OamScan));
    assert!(!s.int_enable(PPUMode::Draw));
    assert!(s.lyc_eq_ly());
    assert!(s.lyc_eq_ly_ie());
    s.set_lyc_eq_ly(false);
    assert_eq!(s.0, 0xF8);
    assert!(!s.lyc_eq_ly());
    s.set_lyc_eq_ly(true);
    assert_eq!(s.0, 0xFC);
    let t = Stat(0x08);
    assert!(t.int_enable(PPUMode::HBlank));
    assert!(!t.int_enable(PPUMode::VBlank));
}

#[test]
fn tile_attributes() {
    let a = TileAttributes::new(0b1010_1101);
    assert!(a.bg_priority());
    assert!(!a.vertical_flip());
    assert!(a.horizontal_flip());
    assert_eq!(a.v_ram_bank(), VRAMBank::Bank1);
    assert_eq!(a.palette_number(), 5);
    let b = TileAttributes::new(0b0100_0010);
    assert!(!b.bg_priority());
    assert!(b.vertical_flip());
    assert!(!b.horizontal_flip());
    assert_eq!(b.v_ram_bank(), VRAMBank::Bank0);
    assert_eq!(b.palette_number(), 2);
}

#[test]
fn sprite_from_oam_bytes() {
    let s = Sprite::new(0xFE04, [16, 8, 3, 0x10]);
    assert_eq!(s.addr, 0xFE04);
    assert_eq!(s.y, 16);
    assert_eq!(s.x, 8);
    assert_eq!(s.tile_index, 3);
    assert!(s.pallet_address);
    // the flip and priority bits are stored inverted
    assert_eq!(s.tile_attributes.byte, 0xF0);
    let t = Sprite::new(0xFE08, [20, 30, 4, 0xE3]);
    assert!(!t.pallet_address);
    assert_eq!(t.tile_attributes.byte, 0x03);
    assert!(!t.tile_attributes.bg_priority());
    assert!(!t.tile_attributes.vertical_flip());
    assert!(!t.tile_attributes.horizontal_flip());
}

#[test]
fn sprites_compare_by_x_then_address() {
    let a = Sprite::new(0xFE00, [16, 8, 0, 0]);
    let b = Sprite::new(0xFE04, [16, 20, 0, 0]);
    let c = Sprite::new(0xFE08, [40, 8, 1, 0]);
    let a2 = Sprite::new(0xFE00, [99, 8, 7, 0xFF]);
    // a sprite further right orders first
    assert_eq!(a.partial_cmp(&b), Some(Ordering::Greater));
    assert_eq!(b.partial_cmp(&a), Some(Ordering::Less));
    assert_eq!(a.partial_cmp(&c), Some(Ordering::Greater));
    assert_eq!(c.partial_cmp(&a), Some(Ordering::Less));
    assert_eq!(a.partial_cmp(&a2), Some(Ordering::Equal));
    assert!(a == a2);
    assert!(a != c);
    assert!(b < a);
}

#[test]
fn dmg_palette_shades() {
    let p = DMGPalette::default();
    assert_eq!(p.color_of(0), (0xFF, 0xFF, 0xFF, 0xFF));
    assert_eq!(p.color_of(1), (0xAA, 0xAA, 0xAA, 0xFF));
    assert_eq!(p.color_of(2), (0x55, 0x55, 0x55, 0xFF));
    assert_eq!(p.color_of(3), (0x00, 0x00, 0x00, 0xFF));
}

#[test]
fn color_ram_index_register() {
    let mut c = ColorRamController::default();
    assert_eq!(c.read_spec(), 0x00);
    c.write_spec(0x80);
    assert_eq!(c.read_spec(), 0x80);
    c.write_spec(0xC5);
    assert_eq!(c.read_spec(), 0x85);
    c.write_spec(0x3F);
    assert_eq!(c.read_spec(), 0x3F);
}

#[test]
fn color_ram_write_updates_color() {
    let mut c = ColorRamController::default();
    assert_eq!(c.get_color(0, 0), (0, 0, 0, 255));
    c.write_spec(0x80);
    c.write_data(0xFF, PPUMode::HBlank);
    c.write_data(0x7F, PPUMode::HBlank);
    assert_eq!(c.read_spec(), 0x82);
    assert_eq!(c.data[0], 0x7FFF);
    assert_eq!(c.get_color(0, 0), (255, 255, 255, 255));
    // red only: 0x001F
    c.write_data(0x1F, PPUMode::VBlank);
    c.write_data(0x00, PPUMode::VBlank);
    assert_eq!(c.get_color(0, 1), (255, 0, 0, 255));
    // blue 0x10: 0x4000
    c.write_spec(0x3E | 0x80);
    c.write_data(0x00, PPUMode::OamScan);
    c.write_data(0x40, PPUMode::OamScan);
    assert_eq!(c.read_spec(), 0x80);
    assert_eq!(c.get_color(7, 3), (0, 0, 0x84, 255));
    let p = Pixel { color: 3, palette: 7, sprite_priority: 0, background_priority: false };
    assert_eq!(c.color_of(p), (0, 0, 0x84, 255));
}

#[test]
fn color_ram_reads_back_written_bytes() {
    let mut c = ColorRamController::default();
    c.write_spec(0x80);
    c.write_data(0x34, PPUMode::HBlank);
    c.write_data(0x12, PPUMode::HBlank);
    assert_eq!(c.data[0], 0x1234);
    c.write_spec(0);
    assert_eq!(c.read_data(), 0x34);
    c.write_spec(1);
    assert_eq!(c.read_data(), 0x12);
    // without auto-increment a byte reads back at its own index
    c.write_spec(0x07);
    c.write_data(0x99, PPUMode::VBlank);
    assert_eq!(c.read_data(), 0x99);
    assert_eq!(c.get_color(0, 3), (0, 0x42, 0x31, 255));
}

#[test]
fn color_ram_ignores_data_while_drawing() {
    let mut c = ColorRamController::default();
    c.write_spec(0x80);
    c.write_data(0xFF, PPUMode::Draw);
    assert_eq!(c.data[0], 0);
    assert_eq!(c.read_spec(), 0x81);
    // without auto-increment the index stays put
    c.write_spec(0x04);
    c.write_data(0xAB, PPUMode::HBlank);
    c.write_data(0xCD, PPUMode::HBlank);
    assert_eq!(c.read_spec(), 0x04);
    assert_eq!(c.data[2], 0x00CD);
}

#[test]
fn tile_row_colors_and_flip() {
    let mut p = PPU::default();
    p.v_ram_bank_0[0x10] = 0b1010_0000;
    p.v_ram_bank_0[0x11] = 0b1100_0000;
    let row = p.get_tile_row(TileData(0x10, None), 0, 40);
    let colors: Vec<u8> = row.iter().map(|px| px.color).collect();
    assert_eq!(colors, vec![3, 2, 1, 0, 0, 0, 0, 0]);
    assert!(row.iter().all(|px| px.palette == 0 && px.sprite_priority == 40 && !px.background_priority));
    let flipped = p.get_tile_row(TileData(0x10, Some(TileAttributes::new(0x20))), 8, 1);
    let colors: Vec<u8> = flipped.iter().map(|px| px.color).collect();
    assert_eq!(colors, vec![0, 0, 0, 0, 0, 1, 2, 3]);
    // vertical flip reads row 7 for row 0
    p.v_ram_bank_0[0x1E] = 0xFF;
    let v = p.get_tile_row(TileData(0x10, Some(TileAttributes::new(0x43))), 0, 2);
    assert!(v.iter().all(|px| px.color == 1 && px.palette == 3));
    // bank 1 through the attributes
    p.v_ram_bank_1[0x11] = 0xFF;
    let b = p.get_tile_row(TileData(0x10, Some(TileAttributes::new(0x08))), 0, 0);
    assert!(b.iter().all(|px| px.color == 2));
}

#[test]
fn tile_data_addressing() {
    let mut p = PPU::default();
    p.v_ram_bank_0[0x1800] = 2;
    p.v_ram_bank_1[0x1800] = 0x21;
    p.registers.lcdc = Lcdc(0x10);
    let TileData(addr, attributes) = p.get_tile_data(0x1800);
    assert_eq!(addr, 0x20);
    assert_eq!(attributes.map(|a| a.byte), Some(0x21));
    p.registers.lcdc = Lcdc(0x00);
    assert_eq!(p.get_tile_data(0x1800).0, 0x1020);
    p.v_ram_bank_0[0x1801] = 0x80;
    assert_eq!(p.get_tile_data(0x1801).0, 0x0800);
}

#[test]
fn ppu_power_on_state() {
    let p = PPU::default();
    assert_eq!(p.mode(), PPUMode::OamScan);
    assert_eq!(p.get_ly(), 0);
    assert!(!p.is_enabled());
    assert_eq!(p.read_lcdc(), 0);
    assert_eq!(p.read_stat(), 0x80);
    assert_eq!(p.window_line, 0xFF);
}

#[test]
fn disabled_ppu_does_not_step() {
    let mut p = PPU::default();
    let mut ir = 0u8;
    for _ in 0..1000 {
        assert_eq!(p.step(&mut ir), None);
    }
    assert_eq!(ir, 0);
    assert_eq!(p.ran_cycles, 0);
    assert_eq!(p.get_ly(), 0);
}

#[test]
fn enabling_display_starts_in_hblank() {
    let mut p = PPU::default();
    let mut ir = 0u8;
    p.write_lcdc(0x91, &mut ir);
    assert!(p.is_enabled());
    assert_eq!(p.mode(), PPUMode::HBlank);
    assert_eq!(p.read_lcdc(), 0x91);
    assert_eq!(p.read_stat(), 0x80);
    assert_eq!(ir, 0);
    // the first dot ends the H-blank and starts OAM scan of line 1
    assert_eq!(p.step(&mut ir), Some(PPUMode::OamScan));
    assert_eq!(p.get_ly(), 1);
    assert_eq!(p.read_stat() & 0x03, 2);
    for _ in 0..79 {
        assert_eq!(p.step(&mut ir), None);
    }
    assert_eq!(p.step(&mut ir), Some(PPUMode::Draw));
    assert_eq!(p.read_stat() & 0x03, 3);
}

#[test]
fn disabling_display_resets_ly() {
    let mut p = PPU::default();
    let mut ir = 0u8;
    p.write_lcdc(0x91, &mut ir);
    for _ in 0..2000 {
        p.step(&mut ir);
    }
    assert!(p.get_ly() > 0);
    p.write_lcdc(0x11, &mut ir);
    assert_eq!(p.get_ly(), 0);
    assert!(!p.is_enabled());
    assert_eq!(p.read_stat(), 0x80);
}

#[test]
fn a_frame_reaches_vblank() {
    let mut p = PPU::default();
    let mut ir = 0u8;
    p.write_lcdc(0x91, &mut ir);
    let mut steps = 0u32;
    let mut saw_hblank = 0u32;
    loop {
        steps += 1;
        assert!(steps < 70224, "no V-blank within a frame");
        match p.step(&mut ir) {
            Some(PPUMode::VBlank) => break,
            Some(PPUMode::HBlank) => saw_hblank += 1,
            _ => {}
        }
    }
    assert_eq!(p.get_ly(), 144);
    assert_eq!(ir & INT_VBLANK, INT_VBLANK);
    assert_eq!(saw_hblank, 143);
    assert_eq!(p.window_line, 255);
    // the frame ends after ten V-blank lines
    let frame = p.frame;
    loop {
        steps += 1;
        assert!(steps < 2 * 70224, "no new frame");
        if p.step(&mut ir) == Some(PPUMode::OamScan) {
            break;
        }
    }
    assert_eq!(p.frame, frame + 1);
    assert_eq!(p.get_ly(), 0);
}

#[test]
fn coincidence_raises_stat_interrupt() {
    let mut p = PPU::default();
    let mut ir = 0u8;
    p.write_stat(0x40, &mut ir);
    p.set_lyc(3, &mut ir);
    p.write_lcdc(0x80, &mut ir);
    let mut steps = 0;
    while p.get_ly() < 3 {
        p.step(&mut ir);
        steps += 1;
        assert!(steps < 5000);
    }
    assert_eq!(ir & INT_LCD_STAT, 0);
    p.step(&mut ir);
    assert_eq!(ir & INT_LCD_STAT, INT_LCD_STAT);
    assert_eq!(p.read_stat() & 0x04, 0x04);
}

#[test]
fn lines_last_456_dots() {
    let mut p = PPU::default();
    let mut ir = 0u8;
    p.write_lcdc(0x93, &mut ir);
    let mut scan_starts: Vec<u64> = Vec::new();
    let mut ly_changes: Vec<(u64, u8)> = Vec::new();
    let mut last_ly = p.get_ly();
    for n in 1..=70224u64 {
        if p.step(&mut ir) == Some(PPUMode::OamScan) {
            scan_starts.push(n);
        }
        if p.get_ly() != last_ly {
            last_ly = p.get_ly();
            ly_changes.push((n, last_ly));
        }
    }
    assert!(scan_starts.len() >= 143);
    for w in scan_starts.windows(2).take(142) {
        assert_eq!(w[1] - w[0], 456);
    }
    let vblank: Vec<&(u64, u8)> = ly_changes.iter().filter(|(_, ly)| *ly >= 144).collect();
    assert!(vblank.len() >= 9);
    for w in vblank.windows(2).take(8) {
        assert_eq!(w[1].0 - w[0].0, 456);
    }
}
