use gameboy::bits::{falling_edge, BIT_0, BIT_4, BIT_7};
use gameboy::cgb::{CGBState, Speed};
use gameboy::controller::ControllerState;
use gameboy::cpu::opcode::{parse_opcode, Opcode};
use gameboy::dma_controller::{DMAController, DMATransferRequest};
use gameboy::io_registers::{IORegisterState, DMA, LCDC, NR52, STAT};
use gameboy::lcd::{GameboyLCD, SyncMode, BUFFER_LEN};
use gameboy::memory_mapper::{is_accessible, Source};
use gameboy::oam_dma::OamDmaState;
use gameboy::ppu::{PPUMode, VRAMBank};
use gameboy::state::Mode;

#[test]
fn falling_edges() {
    assert!(falling_edge(0x10, 0x00, BIT_4));
    assert!(!falling_edge(0x00, 0x10, BIT_4));
    assert!(!falling_edge(0x10, 0x10, BIT_4));
    assert!(!falling_edge(0xEF, 0x00, BIT_4));
    assert!(falling_edge(0x81, 0x01, BIT_7));
}

#[test]
fn speed_toggles() {
    assert_eq!(Speed::Normal.not(), Speed::Double);
    assert_eq!(Speed::Double.not(), Speed::Normal);
    assert_eq!(Speed::default(), Speed::Normal);
}

#[test]
fn key1_speed_switch() {
    let mut s = CGBState::default();
    assert_eq!(s.read_key1(), 0x00);
    assert!(!s.perform_speed_switch());
    assert_eq!(s.current_speed(), Speed::Normal);
    s.write_key1(0x01);
    assert_eq!(s.read_key1(), 0x01);
    assert!(s.perform_speed_switch());
    assert_eq!(s.current_speed(), Speed::Double);
    assert_eq!(s.read_key1(), 0x80);
    assert!(!s.perform_speed_switch());
    s.write_key1(0xFF);
    assert_eq!(s.read_key1(), 0x81);
    assert!(s.perform_speed_switch());
    assert_eq!(s.current_speed(), Speed::Normal);
    assert_eq!(s.read_key1(), 0x00);
    s.write_key1(0xFE);
    assert_eq!(s.read_key1(), 0x00);
}

#[test]
fn vram_bank_select() {
    let mut s = CGBState::default();
    assert_eq!(s.get_vram_bank(), VRAMBank::Bank0);
    assert_eq!(s.wram_bank, 1);
    s.set_vram_bank(0xFF);
    assert_eq!(s.get_vram_bank(), VRAMBank::Bank1);
    s.set_vram_bank(0x02);
    assert_eq!(s.get_vram_bank(), VRAMBank::Bank0);
}

#[test]
fn mode_speed() {
    assert_eq!(Mode::DMG.get_speed(), Speed::Normal);
    let mut s = CGBState::default();
    s.write_key1(1);
    s.perform_speed_switch();
    assert_eq!(Mode::GBC(s).get_speed(), Speed::Double);
    assert_eq!(Mode::GBC(CGBState::default()).get_speed(), Speed::Normal);
}

#[test]
fn joypad_byte_is_active_low() {
    let none = ControllerState::default();
    assert_eq!(none.as_byte(), 0xFF);
    let a = ControllerState { a: true, ..Default::default() };
    assert_eq!(a.as_byte(), 0xFE);
    let down_start = ControllerState { down: true, start: true, ..Default::default() };
    assert_eq!(down_start.as_byte(), 0x77);
    let all = ControllerState {
        a: true,
        b: true,
        select: true,
        start: true,
        right: true,
        left: true,
        up: true,
        down: true,
    };
    assert_eq!(all.as_byte(), 0x00);
}

#[test]
fn merged_inputs() {
    let mut x = ControllerState { a: true, left: true, ..Default::default() };
    let y = ControllerState { b: true, left: true, ..Default::default() };
    let expected = x.as_byte() & y.as_byte();
    x.bitor_assign(y);
    assert!(x.a && x.b && x.left && !x.right && !x.up);
    assert_eq!(x.as_byte(), expected);
    assert_eq!(x.as_byte(), 0xDC);
}

#[test]
fn opcode_fields() {
    assert_eq!(parse_opcode(0xCB), Opcode(3, 3, 1, 0, 1));
    assert_eq!(parse_opcode(0x00), Opcode(0, 0, 0, 0, 0));
    assert_eq!(parse_opcode(0xFF), Opcode(3, 7, 7, 3, 1));
    // LD B, C = 0x41: x=1 y=0 z=1
    assert_eq!(parse_opcode(0x41), Opcode(1, 1, 0, 0, 0));
    // JR NZ = 0x20: x=0 y=4 z=0 p=2 q=0
    assert_eq!(parse_opcode(0x20), Opcode(0, 0, 4, 2, 0));
}

#[test]
fn hdma_registers() {
    let mut d = DMAController::default();
    assert_eq!(d.read_hdma5(), 0xFF);
    d.write_source_high(0x12);
    d.write_source_low(0x3F);
    assert_eq!(d.get_source(), 0x1230);
    d.write_destination_high(0xE1);
    d.write_destination_low(0x5A);
    assert_eq!(d.get_destination(), 0x8150);
}

#[test]
fn general_purpose_transfer() {
    let mut d = DMAController::default();
    d.write_source_high(0x12);
    d.write_source_low(0x30);
    d.write_destination_high(0x01);
    d.write_destination_low(0x50);
    let r = d.write_hdma5(0x01);
    assert_eq!(r, Some(DMATransferRequest { from: 0x1230, to: 0x8150, rows: 2 }));
    assert_eq!(d.read_hdma5(), 0xFF);
    assert_eq!(d.get_source(), 0x1250);
    assert_eq!(d.get_destination(), 0x8170);
    assert_eq!(d.step(), None);
}

#[test]
fn hblank_transfer_row_by_row() {
    let mut d = DMAController::default();
    d.write_source_high(0xC0);
    d.write_source_low(0x00);
    d.write_destination_high(0x00);
    d.write_destination_low(0x00);
    assert_eq!(d.write_hdma5(0x82), None);
    assert_eq!(d.read_hdma5(), 0x02);
    assert_eq!(d.step(), Some(DMATransferRequest { from: 0xC000, to: 0x8000, rows: 1 }));
    assert_eq!(d.read_hdma5(), 0x01);
    assert_eq!(d.step(), Some(DMATransferRequest { from: 0xC010, to: 0x8010, rows: 1 }));
    assert_eq!(d.step(), Some(DMATransferRequest { from: 0xC020, to: 0x8020, rows: 1 }));
    assert_eq!(d.read_hdma5(), 0xFF);
    assert_eq!(d.step(), None);
}

#[test]
fn hblank_transfer_can_be_paused() {
    let mut d = DMAController::default();
    d.write_source_high(0xC0);
    d.write_destination_high(0x00);
    assert_eq!(d.write_hdma5(0x85), None);
    assert!(d.step().is_some());
    assert_eq!(d.write_hdma5(0x00), None);
    assert_eq!(d.read_hdma5(), 0x84);
    assert_eq!(d.step(), None);
}

#[test]
fn oam_dma_copies_after_delay() {
    let mut s = OamDmaState::default();
    assert!(s.oam_is_accessible());
    s.start_oam_dma(0xC1);
    assert_eq!(s.dma_addr, 0xC100);
    assert_eq!(s.step(), None);
    assert!(s.oam_is_accessible());
    assert_eq!(s.step(), None);
    assert!(!s.oam_is_accessible());
    for i in 0..160u16 {
        assert!(!s.oam_is_accessible());
        assert_eq!(s.step(), Some((0xC100 + i, i)));
    }
    assert!(s.oam_is_accessible());
    assert_eq!(s.step(), None);
}

#[test]
fn oam_dma_mirrors_high_pages() {
    let mut s = OamDmaState::default();
    s.start_oam_dma(0xFE);
    assert_eq!(s.dma_addr, 0xDE00);
    s.start_oam_dma(0xDF);
    assert_eq!(s.dma_addr, 0xDF00);
    s.start_oam_dma(0xE0);
    assert_eq!(s.dma_addr, 0xC000);
}

#[test]
fn io_register_storage() {
    let mut io = IORegisterState::default();
    assert_eq!(io.index(LCDC), 0);
    io.set(LCDC, 0x91);
    io.set(STAT, 0x45);
    assert_eq!(io.index(LCDC), 0x91);
    assert_eq!(io.index(STAT), 0x45);
    assert_eq!(io.index(NR52), 0);
    io.set(0xFF7F, 9);
    assert_eq!(io.index(0xFF7F), 9);
    assert_eq!(io.index(0xFF00), 0);
}

#[test]
fn cpu_access_blocking() {
    assert!(!is_accessible(true, PPUMode::Draw, 0x8000, Source::Cpu));
    assert!(is_accessible(true, PPUMode::Draw, 0x8000, Source::Raw));
    assert!(is_accessible(true, PPUMode::HBlank, 0x9FFF, Source::Cpu));
    assert!(!is_accessible(true, PPUMode::OamScan, 0xFE00, Source::Cpu));
    assert!(!is_accessible(true, PPUMode::Draw, 0xFE9F, Source::Cpu));
    assert!(is_accessible(true, PPUMode::HBlank, 0xFE00, Source::Cpu));
    assert!(is_accessible(true, PPUMode::VBlank, 0xFE9F, Source::Cpu));
    assert!(!is_accessible(false, PPUMode::VBlank, 0xFE10, Source::Cpu));
    assert!(is_accessible(false, PPUMode::VBlank, 0xFEA0, Source::Cpu));
    assert!(is_accessible(false, PPUMode::Draw, DMA, Source::Cpu));
    assert!(is_accessible(false, PPUMode::Draw, 0xFF80, Source::Cpu));
    assert!(is_accessible(false, PPUMode::Draw, 0xC000, Source::Cpu));
    assert!(is_accessible(false, PPUMode::Draw, 0xFFFF, Source::Cpu));
}

#[test]
fn lcd_pixels_and_buffers() {
    let mut lcd = GameboyLCD::default();
    assert_eq!(lcd.size(), (160, 144));
    assert_eq!(lcd.buffer_back.len(), BUFFER_LEN);
    assert!(lcd.front_buffer().iter().all(|b| *b == 100));
    lcd.put_pixel(1, 2, (10, 20, 30, 40));
    let off = (2 * 160 + 1) * 4;
    assert_eq!(&lcd.buffer_back[off..off + 4], &[10, 20, 30, 40]);
    // immediate mode shows the buffer being drawn
    assert_eq!(lcd.sync_mode, SyncMode::Immediate);
    assert_eq!(&lcd.front_buffer()[off..off + 4], &[10, 20, 30, 40]);
    lcd.swap_buffers();
    assert_eq!(lcd.frame, 1);
    assert_eq!(&lcd.front_buffer()[off..off + 4], &[10, 20, 30, 40]);
    lcd.put_pixel(159, 143, (1, 2, 3, 4));
    assert_eq!(&lcd.buffer_back[BUFFER_LEN - 4..], &[1, 2, 3, 4]);
}

#[test]
fn lcd_double_buffering() {
    let mut lcd = GameboyLCD::default();
    lcd.sync_mode = SyncMode::DoubleBuffered;
    lcd.put_pixel(0, 0, (9, 9, 9, 9));
    assert_eq!(&lcd.front_buffer()[0..4], &[100, 100, 100, 100]);
    lcd.swap_buffers();
    assert_eq!(&lcd.front_buffer()[0..4], &[9, 9, 9, 9]);
    assert_eq!(&lcd.buffer_back[0..4], &[100, 100, 100, 100]);
    assert_eq!(lcd.frame, 1);
}

#[test]
fn bit_constants() {
    assert_eq!(BIT_0, 1);
    assert_eq!(BIT_4, 0x10);
    assert_eq!(BIT_7, 0x80);
}
