use gameboy::apu::{print_addr, Apu};
use gameboy::cgb::Speed;

#[test]
fn powered_off_unit_ignores_writes() {
    let mut a = Apu::default();
    assert_eq!(a.read(0xFF26), 0x70);
    a.write(0xFF24, 0x55);
    assert_eq!(a.read(0xFF24), 0x00);
    a.write(0xFF30, 0x12);
    assert_eq!(a.read(0xFF30), 0x00);
}

#[test]
fn powered_on_registers_read_back() {
    let mut a = Apu::default();
    a.write(0xFF26, 0x80);
    assert_eq!(a.read(0xFF26), 0xF0);
    a.write(0xFF24, 0x77);
    assert_eq!(a.read(0xFF24), 0x77);
    a.write(0xFF25, 0xF3);
    assert_eq!(a.read(0xFF25), 0xF3);
    a.write(0xFF30, 0x12);
    a.write(0xFF3F, 0xEF);
    assert_eq!(a.read(0xFF30), 0x12);
    assert_eq!(a.read(0xFF3F), 0xEF);
    assert_eq!(a.read(0xFF10), 0x80);
    assert_eq!(a.read(0xFF11), 0x3F);
    assert_eq!(a.read(0xFF27), 0xFF);
    assert_eq!(a.read(0xFF1F), 0xFF);
    a.write(0xFF13, 0x34);
    assert_eq!(a.read(0xFF13), 0xFF);
    a.write(0xFF14, 0x80);
    assert_eq!(a.read(0xFF26), 0xF1);
    a.write(0xFF1A, 0x80);
    a.write(0xFF1E, 0x80);
    assert_eq!(a.read(0xFF26), 0xF5);
}

#[test]
fn power_off_resets_channels() {
    let mut a = Apu::default();
    a.write(0xFF26, 0x80);
    a.write(0xFF14, 0x80);
    a.write(0xFF24, 0x77);
    a.write(0xFF26, 0x00);
    assert_eq!(a.read(0xFF26), 0x70);
    a.write(0xFF26, 0x80);
    assert_eq!(a.read(0xFF24), 0);
    assert_eq!(a.read(0xFF26), 0xF0);
}

#[test]
fn frame_sequencer_clocked_on_div_falling_edge() {
    let mut a = Apu::default();
    a.write(0xFF26, 0x80);
    a.step_t_state(0x10, Speed::Normal);
    assert_eq!(a.frame_sequencer.value, 0);
    a.step_t_state(0x00, Speed::Normal);
    assert_eq!(a.frame_sequencer.value, 1);
    a.step_t_state(0x20, Speed::Double);
    a.step_t_state(0x10, Speed::Double);
    assert_eq!(a.frame_sequencer.value, 2);
    // off: only DIV is sampled
    a.write(0xFF26, 0x00);
    a.step_t_state(0x10, Speed::Normal);
    a.step_t_state(0x00, Speed::Normal);
    assert_eq!(a.frame_sequencer.value, 2);
    assert_eq!(a.prev_div, 0x00);
}

#[test]
fn register_names() {
    assert_eq!(print_addr(0xFF10), "nr10");
    assert_eq!(print_addr(0xFF15), "nr20");
    assert_eq!(print_addr(0xFF26), "nr52");
    assert_eq!(print_addr(0xFF30), format!("{:#X}", 0xFF30u16));
    assert_eq!(print_addr(0), "0x0");
    assert_eq!(print_addr(0xA), "0xA");
    assert_eq!(print_addr(0x1234), "0x1234");
}
