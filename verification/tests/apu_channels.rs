use gameboy::apu::channel::Channel;
use gameboy::apu::noise::Noise;
use gameboy::apu::square::Square;
use gameboy::apu::wave::{VolumeCode, Wave};

#[test]
fn square_frequency_registers() {
    let mut s = Square::default();
    s.write_nrx3(0x34);
    assert_eq!(s.read_nrx3(), 0x34);
    assert_eq!(s.frequency_timer.period, (2048 - 0x34) * 4);
    s.write_nrx4(0xC5);
    assert!(s.enabled());
    assert_eq!(s.frequency, 0x534);
    assert_eq!(s.read_nrx4(), 0xC5);
    assert_eq!(s.frequency_timer.period, (2048 - 0x534) * 4);
    s.write_nrx1(0x3F);
    assert_eq!(s.read_nrx1(), 63);
    assert_eq!(s.read_nrx0(), 0);
}

#[test]
fn square_length_expiry_disables() {
    let mut s = Square::default();
    s.write_nrx1(0x3E); // length 62: off after 64 - 62 clocks
    s.write_nrx4(0xC0); // trigger, length enabled
    assert!(s.enabled());
    s.tick_length_ctr();
    assert!(s.enabled());
    s.tick_length_ctr();
    assert!(!s.enabled());
}

#[test]
fn square_duty_and_sample() {
    let mut s = Square::sweeper();
    assert!(s.sweeper);
    s.volume_envelope.volume = 9;
    assert_eq!(s.sample(), 9);
    s.write_nrx3(0xFF);
    s.write_nrx4(0x87); // frequency 0x7FF: period 4
    for _ in 0..5 {
        s.tick();
    }
    assert_eq!(s.duty_cycle, 1);
    assert_eq!(s.sample(), 0);
    s.reset();
    assert!(!s.enabled());
    assert_eq!(s.frequency, 0);
}

#[test]
fn wave_registers() {
    let mut w = Wave::default();
    assert_eq!(w.read_nrx0(), 0);
    w.write_nrx0(0x80);
    assert_eq!(w.read_nrx0(), 0x80);
    w.write_nrx2(0x40);
    assert_eq!(w.volume_code, VolumeCode::Fifty);
    assert_eq!(w.read_nrx2(), 0x40);
    assert_eq!(w.volume_code.shift_amount(), 1);
    w.write_nrx2(0x20);
    assert_eq!(w.volume_code, VolumeCode::OneHundred);
    assert_eq!(VolumeCode::Zero.shift_amount(), 4);
    assert_eq!(VolumeCode::TwentyFive.shift_amount(), 2);
    w.write_nrx1(0);
    assert_eq!(w.read_nrx1(), 0);
    w.write_nrx3(0x10);
    w.write_nrx4(0x82);
    assert_eq!(w.frequency, 0x210);
    assert_eq!(w.frequency_timer.period, (2048 - 0x210) * 2);
    assert_eq!(w.read_nrx4(), 0x82);
    assert!(w.enabled());
    w.write_nrx0(0);
    assert!(!w.enabled());
}

#[test]
fn wave_samples_high_nibble_first() {
    let mut w = Wave::default();
    w.wave_ram[0] = 0xAB;
    w.wave_ram[31] = 0x5C;
    assert_eq!(w.sample_at(0), 0xA);
    assert_eq!(w.sample_at(1), 0xB);
    assert_eq!(w.sample_at(62), 0x5);
    assert_eq!(w.sample_at(63), 0xC);
    assert_eq!(Channel::sample(&w), 0);
}

#[test]
fn wave_position_advances_on_timer() {
    let mut w = Wave::default();
    w.write_nrx3(0xFF);
    w.write_nrx4(0x07); // period 2
    for _ in 0..3 {
        w.tick();
    }
    assert_eq!(w.position_counter, 1);
    w.reset();
    assert_eq!(w.position_counter, 0);
    assert_eq!(w.frequency, 0);
    assert!(!w.dac_power);
}

#[test]
fn noise_registers() {
    let mut n = Noise::new();
    assert_eq!(n.frequency_timer.period, 8);
    assert_eq!(n.read_nrx0(), 0xFF);
    n.write_nrx3(0x28);
    assert_eq!(n.lfsr.width, 6);
    assert_eq!(n.frequency_timer.period, 32);
    assert_eq!(n.read_nrx3(), 0x20);
    n.write_nrx3(0x21);
    assert_eq!(n.lfsr.width, 14);
    assert_eq!(n.frequency_timer.period, 64);
    assert_eq!(n.read_nrx3(), 0x29);
    n.write_nrx3(0x07);
    assert_eq!(n.frequency_timer.period, 112);
    n.write_nrx4(0x80);
    assert!(n.enabled());
    assert_eq!(n.length_counter.length, 64);
    assert_eq!(n.read_nrx4(), 0x80);
    n.write_nrx1(0x0A);
    assert_eq!(n.read_nrx1(), 10);
    n.write_nrx2(0x5A);
    assert_eq!(n.read_nrx2(), n.volume_envelope.read_byte());
}

#[test]
fn noise_sample_follows_lfsr() {
    let mut n = Noise::default();
    n.volume_envelope.volume = 7;
    n.lfsr.shift_register = 0x7FFE;
    assert_eq!(n.sample(), 7);
    n.lfsr.shift_register = 0x7FFF;
    assert_eq!(n.sample(), 0);
    n.reset();
    assert!(!n.enabled());
    assert_eq!(n.lfsr.shift_register, 0x7FFF);
}
