use gameboy::apu::frame_sequencer::{FrameSequencer, TickResult};
use gameboy::apu::length_counter::LengthCounter;
use gameboy::apu::lfsr::Lfsr;
use gameboy::apu::sweep::Sweep;
use gameboy::apu::timer::Timer;
use gameboy::apu::volume_envelope::{Direction, VolumeEnvelope};

#[test]
fn timer_fires_after_period_plus_one_ticks() {
    let mut t = Timer::new(3);
    let mut fired = vec![];
    for _ in 0..8 {
        fired.push(t.tick());
    }
    assert_eq!(fired, vec![false, false, false, true, false, false, false, true]);
    assert_eq!(t.get_period(), 3);
}

#[test]
fn timer_with_zero_period_never_fires() {
    let mut t = Timer::new(0);
    for _ in 0..10 {
        assert!(!t.tick());
    }
    t.set_period(1);
    assert!(!t.tick());
    assert!(t.tick());
}

#[test]
fn length_counter_expires_after_64_minus_length() {
    let mut c = LengthCounter::new(64);
    c.reload(60);
    assert_eq!(c.read_length(), 60);
    let mut n = 0;
    while !c.tick() {
        n += 1;
    }
    assert_eq!(n + 1, 4);
    // frozen until reloaded
    assert!(!c.tick());
    assert_eq!(c.read_length(), 0);
    c.reload(1);
    assert_eq!(c.read_length(), 1);
    assert!(!c.frozen);
}

#[test]
fn length_counter_disabled_does_nothing() {
    let mut c = LengthCounter::default();
    c.set_enabled(false);
    assert!(!c.enabled());
    c.reload(64);
    let before = c.read_length();
    assert!(!c.tick());
    assert_eq!(c.read_length(), before);
}

#[test]
fn frame_sequencer_eight_step_pattern() {
    let mut fs = FrameSequencer { value: 0 };
    let mut results = vec![];
    for _ in 0..8 {
        let predicted = fs.next_result();
        let r = fs.tick();
        assert_eq!(predicted, r);
        results.push(r);
    }
    assert_eq!(
        results,
        vec![
            TickResult::Nothing,
            TickResult::LengthCtrlAndSweep,
            TickResult::Nothing,
            TickResult::LengthCtrl,
            TickResult::Nothing,
            TickResult::LengthCtrlAndSweep,
            TickResult::VolumeEnv,
            TickResult::LengthCtrl,
        ]
    );
    assert_eq!(fs.current_result(), TickResult::LengthCtrl);
}

#[test]
fn frame_sequencer_wraps() {
    let mut fs = FrameSequencer { value: 255 };
    assert_eq!(fs.next_result(), TickResult::LengthCtrl);
    assert_eq!(fs.tick(), TickResult::LengthCtrl);
    assert_eq!(fs.value, 0);
}

#[test]
fn lfsr_feedback() {
    let mut l = Lfsr::default();
    assert_eq!(l.shift_register, 0x7FFF);
    assert!(!l.step());
    assert_eq!(l.shift_register, 0x3FFF);
    l.shift_register = 1;
    assert!(!l.step());
    assert_eq!(l.shift_register, 0x4000);
    l.shift_register = 2;
    assert!(l.step());
    assert_eq!(l.shift_register, 0x4001);
    l.width = 6;
    l.reset();
    assert_eq!(l.shift_register, 0x7FFF);
    assert_eq!(l.width, 6);
}

#[test]
fn sweep_register_round_trip() {
    let mut s = Sweep::default();
    s.write_byte(0x7F);
    assert_eq!(s.read_byte(), 0x7F);
    assert!(s.negate);
    assert_eq!(s.shift, 7);
    s.write_byte(0xFF);
    assert_eq!(s.read_byte(), 0x7F);
    s.write_byte(0x15);
    assert_eq!(s.read_byte(), 0x15);
}

#[test]
fn sweep_trigger_and_tick() {
    let mut s = Sweep::default();
    s.write_byte(0x11); // period 1, add, shift 1
    s.trigger(0x400);
    assert!(s.enabled);
    assert_eq!(s.shadow_frequency, 0x600);
    // first tick: the timer reloaded at 1 counts down
    assert_eq!(s.tick(), (false, None));
    // second tick fires: 0x600 + 0x300 = 0x900 > 2047
    assert_eq!(s.tick(), (true, None));
    s.write_byte(0x19); // negate
    s.trigger(0x400);
    assert_eq!(s.shadow_frequency, 0x200);
    assert_eq!(s.tick(), (false, None));
    assert_eq!(s.tick(), (false, Some(0x100)));
    assert_eq!(s.shadow_frequency, 0x100);
}

#[test]
fn sweep_disabled_without_shift_or_period() {
    let mut s = Sweep::default();
    s.write_byte(0x00);
    s.trigger(0x123);
    assert!(!s.enabled);
    assert_eq!(s.shadow_frequency, 0x123);
    assert_eq!(s.tick(), (false, None));
}

#[test]
fn volume_envelope_register_bits() {
    let mut e = VolumeEnvelope::default();
    e.write_byte(0xF3);
    assert_eq!(e.initial_volume, 3);
    assert_eq!(e.direction, Direction::Decrease);
    assert_eq!(e.read_byte(), 0x38);
    e.write_byte(0x0A);
    assert_eq!(e.direction, Direction::Increase);
    assert_eq!(e.read_byte(), 0xB1);
    assert_eq!(i8::from(Direction::Increase), 1);
    assert_eq!(i8::from(Direction::Decrease), -1);
}

#[test]
fn volume_envelope_steps_and_saturates() {
    let mut e = VolumeEnvelope::default();
    e.write_byte(0x09); // period 1, increase
    let mut seen = vec![];
    for _ in 0..40 {
        e.tick();
        seen.push(e.volume);
    }
    assert_eq!(seen[0], 1);
    assert_eq!(seen[1], 1);
    assert_eq!(seen[2], 2);
    assert_eq!(*seen.last().unwrap(), 15);
    assert!(seen.iter().all(|v| *v <= 15));
    e.write_byte(0x01); // decrease
    for _ in 0..40 {
        e.tick();
    }
    assert_eq!(e.volume, 0);
    e.reload();
    assert_eq!(e.timer.counter, 0);
}

#[test]
fn length_load_63_expires_on_first_clock() {
    let mut c = LengthCounter::new(64);
    c.reload(63);
    assert!(c.tick());
    c.reload(0);
    let mut n = 1;
    while !c.tick() {
        n += 1;
    }
    assert_eq!(n, 64);
}

#[test]
fn timer_fires_every_period_plus_one_ticks() {
    let mut t = Timer::new(2);
    let fired: Vec<u32> = (1..=12u32).filter(|_| t.tick()).collect();
    assert_eq!(fired, vec![3, 6, 9, 12]);
    assert_eq!(t.get_period(), 2);
    let mut z = Timer::new(0);
    assert!((0..10).all(|_| !z.tick()));
}
