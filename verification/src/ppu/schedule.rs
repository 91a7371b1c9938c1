use vstd::prelude::*;
use crate::ppu::{PPUView, PPUMode, FetcherMode, Registers, OAM_SCAN_CYCLES};
use crate::ppu::stat::Stat;
use crate::ppu::renderer::Pixel;

verus! {

/// Dots between the start of OAM scan and the first pixel: the scan, and the
/// fetcher's start-up delay.
pub const DRAW_START: u64 = 91;

impl PPUView {
    /// Where the mode machine stands in its line, as its own steps keep it: every
    /// visible mode is on a line below 144; OAM scan has run `79 - cycle` dots since
    /// the line began; drawing has queued background pixels and has sent one pixel
    /// per dot since the fetcher started. With the display off, LY is on screen.
    pub open spec fn on_schedule(self) -> bool {
        if !self.enabled() {
            self.ly() < 144
        } else {
            match self.mode {
                PPUMode::HBlank => self.ly() < 144,
                PPUMode::VBlank => true,
                PPUMode::OamScan => {
                    &&& self.ly() < 144
                    &&& self.cycle <= OAM_SCAN_CYCLES
                    &&& self.ran_cycles == self.scanline_cycle_start + (OAM_SCAN_CYCLES - self.cycle)
                },
                PPUMode::Draw => {
                    &&& self.ly() < 144
                    &&& self.cycle <= 11
                    &&& self.current_pixel < 160
                    &&& self.cycle > 0 ==> self.current_pixel == 0
                    &&& self.fifo_bg.len() >= 1
                    &&& self.ran_cycles == self.scanline_cycle_start + DRAW_START - self.cycle + self.current_pixel
                },
            }
        }
    }

    /// The dot and frame counters are below their limits.
    pub open spec fn counters_fit(self) -> bool {
        &&& self.ran_cycles < u64::MAX
        &&& self.frame < u64::MAX
        &&& self.lcd_frame < u64::MAX
    }
}

/// `b` is `a` with at most the sprite state, the colour and LCD memories, the
/// window counters and the fetch position changed: the mode, the counters, the
/// registers, the background queue and the column are the same.
pub open spec fn keeps_line(a: PPUView, b: PPUView) -> bool {
    &&& b.mode == a.mode
    &&& b.cycle == a.cycle
    &&& b.ran_cycles == a.ran_cycles
    &&& b.scanline_cycle_start == a.scanline_cycle_start
    &&& b.registers == a.registers
    &&& b.current_pixel == a.current_pixel
    &&& b.fifo_bg == a.fifo_bg
    &&& b.fetcher_mode == a.fetcher_mode
    &&& b.frame == a.frame
    &&& b.lcd_frame == a.lcd_frame
}

proof fn lemma_draw_sprite_keeps_line(v: PPUView, s: crate::ppu::sprite::Sprite)
    ensures
        keeps_line(v, v.spec_draw_sprite(s)),
{
}

proof fn lemma_sprite_fifo_keeps_line(v: PPUView)
    ensures
        keeps_line(v, v.spec_step_sprite_fifo()),
    decreases v.sprites.len(),
{
    if v.sprites.len() > 0 {
        let next = v.sprites.last();
        if next.x == crate::bits::wrap8(v.current_pixel + 8) {
            let w = PPUView { sprites: v.sprites.drop_last(), ..v }.spec_draw_sprite(next);
            lemma_sprite_fifo_keeps_line(w);
        }
    }
}

proof fn lemma_draw_due_keeps_line(v: PPUView, i: u8)
    ensures
        keeps_line(v, v.spec_draw_due(i)),
    decreases v.sprites.len(),
{
    if v.sprites.len() > 0 {
        let next = v.sprites.last();
        if next.x <= i {
            let w = PPUView { sprites: v.sprites.drop_last(), ..v }.spec_draw_sprite(next);
            lemma_draw_due_keeps_line(w, i);
        }
    }
}

proof fn lemma_sprite_columns_keeps_line(v: PPUView, i: u8)
    ensures
        keeps_line(v, v.spec_sprite_columns(i)),
    decreases 8 - i,
{
    if i < 8 {
        let w = v.spec_draw_due(i);
        lemma_draw_due_keeps_line(v, i);
        let fifo = if w.fifo_obj.len() > 0 { w.fifo_obj.drop_last() } else { w.fifo_obj };
        lemma_sprite_columns_keeps_line(PPUView { fifo_obj: fifo, ..w }, (i + 1) as u8);
    }
}

/// Fetching a tile row adds eight pixels to the background queue and moves nothing else
/// that the schedule reads.
proof fn lemma_populate(v: PPUView)
    ensures
        v.spec_populate().fifo_bg.len() == v.fifo_bg.len() + 8,
        v.spec_populate().mode == v.mode,
        v.spec_populate().cycle == v.cycle,
        v.spec_populate().ran_cycles == v.ran_cycles,
        v.spec_populate().scanline_cycle_start == v.scanline_cycle_start,
        v.spec_populate().registers == v.registers,
        v.spec_populate().current_pixel == v.current_pixel,
        v.spec_populate().fetcher_mode == v.fetcher_mode,
        v.spec_populate().frame == v.frame,
        v.spec_populate().lcd_frame == v.lcd_frame,
{
}

/// One drawing dot sends exactly one pixel: the column advances by one and pixels
/// stay queued.
proof fn lemma_draw_dot_sends_one_pixel(v: PPUView)
    requires
        v.fifo_bg.len() >= 1,
        v.current_pixel < 160,
        v.ly() < 144,
    ensures
        v.spec_step_fifo().current_pixel == v.current_pixel + 1,
        v.spec_step_fifo().fifo_bg.len() >= 1,
        v.spec_step_fifo().mode == v.mode,
        v.spec_step_fifo().cycle == v.cycle,
        v.spec_step_fifo().ran_cycles == v.ran_cycles,
        v.spec_step_fifo().scanline_cycle_start == v.scanline_cycle_start,
        v.spec_step_fifo().registers == v.registers,
        v.spec_step_fifo().frame == v.frame,
        v.spec_step_fifo().lcd_frame == v.lcd_frame,
        v.step_fifo_safe(),
{
    let v1 = if v.fetcher_mode == FetcherMode::Background && v.spec_in_window() {
        v.spec_start_window()
    } else {
        v
    };
    if v.fetcher_mode == FetcherMode::Background && v.spec_in_window() {
        let s = PPUView {
            fifo_bg: Seq::<Pixel>::empty(),
            fetcher_mode: FetcherMode::Window,
            current_tile: 0,
            window_line: crate::bits::wrap8(v.window_line + 1),
            ..v
        };
        lemma_populate(s);
    }
    lemma_sprite_fifo_keeps_line(v1);
    let b = v.before_push();
    assert(b.fifo_bg.len() >= 1);
    assert(b.current_pixel == v.current_pixel);
    let v3 = b.spec_push_pixel();
    assert(v3.current_pixel == v.current_pixel + 1);
    assert(v3.fifo_bg.len() == b.fifo_bg.len() - 1);
    if v3.fifo_bg.len() <= 8 {
        lemma_populate(v3);
    }
    assert(crate::lcd::GameboyLCD::in_frame(b.current_pixel, b.ly())) by (nonlinear_arith)
        requires
            b.current_pixel < 160,
            b.ly() < 144,
    ;
}

/// Starting a line queues at least one background pixel, from column 0, and keeps
/// the counters.
proof fn lemma_start_scanline(v: PPUView)
    ensures
        v.spec_start_scanline().fifo_bg.len() >= 1,
        v.spec_start_scanline().current_pixel == 0,
        v.spec_start_scanline().mode == v.mode,
        v.spec_start_scanline().cycle == v.cycle,
        v.spec_start_scanline().ran_cycles == v.ran_cycles,
        v.spec_start_scanline().scanline_cycle_start == v.scanline_cycle_start,
        v.spec_start_scanline().registers == v.registers,
        v.spec_start_scanline().frame == v.frame,
        v.spec_start_scanline().lcd_frame == v.lcd_frame,
{
    let v0 = PPUView {
        fetcher_mode: FetcherMode::Background,
        fifo_bg: Seq::empty(),
        current_pixel: 0,
        current_tile: v.registers.scx / 8,
        sprites: v.spec_fetch_scanline_sprites(),
        ..v
    };
    lemma_populate(v0);
    let v1 = v0.spec_populate();
    let n = (v.registers.scx % 8) as int;
    let v2 = PPUView { fifo_bg: v1.fifo_bg.subrange(n, v1.fifo_bg.len() as int), ..v1 };
    lemma_sprite_columns_keeps_line(v2, 0);
}

/// The picture unit never faults while it keeps its schedule: from a state on
/// schedule (and with the counters below their limits), a dot is safe to run and
/// leads to a state on schedule again.
pub proof fn lemma_step_on_schedule(v: PPUView, ir: u8)
    requires
        v.wf(),
        v.on_schedule(),
        v.counters_fit(),
    ensures
        v.step_safe(),
        v.spec_step(ir).0.on_schedule(),
{
    if v.enabled() {
        let v1 = v.counted();
        assert(v1.mode == v.mode && v1.cycle == v.cycle && v1.ly() == v.ly() && v1.enabled());
        assert(v1.current_pixel == v.current_pixel && v1.fifo_bg == v.fifo_bg);
        assert(v1.ran_cycles == v.ran_cycles + 1);
        assert(v.spec_update_lyc(ir).0 == v.spec_update_lyc(0).0);
        if v1.cycle == 0 {
            match v1.mode {
                PPUMode::Draw => {
                    lemma_draw_dot_sends_one_pixel(v1);
                },
                PPUMode::OamScan => {
                    let s = PPUView { cycle: (v1.cycle + 11) as u64, ..v1 };
                    lemma_start_scanline(s);
                },
                _ => {},
            }
        }
    }
}

/// The schedule holds from power-on: the display is off with LY at 0.
pub proof fn lemma_power_on_schedule(v: PPUView)
    requires
        !v.enabled(),
        v.ly() == 0,
    ensures
        v.on_schedule(),
{
}

/// Writing LCDC keeps the schedule: switching the display off puts LY back to 0,
/// switching it on starts in H-blank on the current (on-screen) line.
pub proof fn lemma_write_lcdc_on_schedule(v: PPUView, value: u8, ir: u8)
    requires
        v.on_schedule(),
    ensures
        v.spec_write_lcdc(value, ir).0.on_schedule(),
{
    assert((value & 0x80u8 == 0) == !(value & 0x80u8 == 0x80u8)) by (bit_vector);
}

/// Writing LYC or STAT keeps the schedule.
pub proof fn lemma_lyc_stat_writes_on_schedule(v: PPUView, value: u8)
    requires
        v.on_schedule(),
    ensures
        (PPUView { registers: Registers { lyc: value, ..v.registers }, ..v }).on_schedule(),
        (PPUView {
            registers: Registers { stat: Stat(value & !crate::ppu::stat::MODE_MASK), ..v.registers },
            ..v
        }).on_schedule(),
{
}

} // verus!
