use vstd::prelude::*;
use crate::bits::{wrap8, lemma_u8_facts};
use crate::lcd::{GameboyLCD, pixel_offset, with_pixel};
use crate::ppu::{PPU, PPUView, FetcherMode, VRAMBank};
use crate::ppu::lcdc::{BG_AND_WINDOW_TILE_DATA_SELECT, BG_DISPLAY_ENABLE, OBJ_DISPLAY_ENABLE, OBJ_SIZE, WINDOW_DISPLAY_ENABLE};
use crate::ppu::sprite::Sprite;
use crate::ppu::tile_data::{TileAttributes, TileData};
use crate::bits::{BIT_4, BIT_5, BIT_6, BIT_7};

verus! {

/// One pixel in a pixel FIFO.
#[derive(Clone, Copy, Debug, PartialEq, Eq, Structural)]
pub struct Pixel {
    /// 0..=3
    pub color: u8,
    /// 0..=7 on CGB; on DMG only sprites use it.
    pub palette: u8,
    /// On CGB the OAM index of the sprite the pixel came from.
    pub sprite_priority: usize,
    /// The OBJ-to-BG priority bit.
    pub background_priority: bool,
}

impl Pixel {
    /// A transparent pixel with the lowest possible priority, used to pad the sprite FIFO.
    pub fn transparent() -> (p: Self)
        ensures
            p == (Pixel { color: 0, palette: 0, sprite_priority: 40, background_priority: false }),
    {
        Self { color: 0, palette: 0, sprite_priority: 40, background_priority: false }
    }
}

/// A pixel that the palettes can look up: colour 0..=3, palette 0..=7.
pub open spec fn pixel_valid(p: Pixel) -> bool {
    p.color < 4 && p.palette < 8
}

pub open spec fn pixels_valid(s: Seq<Pixel>) -> bool {
    forall|i: int| 0 <= i < s.len() ==> #[trigger] pixel_valid(s[i])
}

/// How background tile numbers address tile data (LCDC bit 4).
#[derive(Clone, Copy, Debug, PartialEq, Eq, Structural)]
pub enum AddressingMode {
    Signed,
    Unsigned,
}

/// Sprite height (LCDC bit 2).
#[derive(Clone, Copy, Debug, PartialEq, Eq, Structural)]
pub enum SpriteHeight {
    Double,
    Single,
}

/// Colour of the pixel at `bit` of a tile row: bit `bit` of the high byte above bit
/// `bit` of the low byte.
pub open spec fn tile_pixel_color(low: u8, high: u8, bit: u8) -> u8 {
    (((high >> bit) & 1u8) << 1u8) | ((low >> bit) & 1u8)
}

pub open spec fn transparent_pixel() -> Pixel {
    Pixel { color: 0, palette: 0, sprite_priority: 40, background_priority: false }
}

/// A sprite FIFO padded at the front with transparent pixels up to eight.
pub open spec fn padded(s: Seq<Pixel>) -> Seq<Pixel> {
    if s.len() < 8 {
        Seq::new((8 - s.len()) as nat, |i: int| transparent_pixel()) + s
    } else {
        s
    }
}

/// Which of a new sprite pixel and the one already queued is kept: the new one if it is
/// opaque and of higher priority, or if the queued one is transparent.
pub open spec fn mixed(new: Pixel, old: Pixel) -> Pixel {
    if (new.color != 0 && new.sprite_priority < old.sprite_priority) || old.color == 0 {
        new
    } else {
        old
    }
}

/// The OAM entry `k` decoded as the sprite with address `addr`.
pub open spec fn sprite_of(oam: Seq<u8>, k: int, addr: u16) -> Sprite {
    let a = oam[4 * k + 3];
    Sprite {
        addr,
        y: oam[4 * k],
        x: oam[4 * k + 1],
        tile_index: oam[4 * k + 2],
        tile_attributes: TileAttributes { byte: a ^ 0b11100000 },
        pallet_address: a & BIT_4 == BIT_4,
    }
}

/// The index at which `x` goes in a list ordered by decreasing x, after the sprites
/// with the same x: the first whose x is smaller.
pub open spec fn insertion_point(s: Seq<Sprite>, x: u8) -> int
    decreases s.len(),
{
    if s.len() == 0 {
        0
    } else if s[0].x < x {
        0
    } else {
        1 + insertion_point(s.drop_first(), x)
    }
}

/// `s` sorted by decreasing x, sprites with the same x kept in their order (a stable sort).
pub open spec fn sorted_by_x_desc(s: Seq<Sprite>) -> Seq<Sprite>
    decreases s.len(),
{
    if s.len() == 0 {
        s
    } else {
        let rest = sorted_by_x_desc(s.drop_last());
        rest.insert(insertion_point(rest, s.last().x), s.last())
    }
}

impl PPUView {
    pub open spec fn spec_tile_row(self, td: TileData, row: u8, prio: usize) -> Seq<Pixel> {
        let row0 = (row % 8) as u8;
        let r: u8 = match td.1 {
            Some(a) => if a.byte & BIT_6 == BIT_6 { (7 - row0) as u8 } else { row0 },
            None => row0,
        };
        let hflip = match td.1 {
            Some(a) => a.byte & BIT_5 == BIT_5,
            None => false,
        };
        let bgp = match td.1 {
            Some(a) => a.byte & BIT_7 == BIT_7,
            None => false,
        };
        let pal: u8 = match td.1 {
            Some(a) => a.byte & 0b111,
            None => 0,
        };
        let bank = match td.1 {
            Some(a) => VRAMBank::spec_from((a.byte >> 3u8) & 1),
            None => VRAMBank::Bank0,
        };
        let ram = if bank == VRAMBank::Bank0 { self.vram0 } else { self.vram1 };
        let low = ram[td.0 + r * 2];
        let high = ram[td.0 + r * 2 + 1];
        Seq::new(
            8,
            |i: int|
                Pixel {
                    color: tile_pixel_color(low, high, if hflip { i as u8 } else { (7 - i) as u8 }),
                    palette: pal,
                    sprite_priority: prio,
                    background_priority: bgp,
                },
        )
    }

    pub open spec fn spec_tile_data(self, tile_index: u16) -> TileData {
        let d = self.vram0[tile_index as int];
        let a = self.vram1[tile_index as int];
        let index: u16 = if self.registers.lcdc.has(BG_AND_WINDOW_TILE_DATA_SELECT) {
            (16 * d) as u16
        } else {
            (0x1000 + 16 * (d as i8)) as u16
        };
        TileData(index, Some(TileAttributes { byte: a }))
    }

    pub open spec fn spec_populate(self) -> PPUView {
        let tile_y: u8 = match self.fetcher_mode {
            FetcherMode::Background => wrap8(self.ly() + self.registers.scy) >> 3u8,
            FetcherMode::Window => self.window_line >> 3u8,
        };
        let tile_x = self.current_tile;
        let map_index = (tile_x + tile_y * 32 + self.registers.lcdc.spec_tile_map_offset(self.fetcher_mode)) as u16;
        let tile_row = (wrap8(self.ly() + self.registers.scy) % 8) as u8;
        let pixels = self.spec_tile_row(self.spec_tile_data(map_index), tile_row, 0);
        PPUView { current_tile: (wrap8(tile_x + 1) % 32) as u8, fifo_bg: self.fifo_bg + pixels, ..self }
    }

    pub open spec fn spec_push_sprite_pixels(self, px: Seq<Pixel>) -> PPUView {
        let p = padded(self.fifo_obj);
        PPUView { fifo_obj: Seq::new(p.len(), |i: int| if i < 8 { mixed(px[i], p[i]) } else { p[i] }), ..self }
    }

    /// The screen position has reached the window.
    pub open spec fn spec_in_window(self) -> bool {
        &&& self.registers.lcdc.has(WINDOW_DISPLAY_ENABLE | BG_DISPLAY_ENABLE)
        &&& self.current_pixel + 7 >= self.registers.wx
        &&& self.ly() >= self.registers.wy
    }

    pub open spec fn spec_start_window(self) -> PPUView {
        PPUView {
            fifo_bg: Seq::empty(),
            fetcher_mode: FetcherMode::Window,
            current_tile: 0,
            window_line: wrap8(self.window_line + 1),
            ..self
        }.spec_populate()
    }

    pub open spec fn spec_draw_sprite(self, s: Sprite) -> PPUView {
        if !self.registers.lcdc.has(OBJ_DISPLAY_ENABLE) {
            self
        } else {
            let local_y = wrap8(wrap8(s.y - self.ly()) - 9);
            let a = s.tile_attributes;
            let tile: u8 = if self.registers.lcdc.has(OBJ_SIZE) {
                if !(a.byte & BIT_6 == BIT_6) != (local_y >= 8) {
                    s.tile_index | 0x01
                } else {
                    s.tile_index & 0xFE
                }
            } else {
                s.tile_index
            };
            let row = self.spec_tile_row(TileData((tile as u16 * 16) as u16, Some(a)), local_y & 7, s.addr as usize);
            self.spec_push_sprite_pixels(row)
        }
    }

    /// Draws every queued sprite that starts at the next screen column.
    pub open spec fn spec_step_sprite_fifo(self) -> PPUView
        decreases self.sprites.len(),
    {
        if self.sprites.len() == 0 {
            self
        } else {
            let next = self.sprites.last();
            if next.x == wrap8(self.current_pixel + 8) {
                PPUView { sprites: self.sprites.drop_last(), ..self }.spec_draw_sprite(next).spec_step_sprite_fifo()
            } else {
                self
            }
        }
    }

    /// Draws every queued sprite whose x is at most `i`.
    pub open spec fn spec_draw_due(self, i: u8) -> PPUView
        decreases self.sprites.len(),
    {
        if self.sprites.len() == 0 {
            self
        } else {
            let next = self.sprites.last();
            if next.x <= i {
                PPUView { sprites: self.sprites.drop_last(), ..self }.spec_draw_sprite(next).spec_draw_due(i)
            } else {
                self
            }
        }
    }

    /// Columns `i..8` of the off-screen start of a line: due sprites drawn, one sprite
    /// pixel dropped per column.
    pub open spec fn spec_sprite_columns(self, i: u8) -> PPUView
        decreases 8 - i,
    {
        if i >= 8 {
            self
        } else {
            let w = self.spec_draw_due(i);
            let fifo = if w.fifo_obj.len() > 0 { w.fifo_obj.drop_last() } else { w.fifo_obj };
            PPUView { fifo_obj: fifo, ..w }.spec_sprite_columns((i + 1) as u8)
        }
    }

    /// OAM entry `k` is on the current line.
    pub open spec fn sprite_visible(self, k: int) -> bool {
        let height: u8 = if self.registers.lcdc.has(OBJ_SIZE) { 0 } else { 8 };
        let y = self.oam[4 * k];
        let x = self.oam[4 * k + 1];
        &&& x > 0 && y > 0 && x <= 168 && y <= 160
        &&& y > wrap8(self.ly() + height)
        &&& y <= wrap8(self.ly() + 16)
    }

    /// The first ten visible sprites among the first `k` OAM entries, numbered in order.
    pub open spec fn scanned_sprites(self, k: int) -> Seq<Sprite>
        decreases k,
    {
        if k <= 0 {
            Seq::empty()
        } else {
            let prev = self.scanned_sprites(k - 1);
            if self.sprite_visible(k - 1) && prev.len() < 10 {
                prev.push(sprite_of(self.oam, k - 1, prev.len() as u16))
            } else {
                prev
            }
        }
    }

    pub open spec fn spec_fetch_scanline_sprites(self) -> Seq<Sprite> {
        sorted_by_x_desc(self.scanned_sprites(40))
    }

    pub open spec fn spec_start_scanline(self) -> PPUView {
        let v1 = PPUView {
            fetcher_mode: FetcherMode::Background,
            fifo_bg: Seq::empty(),
            current_pixel: 0,
            current_tile: self.registers.scx / 8,
            sprites: self.spec_fetch_scanline_sprites(),
            ..self
        }.spec_populate();
        let n = (self.registers.scx % 8) as int;
        PPUView { fifo_bg: v1.fifo_bg.subrange(n, v1.fifo_bg.len() as int), ..v1 }.spec_sprite_columns(0)
    }

    /// The pixel at the head of the background FIFO, mixed with the sprite pixel, sent
    /// to the LCD at the current position.
    pub open spec fn spec_push_pixel(self) -> PPUView {
        if self.fifo_bg.len() == 0 {
            self
        } else {
            let bg = self.fifo_bg[0];
            let x = self.current_pixel;
            let y = self.ly();
            let v1 = PPUView { fifo_bg: self.fifo_bg.drop_first(), current_pixel: (x + 1) as u8, ..self };
            let bg_color = self.bg_color.colors@[bg.palette * 4 + bg.color];
            if self.fifo_obj.len() > 0 {
                let fg = self.fifo_obj.last();
                let bg_over = ((!fg.background_priority || bg.background_priority) && bg.color != 0
                    && self.registers.lcdc.has(BG_DISPLAY_ENABLE)) || fg.color == 0;
                let c = if bg_over { bg_color } else { self.obj_color.colors@[fg.palette * 4 + fg.color] };
                PPUView { fifo_obj: self.fifo_obj.drop_last(), lcd_back: with_pixel(self.lcd_back, pixel_offset(x, y), c), ..v1 }
            } else {
                PPUView { lcd_back: with_pixel(self.lcd_back, pixel_offset(x, y), bg_color), ..v1 }
            }
        }
    }

    /// The state in a drawing step before the pixel is pushed: window started if due,
    /// sprites at the next column drawn.
    pub open spec fn before_push(self) -> PPUView {
        let v1 = if self.fetcher_mode == FetcherMode::Background && self.spec_in_window() {
            self.spec_start_window()
        } else {
            self
        };
        v1.spec_step_sprite_fifo()
    }

    pub open spec fn spec_step_fifo(self) -> PPUView {
        let v3 = self.before_push().spec_push_pixel();
        if v3.fifo_bg.len() <= 8 {
            v3.spec_populate()
        } else {
            v3
        }
    }

    /// A drawing step cannot fault: the window test fits in a byte, and a pushed pixel
    /// advances the column without overflow and lands inside the frame.
    pub open spec fn step_fifo_safe(self) -> bool {
        &&& self.fetcher_mode == FetcherMode::Background ==> self.current_pixel <= 248
        &&& self.before_push().fifo_bg.len() > 0 ==> self.before_push().current_pixel < 255 && GameboyLCD::in_frame(
            self.before_push().current_pixel,
            self.before_push().ly(),
        )
    }
}

impl PPU {
    fn tile_color(low: u8, high: u8, bit: u8) -> (c: u8)
        requires
            bit < 8,
        ensures
            c == tile_pixel_color(low, high, bit),
            c < 4,
    {
        proof {
            lemma_u8_facts();
        }
        (((high >> bit) & 1) << 1u8) | ((low >> bit) & 1)
    }

    /// The eight pixels of row `row` of a tile, flipped as its attributes say.
    #[verifier::spinoff_prover]
    pub fn get_tile_row(&self, tile_data: TileData, row: u8, sprite_priority: usize) -> (pixels: [Pixel; 8])
        requires
            tile_data.0 + 15 < 0x2000,
        ensures
            pixels@ == self@.spec_tile_row(tile_data, row, sprite_priority),
            pixels_valid(pixels@),
    {
        let row0 = row % 8;
        let TileData(index, attributes) = tile_data;
        let (r, horizontal_flip, background_priority, palette, bank) = match attributes {
            Some(a) => (
                if a.vertical_flip() { 7 - row0 } else { row0 },
                a.horizontal_flip(),
                a.bg_priority(),
                a.palette_number(),
                a.v_ram_bank(),
            ),
            None => (row0, false, false, 0u8, VRAMBank::Bank0),
        };
        let base = index as usize + r as usize * 2;
        let (high, low) = match bank {
            VRAMBank::Bank0 => (self.v_ram_bank_0[base + 1], self.v_ram_bank_0[base]),
            VRAMBank::Bank1 => (self.v_ram_bank_1[base + 1], self.v_ram_bank_1[base]),
        };
        let mut pixels: [Pixel; 8] = [Pixel { color: 0, palette, sprite_priority, background_priority }; 8];
        let mut i: usize = 0;
        while i < 8
            invariant
                i <= 8,
                palette < 8,
                forall|j: int|
                    0 <= j < i ==> #[trigger] pixels@[j] == (Pixel {
                        color: tile_pixel_color(low, high, if horizontal_flip { j as u8 } else { (7 - j) as u8 }),
                        palette,
                        sprite_priority,
                        background_priority,
                    }),
                forall|j: int| 0 <= j < 8 ==> #[trigger] pixel_valid(pixels@[j]),
                pixels@.len() == 8,
            decreases 8 - i,
        {
            let bit: u8 = if horizontal_flip { i as u8 } else { 7 - i as u8 };
            let color = Self::tile_color(low, high, bit);
            pixels[i] = Pixel { color, palette, sprite_priority, background_priority };
            i += 1;
        }
        assert(pixels@ =~= self@.spec_tile_row(tile_data, row, sprite_priority));
        pixels
    }

    /// The data address and attributes of the tile at `tile_index` of a tile map.
    pub fn get_tile_data(&self, tile_index: u16) -> (td: TileData)
        requires
            tile_index < 0x2000,
        ensures
            td == self@.spec_tile_data(tile_index),
            td.0 + 15 < 0x2000,
    {
        let data_addr = self.v_ram_bank_0[tile_index as usize];
        let attributes = self.v_ram_bank_1[tile_index as usize];
        let index: u16 = if self.registers.lcdc.addressing_mode() == AddressingMode::Signed {
            (16 * data_addr as i32) as u16
        } else {
            (0x1000 + 16 * (data_addr as i8) as i32) as u16
        };
        TileData(index, Some(TileAttributes::new(attributes)))
    }

    /// Appends the next background or window tile row to the background FIFO.
    #[verifier::spinoff_prover]
    #[verifier::rlimit(40)]
    pub fn populate_bg_fifo(&mut self)
        requires
            old(self)@.wf(),
        ensures
            final(self)@ == old(self)@.spec_populate(),
            final(self)@.wf(),
    {
        proof {
            lemma_u8_facts();
        }
        let tile_y: u8 = match self.fetcher_mode {
            FetcherMode::Background => self.registers.ly.wrapping_add(self.registers.scy) >> 3u8,
            FetcherMode::Window => self.window_line >> 3u8,
        };
        let tile_x = self.current_tile;
        self.current_tile = self.current_tile.wrapping_add(1) % 32;
        let tile_map_offset = self.registers.lcdc.tile_map_offset(self.fetcher_mode);
        let map_index = tile_x as u16 + tile_y as u16 * 32 + tile_map_offset;
        let tile_row = self.registers.ly.wrapping_add(self.registers.scy) % 8;
        let td = self.get_tile_data(map_index);
        let pixels = self.get_tile_row(td, tile_row, 0);
        let ghost before = self.fifo_bg@;
        let ghost mid = self@;
        let mut i: usize = 0;
        while i < 8
            invariant
                i <= 8,
                self@ == (PPUView { fifo_bg: self@.fifo_bg, ..mid }),
                self.fifo_bg@ == before + pixels@.subrange(0, i as int),
                pixels@.len() == 8,
            decreases 8 - i,
        {
            self.fifo_bg.push_back(pixels[i]);
            i += 1;
            assert(before + pixels@.subrange(0, i as int) =~= (before + pixels@.subrange(0, i - 1)).push(pixels@[i - 1]));
        }
        assert(pixels@.subrange(0, 8) =~= pixels@);
    }

    /// Mixes a row of sprite pixels into the sprite FIFO, padding it to eight first.
    #[verifier::spinoff_prover]
    pub fn push_sprite_pixels(&mut self, pixels: [Pixel; 8])
        requires
            old(self)@.wf(),
            pixels_valid(pixels@),
        ensures
            final(self)@ == old(self)@.spec_push_sprite_pixels(pixels@),
            final(self)@.wf(),
    {
        let ghost start = self.fifo_obj@;
        let ghost mid = self@;
        while self.fifo_obj.len() < 8
            invariant
                self@ == (PPUView { fifo_obj: self@.fifo_obj, ..mid }),
                start.len() <= self.fifo_obj@.len(),
                self.fifo_obj@.len() <= 8 || self.fifo_obj@ == start,
                self.fifo_obj@ == Seq::new((self.fifo_obj@.len() - start.len()) as nat, |i: int| transparent_pixel()) + start,
            decreases 8 - self.fifo_obj@.len(),
        {
            self.fifo_obj.push_front(Pixel::transparent());
            assert(self.fifo_obj@ =~= Seq::new((self.fifo_obj@.len() - start.len()) as nat, |i: int| transparent_pixel()) + start);
        }
        let ghost p = self.fifo_obj@;
        assert(p == padded(start)) by {
            if start.len() >= 8 {
                assert(p =~= start);
            }
        }
        let mut i: usize = 0;
        while i < 8
            invariant
                self@ == (PPUView { fifo_obj: self@.fifo_obj, ..mid }),
                i <= 8,
                p.len() >= 8,
                pixels@.len() == 8,
                self.fifo_obj@.len() == p.len(),
                forall|j: int| 0 <= j < p.len() ==> #[trigger] self.fifo_obj@[j] == if j < i { mixed(pixels@[j], p[j]) } else { p[j] },
            decreases 8 - i,
        {
            let other = self.fifo_obj[i];
            let pixel = pixels[i];
            if (pixel.color != 0 && pixel.sprite_priority < other.sprite_priority) || other.color == 0 {
                let _ = self.fifo_obj.remove(i);
                self.fifo_obj.insert(i, pixel);
            }
            i += 1;
        }
        assert(self.fifo_obj@ =~= Seq::new(p.len(), |j: int| if j < 8 { mixed(pixels@[j], p[j]) } else { p[j] }));
    }

    /// The screen position has reached the window.
    pub fn in_window(&self) -> (r: bool)
        requires
            self.current_pixel <= 248,
        ensures
            r == self@.spec_in_window(),
    {
        let wn_enabled = self.registers.lcdc.win_enabled();
        let wn_in_view = self.current_pixel + 7 >= self.registers.wx && self.registers.ly >= self.registers.wy;
        wn_in_view && wn_enabled
    }

    /// Switches the fetcher to the window for the rest of the line.
    #[verifier::spinoff_prover]
    pub fn start_window(&mut self)
        requires
            old(self)@.wf(),
        ensures
            final(self)@ == old(self)@.spec_start_window(),
            final(self)@.wf(),
    {
        self.fifo_bg.clear();
        self.fetcher_mode = FetcherMode::Window;
        self.current_tile = 0;
        self.window_line = self.window_line.wrapping_add(1);
        self.populate_bg_fifo();
    }

    /// Fetches a sprite's row on the current line and mixes it into the sprite FIFO.
    #[verifier::spinoff_prover]
    pub fn draw_sprite(&mut self, sprite: Sprite)
        requires
            old(self)@.wf(),
        ensures
            final(self)@ == old(self)@.spec_draw_sprite(sprite),
            final(self)@.wf(),
    {
        let double_height = self.registers.lcdc.obj_size();
        if !self.registers.lcdc.obj_enable() {
            return;
        }
        let attributes = sprite.tile_attributes;
        let local_y = sprite.y.wrapping_sub(self.registers.ly).wrapping_sub(9);
        let tile: u8 = match double_height {
            SpriteHeight::Double => {
                if !attributes.vertical_flip() != (local_y >= 8) {
                    sprite.tile_index | 0x01
                } else {
                    sprite.tile_index & 0xFE
                }
            },
            SpriteHeight::Single => sprite.tile_index,
        };
        let tile_addr = tile as u16 * 16;
        let local_y = local_y & 7;
        let data = TileData(tile_addr, Some(attributes));
        let row = self.get_tile_row(data, local_y, sprite.addr as usize);
        self.push_sprite_pixels(row);
    }

    /// Draws every queued sprite that starts at the next screen column.
    #[verifier::spinoff_prover]
    pub fn step_sprite_fifo(&mut self)
        requires
            old(self)@.wf(),
        ensures
            final(self)@ == old(self)@.spec_step_sprite_fifo(),
            final(self)@.wf(),
        decreases old(self)@.sprites.len(),
    {
        let n = self.sprites.len();
        if n == 0 {
            return;
        }
        let next = self.sprites[n - 1];
        if next.x == self.current_pixel.wrapping_add(8) {
            let _ = self.sprites.pop();
            assert(self.sprites@ =~= old(self)@.sprites.drop_last());
            self.draw_sprite(next);
            self.step_sprite_fifo();
        }
    }

    /// The sprites on the current line: the first ten visible OAM entries, ordered by
    /// decreasing x (entries with the same x keep their OAM order).
    #[verifier::spinoff_prover]
    pub fn fetch_scanline_sprites(&self) -> (r: Vec<Sprite>)
        requires
            self@.wf(),
        ensures
            r@ == self@.spec_fetch_scanline_sprites(),
    {
        let height: u8 = match self.registers.lcdc.obj_size() {
            SpriteHeight::Double => 0,
            SpriteHeight::Single => 8,
        };
        let mut found: Vec<Sprite> = Vec::new();
        let mut k: usize = 0;
        while k < 40
            invariant
                k <= 40,
                self@.wf(),
                height == (if self@.registers.lcdc.has(OBJ_SIZE) { 0u8 } else { 8u8 }),
                found@ == self@.scanned_sprites(k as int),
                found@.len() <= 10,
            decreases 40 - k,
        {
            let y = self.oam[4 * k];
            let x = self.oam[4 * k + 1];
            let visible = (x > 0 && y > 0 && x <= 168 && y <= 160) && (y > self.registers.ly.wrapping_add(height))
                && (y <= self.registers.ly.wrapping_add(16));
            if visible && found.len() < 10 {
                let sprite = Sprite::new(found.len() as u16, [y, x, self.oam[4 * k + 2], self.oam[4 * k + 3]]);
                found.push(sprite);
            }
            k += 1;
        }
        sort_by_x_desc(found)
    }

    /// Starts a line: drawing from its leftmost pixel, background fetch from the
    /// scroll position, the fine scroll dropped, the line's sprites fetched and those
    /// starting left of the screen drawn.
    #[verifier::spinoff_prover]
    pub fn start_scanline(&mut self)
        requires
            old(self)@.wf(),
        ensures
            final(self)@ == old(self)@.spec_start_scanline(),
            final(self)@.wf(),
    {
        let sprites = self.fetch_scanline_sprites();
        self.fetcher_mode = FetcherMode::Background;
        self.fifo_bg.clear();
        self.current_pixel = 0;
        self.current_tile = self.registers.scx / 8;
        self.sprites = sprites;
        self.populate_bg_fifo();
        let n = self.registers.scx % 8;
        let ghost v1 = self@;
        assert(v1.fifo_bg.subrange(0, v1.fifo_bg.len() as int) =~= v1.fifo_bg);
        let mut k: u8 = 0;
        while k < n
            invariant
                k <= n,
                n < 8,
                v1.fifo_bg.len() >= 8,
                self@ == (PPUView { fifo_bg: v1.fifo_bg.subrange(k as int, v1.fifo_bg.len() as int), ..v1 }),
            decreases n - k,
        {
            let _ = self.fifo_bg.pop_front();
            assert(v1.fifo_bg.subrange(k as int, v1.fifo_bg.len() as int).subrange(1, v1.fifo_bg.len() - k)
                =~= v1.fifo_bg.subrange(k + 1, v1.fifo_bg.len() as int));
            k += 1;
        }
        let ghost target = self@.spec_sprite_columns(0);
        let mut i: u8 = 0;
        while i < 8
            invariant
                i <= 8,
                self@.wf(),
                self@.spec_sprite_columns(i) == target,
            decreases 8 - i,
        {
            let ghost due = self@.spec_draw_due(i);
            while self.sprites.len() > 0 && self.sprites[self.sprites.len() - 1].x <= i
                invariant
                    self@.wf(),
                    self@.spec_draw_due(i) == due,
                decreases self@.sprites.len(),
            {
                let next = self.sprites[self.sprites.len() - 1];
                let _ = self.sprites.pop();
                self.draw_sprite(next);
            }
            let _ = self.fifo_obj.pop_back();
            i += 1;
        }
    }

    /// Sends the next background pixel, mixed with the sprite pixel, to the LCD.
    #[verifier::spinoff_prover]
    pub fn push_pixel(&mut self)
        requires
            old(self)@.wf(),
            old(self)@.fifo_bg.len() > 0 ==> old(self).current_pixel < 255 && GameboyLCD::in_frame(
                old(self).current_pixel,
                old(self).registers.ly,
            ),
        ensures
            final(self)@ == old(self)@.spec_push_pixel(),
            final(self)@.wf(),
    {
        let bg = match self.fifo_bg.pop_front() {
            Some(p) => p,
            None => return,
        };
        assert(pixel_valid(old(self)@.fifo_bg[0]));
        assert(old(self)@.fifo_obj.len() > 0 ==> pixel_valid(old(self)@.fifo_obj[old(self)@.fifo_obj.len() - 1]));
        let x = self.current_pixel;
        let y = self.registers.ly;
        self.current_pixel = self.current_pixel + 1;
        match self.fifo_obj.pop_back() {
            Some(fg) => {
                let bg_over = (!fg.background_priority || bg.background_priority) && bg.color != 0;
                let bg_over = bg_over && self.registers.lcdc.bg_enabled();
                let bg_over = bg_over || fg.color == 0;
                if bg_over {
                    let c = self.bg_color.get_color(bg.palette, bg.color);
                    self.lcd.put_pixel(x, y, c);
                } else {
                    let c = self.obj_color.get_color(fg.palette, fg.color);
                    self.lcd.put_pixel(x, y, c);
                }
            },
            None => {
                let c = self.bg_color.get_color(bg.palette, bg.color);
                self.lcd.put_pixel(x, y, c);
            },
        }
    }

    /// One drawing step: start the window if due, draw due sprites, push a pixel and
    /// refill the background FIFO.
    #[verifier::spinoff_prover]
    pub fn step_fifo(&mut self)
        requires
            old(self)@.wf(),
            old(self)@.step_fifo_safe(),
        ensures
            final(self)@ == old(self)@.spec_step_fifo(),
            final(self)@.wf(),
    {
        if self.fetcher_mode == FetcherMode::Background && self.in_window() {
            self.start_window();
        }
        self.step_sprite_fifo();
        self.push_pixel();
        if self.fifo_bg.len() <= 8 {
            self.populate_bg_fifo();
        }
    }
}

/// Sorts sprites by decreasing x, keeping the order of sprites with the same x.
#[verifier::spinoff_prover]
fn sort_by_x_desc(v: Vec<Sprite>) -> (r: Vec<Sprite>)
    requires
        v@.len() <= 10,
    ensures
        r@ == sorted_by_x_desc(v@),
{
    let mut out: Vec<Sprite> = Vec::new();
    let mut i: usize = 0;
    while i < v.len()
        invariant
            i <= v@.len() <= 10,
            out@ == sorted_by_x_desc(v@.subrange(0, i as int)),
            out@.len() == i,
        decreases v@.len() - i,
    {
        let e = v[i];
        let mut j: usize = 0;
        assert(out@.subrange(0, out@.len() as int) =~= out@);
        while j < out.len() && !(out[j].x < e.x)
            invariant
                j <= out@.len(),
                insertion_point(out@, e.x) == j + insertion_point(out@.subrange(j as int, out@.len() as int), e.x),
            decreases out@.len() - j,
        {
            assert(out@.subrange(j as int, out@.len() as int).drop_first() =~= out@.subrange(j + 1, out@.len() as int));
            j += 1;
        }
        assert(insertion_point(out@, e.x) == j) by {
            if j < out@.len() {
                assert(out@.subrange(j as int, out@.len() as int)[0] == out@[j as int]);
            } else {
                assert(out@.subrange(j as int, out@.len() as int) =~= Seq::<Sprite>::empty());
            }
        }
        proof {
            let s = v@.subrange(0, i + 1);
            assert(s.drop_last() =~= v@.subrange(0, i as int));
            assert(s.last() == e);
        }
        out.insert(j, e);
        i += 1;
    }
    assert(v@.subrange(0, v@.len() as int) =~= v@);
    out
}

/// Sprites ordered by decreasing x.
pub open spec fn x_descending(s: Seq<Sprite>) -> bool {
    forall|i: int, j: int| 0 <= i < j < s.len() ==> s[i].x >= s[j].x
}

proof fn lemma_insertion_point(s: Seq<Sprite>, x: u8)
    ensures
        0 <= insertion_point(s, x) <= s.len(),
        forall|i: int| 0 <= i < insertion_point(s, x) ==> s[i].x >= x,
        insertion_point(s, x) < s.len() ==> s[insertion_point(s, x)].x < x,
    decreases s.len(),
{
    if s.len() > 0 && s[0].x >= x {
        lemma_insertion_point(s.drop_first(), x);
        assert forall|i: int| 0 <= i < insertion_point(s, x) implies s[i].x >= x by {
            if i > 0 {
                assert(s[i] == s.drop_first()[i - 1]);
            }
        }
    }
}

proof fn lemma_sorted_by_x_desc(s: Seq<Sprite>)
    ensures
        sorted_by_x_desc(s).len() == s.len(),
        x_descending(sorted_by_x_desc(s)),
    decreases s.len(),
{
    if s.len() > 0 {
        let rest = sorted_by_x_desc(s.drop_last());
        lemma_sorted_by_x_desc(s.drop_last());
        let e = s.last();
        let p = insertion_point(rest, e.x);
        lemma_insertion_point(rest, e.x);
        let r = rest.insert(p, e);
        assert forall|i: int, j: int| 0 <= i < j < r.len() implies r[i].x >= r[j].x by {
            if j < p {
                assert(r[i] == rest[i] && r[j] == rest[j]);
            } else if j == p {
                assert(r[i] == rest[i]);
            } else if i < p {
                assert(r[i] == rest[i] && r[j] == rest[j - 1]);
            } else if i == p {
                assert(r[j] == rest[j - 1]);
                assert(rest[p].x < e.x);
                if j - 1 > p {
                    assert(rest[p].x >= rest[j - 1].x);
                }
            } else {
                assert(r[i] == rest[i - 1] && r[j] == rest[j - 1]);
            }
        }
    }
}

proof fn lemma_scanned_at_most_ten(v: PPUView, k: int)
    ensures
        v.scanned_sprites(k).len() <= 10,
    decreases k,
{
    if k > 0 {
        lemma_scanned_at_most_ten(v, k - 1);
    }
}

/// At most ten sprites are drawn on a line, and they are queued by decreasing x so
/// that the leftmost is at the end of the queue.
pub proof fn lemma_line_sprites(v: PPUView)
    ensures
        v.spec_fetch_scanline_sprites().len() <= 10,
        x_descending(v.spec_fetch_scanline_sprites()),
{
    lemma_scanned_at_most_ten(v, 40);
    lemma_sorted_by_x_desc(v.scanned_sprites(40));
}

/// Flipping a tile row: toggling the horizontal-flip attribute reverses the row's
/// colours; toggling the vertical-flip attribute reads row `7 - r` in place of row
/// `r`. Every pixel has a colour of at most 3 and the given sprite priority.
pub proof fn lemma_tile_row_flips(v: PPUView, idx: u16, a: TileAttributes, r: u8, p: usize)
    requires
        v.wf(),
        idx + 16 <= 0x2000,
    ensures
        forall|k: int|
            0 <= k < 8 ==> (#[trigger] v.spec_tile_row(TileData(idx, Some(TileAttributes { byte: a.byte ^ 0x20 })), r, p)[k]).color
                == v.spec_tile_row(TileData(idx, Some(a)), r, p)[7 - k].color,
        forall|k: int|
            0 <= k < 8 ==> #[trigger] v.spec_tile_row(TileData(idx, Some(TileAttributes { byte: a.byte ^ 0x40 })), r, p)[k]
                == v.spec_tile_row(TileData(idx, Some(a)), (7 - r % 8) as u8, p)[k],
        forall|k: int|
            0 <= k < 8 ==> (#[trigger] v.spec_tile_row(TileData(idx, Some(a)), r, p)[k]).color <= 3
                && v.spec_tile_row(TileData(idx, Some(a)), r, p)[k].sprite_priority == p,
{
    let b = a.byte;
    assert({
        &&& ((b ^ 0x20u8) & 0x20u8 == 0x20u8) == !(b & 0x20u8 == 0x20u8)
        &&& ((b ^ 0x20u8) & 0x40u8 == 0x40u8) == (b & 0x40u8 == 0x40u8)
        &&& ((b ^ 0x20u8) & 0x80u8 == 0x80u8) == (b & 0x80u8 == 0x80u8)
        &&& (b ^ 0x20u8) & 0b111u8 == b & 0b111u8
        &&& ((b ^ 0x20u8) >> 3u8) & 1u8 == (b >> 3u8) & 1u8
        &&& ((b ^ 0x40u8) & 0x40u8 == 0x40u8) == !(b & 0x40u8 == 0x40u8)
        &&& ((b ^ 0x40u8) & 0x20u8 == 0x20u8) == (b & 0x20u8 == 0x20u8)
        &&& ((b ^ 0x40u8) & 0x80u8 == 0x80u8) == (b & 0x80u8 == 0x80u8)
        &&& (b ^ 0x40u8) & 0b111u8 == b & 0b111u8
        &&& ((b ^ 0x40u8) >> 3u8) & 1u8 == (b >> 3u8) & 1u8
    }) by (bit_vector);
    assert(forall|lo: u8, hi: u8, bit: u8| bit < 8 ==> #[trigger] tile_pixel_color(lo, hi, bit) <= 3) by {
        lemma_u8_facts();
    }
    let r0 = (r % 8) as u8;
    assert(((7 - r % 8) as u8) % 8 == 7 - r0);
}

/// Drawing one sprite leaves the palettes and the sprite queue as they are.
proof fn lemma_draw_sprite_keeps(v: PPUView, s: Sprite)
    ensures
        v.spec_draw_sprite(s).bg_color == v.bg_color,
        v.spec_draw_sprite(s).obj_color == v.obj_color,
        v.spec_draw_sprite(s).sprites == v.sprites,
{
}

proof fn lemma_draw_due_keeps(v: PPUView, i: u8)
    ensures
        v.spec_draw_due(i).bg_color == v.bg_color,
        v.spec_draw_due(i).obj_color == v.obj_color,
    decreases v.sprites.len(),
{
    if v.sprites.len() > 0 {
        let next = v.sprites.last();
        if next.x <= i {
            let w = PPUView { sprites: v.sprites.drop_last(), ..v };
            lemma_draw_sprite_keeps(w, next);
            lemma_draw_due_keeps(w.spec_draw_sprite(next), i);
        }
    }
}

proof fn lemma_step_sprite_fifo_keeps(v: PPUView)
    ensures
        v.spec_step_sprite_fifo().bg_color == v.bg_color,
        v.spec_step_sprite_fifo().obj_color == v.obj_color,
    decreases v.sprites.len(),
{
    if v.sprites.len() > 0 {
        let next = v.sprites.last();
        if next.x == wrap8(v.current_pixel + 8) {
            let w = PPUView { sprites: v.sprites.drop_last(), ..v };
            lemma_draw_sprite_keeps(w, next);
            lemma_step_sprite_fifo_keeps(w.spec_draw_sprite(next));
        }
    }
}

proof fn lemma_sprite_columns_keeps(v: PPUView, i: u8)
    ensures
        v.spec_sprite_columns(i).bg_color == v.bg_color,
        v.spec_sprite_columns(i).obj_color == v.obj_color,
    decreases 8 - i,
{
    if i < 8 {
        let w = v.spec_draw_due(i);
        lemma_draw_due_keeps(v, i);
        let fifo = if w.fifo_obj.len() > 0 { w.fifo_obj.drop_last() } else { w.fifo_obj };
        lemma_sprite_columns_keeps(PPUView { fifo_obj: fifo, ..w }, (i + 1) as u8);
    }
}

/// Starting a line leaves the colour palettes as they are.
pub(crate) proof fn lemma_start_scanline_keeps_palettes(v: PPUView)
    ensures
        v.spec_start_scanline().bg_color == v.bg_color,
        v.spec_start_scanline().obj_color == v.obj_color,
{
    let v1 = PPUView {
        fetcher_mode: FetcherMode::Background,
        fifo_bg: Seq::empty(),
        current_pixel: 0,
        current_tile: v.registers.scx / 8,
        sprites: v.spec_fetch_scanline_sprites(),
        ..v
    }.spec_populate();
    let n = (v.registers.scx % 8) as int;
    lemma_sprite_columns_keeps(PPUView { fifo_bg: v1.fifo_bg.subrange(n, v1.fifo_bg.len() as int), ..v1 }, 0);
}

/// A drawing step leaves the colour palettes as they are.
pub(crate) proof fn lemma_step_fifo_keeps_palettes(v: PPUView)
    ensures
        v.spec_step_fifo().bg_color == v.bg_color,
        v.spec_step_fifo().obj_color == v.obj_color,
{
    let v1 = if v.fetcher_mode == FetcherMode::Background && v.spec_in_window() {
        v.spec_start_window()
    } else {
        v
    };
    lemma_step_sprite_fifo_keeps(v1);
}

/// A sprite pixel of colour 0 is transparent: the background pixel under it goes to the
/// LCD in its own palette colour, whatever the priorities and LCDC say.
pub proof fn lemma_transparent_sprite_pixel(v: PPUView)
    requires
        v.fifo_bg.len() > 0,
        v.fifo_obj.len() > 0,
        v.fifo_obj.last().color == 0,
    ensures
        v.spec_push_pixel().lcd_back == with_pixel(
            v.lcd_back,
            pixel_offset(v.current_pixel, v.registers.ly),
            v.bg_color.colors@[v.fifo_bg[0].palette * 4 + v.fifo_bg[0].color],
        ),
        v.spec_push_pixel().current_pixel == (v.current_pixel + 1) as u8,
{
}

/// An opaque sprite pixel over background colour 0 is drawn in the sprite's palette
/// colour.
pub proof fn lemma_opaque_sprite_over_blank_background(v: PPUView)
    requires
        v.fifo_bg.len() > 0,
        v.fifo_obj.len() > 0,
        v.fifo_obj.last().color != 0,
        v.fifo_bg[0].color == 0,
    ensures
        v.spec_push_pixel().lcd_back == with_pixel(
            v.lcd_back,
            pixel_offset(v.current_pixel, v.registers.ly),
            v.obj_color.colors@[v.fifo_obj.last().palette * 4 + v.fifo_obj.last().color],
        ),
{
}

/// With no sprite pixel queued, the background pixel goes to the LCD in its palette
/// colour; with the background disabled (LCDC bit 0 clear), an opaque sprite pixel is
/// drawn in the sprite's palette colour.
pub proof fn lemma_pixel_without_sprite_or_background(v: PPUView)
    requires
        v.fifo_bg.len() > 0,
    ensures
        v.fifo_obj.len() == 0 ==> v.spec_push_pixel().lcd_back == with_pixel(
            v.lcd_back,
            pixel_offset(v.current_pixel, v.registers.ly),
            v.bg_color.colors@[v.fifo_bg[0].palette * 4 + v.fifo_bg[0].color],
        ),
        v.fifo_obj.len() > 0 && v.fifo_obj.last().color != 0 && v.registers.lcdc.0 & 0x01 == 0
            ==> v.spec_push_pixel().lcd_back == with_pixel(
            v.lcd_back,
            pixel_offset(v.current_pixel, v.registers.ly),
            v.obj_color.colors@[v.fifo_obj.last().palette * 4 + v.fifo_obj.last().color],
        ),
{
    let l = v.registers.lcdc.0;
    assert(l & 0x01 == 0 ==> l & 0x01 != 0x01) by (bit_vector);
}

} // verus!
