use vstd::prelude::*;
use crate::bits::{BIT_7, lemma_usize_facts};
use crate::lcd::Color;
use crate::ppu::PPUMode;
use crate::ppu::renderer::Pixel;

verus! {

/// Colour palette memory in Game Boy Color mode (BCPS/BCPD or OCPS/OCPD): 32
/// little-endian RGB555 words, addressed bytewise through an index register, with
/// the RGBA colour of each word kept alongside.
#[derive(Clone, Copy, Debug)]
pub struct ColorRamController {
    pub increment: bool,
    pub index: usize,
    pub data: [u16; 32],
    pub colors: [Color; 32],
}

/// A 5-bit channel widened to 8 bits.
pub open spec fn expand5(x: u16) -> u8 {
    ((x << 3u16) | (x >> 2u16)) as u8
}

/// The RGBA colour of an RGB555 word.
pub open spec fn rgb(word: u16) -> Color {
    (expand5(word & 0x1F), expand5((word >> 5u16) & 0x1F), expand5((word >> 10u16) & 0x1F), 255u8)
}

/// The byte that a read of palette byte `index` returns: the low byte of the word
/// for an even index, the high byte for an odd one (the layout writes use).
pub open spec fn read_byte_of(word: u16, index: usize) -> u8 {
    if index % 2 == 0 {
        (word & 0x00FF) as u8
    } else {
        ((word & 0xFF00) >> 8u16) as u8
    }
}

/// The word after a write of palette byte `index`: the low byte for an even index,
/// the high byte for an odd one.
pub open spec fn written_word(word: u16, index: usize, value: u8) -> u16 {
    if index % 2 == 0 {
        (word & 0xFF00) | (value as u16)
    } else {
        (word & 0x00FF) | ((value as u16) << 8u16)
    }
}

impl ColorRamController {
    /// The index selects one of the 64 palette bytes, and every cached colour is the
    /// RGB of its palette word.
    pub open spec fn wf(self) -> bool {
        &&& self.index < 64
        &&& self.colors_consistent()
    }

    /// Every cached colour is the RGB of its palette word.
    pub open spec fn colors_consistent(self) -> bool {
        forall|i: int| 0 <= i < 32 ==> #[trigger] self.colors@[i] == rgb(self.data@[i])
    }

    pub open spec fn spec_read_spec(self) -> u8 {
        (if self.increment { BIT_7 } else { 0u8 }) | (self.index as u8)
    }

    /// `c2` is the controller after an index-register write of `value`.
    pub open spec fn index_written(self, value: u8, c2: ColorRamController) -> bool {
        c2 == (ColorRamController { increment: value & BIT_7 == BIT_7, index: value as usize % 64, ..self })
    }

    /// `c2` is the controller after a data-register write of `value` during `ppu_mode`.
    pub open spec fn data_written(self, value: u8, ppu_mode: PPUMode, c2: ColorRamController) -> bool {
        &&& c2.increment == self.increment
        &&& c2.index == self.next_index()
        &&& ppu_mode == PPUMode::Draw ==> c2.data == self.data && c2.colors == self.colors
        &&& ppu_mode != PPUMode::Draw ==> {
            let i = self.index / 2;
            let w = written_word(self.data@[i as int], self.index, value);
            &&& c2.data@ == self.data@.update(i as int, w)
            &&& c2.colors@ == self.colors@.update(i as int, rgb(w))
        }
    }

    pub open spec fn next_index(self) -> usize {
        if self.increment { ((self.index + 1) % 64) as usize } else { self.index }
    }

    pub fn default() -> (c: Self)
        ensures
            c.wf(),
            !c.increment,
            c.index == 0,
            c.data@ == Seq::new(32, |i: int| 0u16),
            c.colors@ == Seq::new(32, |i: int| (0u8, 0u8, 0u8, 255u8)),
            c.colors_consistent(),
    {
        let c = Self { data: [0; 32], colors: [(0, 0, 0, 255); 32], index: 0, increment: false };
        assert(c.data@ =~= Seq::new(32, |i: int| 0u16));
        assert(c.colors@ =~= Seq::new(32, |i: int| (0u8, 0u8, 0u8, 255u8)));
        assert(rgb(0) == (0u8, 0u8, 0u8, 255u8)) by {
            assert(((0u16 << 3u16) | (0u16 >> 2u16)) as u8 == 0u8) by (bit_vector);
            assert(0u16 & 0x1F == 0 && (0u16 >> 5u16) & 0x1F == 0 && (0u16 >> 10u16) & 0x1F == 0) by (bit_vector);
        }
        c
    }

    /// Index register write: bit 7 turns on auto-increment, bits 0-5 select the byte.
    pub fn write_spec(&mut self, value: u8)
        requires
            old(self).wf(),
        ensures
            final(self).increment == (value & BIT_7 == BIT_7),
            final(self).index == value as usize % 64,
            final(self).data == old(self).data,
            final(self).colors == old(self).colors,
            final(self).wf(),
            old(self).index_written(value, *final(self)),
    {
        self.increment = value & BIT_7 == BIT_7;
        self.index = value as usize % 64;
    }

    pub fn read_spec(&self) -> (r: u8)
        requires
            self.wf(),
        ensures
            r == self.spec_read_spec(),
    {
        let increment: u8 = if self.increment { BIT_7 } else { 0 };
        let index = self.index;
        increment | index as u8
    }

    pub fn read_data(&self) -> (r: u8)
        requires
            self.wf(),
        ensures
            r == read_byte_of(self.data@[(self.index / 2) as int], self.index),
    {
        let idx = self.index;
        proof {
            lemma_usize_facts();
        }
        let val = self.data[idx >> 1];
        if idx & 1 == 0 {
            (val & 0x00FF) as u8
        } else {
            ((val & 0xFF00) >> 8u16) as u8
        }
    }

    /// Data register write. Outside mode 3 the addressed byte is stored and the colour
    /// of its word recomputed; the index then advances if auto-increment is on,
    /// whatever the mode.
    pub fn write_data(&mut self, value: u8, ppu_mode: PPUMode)
        requires
            old(self).wf(),
        ensures
            final(self).wf(),
            final(self).increment == old(self).increment,
            final(self).index == old(self).next_index(),
            ppu_mode == PPUMode::Draw ==> final(self).data == old(self).data && final(self).colors == old(self).colors,
            ppu_mode != PPUMode::Draw ==> {
                let i = old(self).index / 2;
                let w = written_word(old(self).data@[i as int], old(self).index, value);
                &&& final(self).data@ == old(self).data@.update(i as int, w)
                &&& final(self).colors@ == old(self).colors@.update(i as int, rgb(w))
            },
            old(self).data_written(value, ppu_mode, *final(self)),
    {
        if ppu_mode != PPUMode::Draw {
            let i = self.index >> 1;
            let idx = self.index;
            proof {
                lemma_usize_facts();
            }
            let cur = self.data[i];
            let w = if self.index & 1 == 0 {
                (cur & 0xFF00) | (value as u16)
            } else {
                (cur & 0x00FF) | ((value as u16) << 8u16)
            };
            self.data[i] = w;
            self.update_color(i);
        }
        if self.increment {
            let n = self.index + 1;
            proof {
                lemma_usize_facts();
            }
            self.index = n & 0b00111111;
        }
    }

    fn update_color(&mut self, index: usize)
        requires
            index < 32,
        ensures
            final(self).colors@ == old(self).colors@.update(index as int, rgb(old(self).data@[index as int])),
            final(self).data == old(self).data,
            final(self).index == old(self).index,
            final(self).increment == old(self).increment,
    {
        let color = self.data[index];
        let r = color & 0b11111;
        let g = (color >> 5u16) & 0b11111;
        let b = (color >> 10u16) & 0b11111;
        let r = ((r << 3u16) | (r >> 2u16)) as u8;
        let g = ((g << 3u16) | (g >> 2u16)) as u8;
        let b = ((b << 3u16) | (b >> 2u16)) as u8;
        self.colors[index] = (r, g, b, 255);
    }

    /// Colour `color` (0..=3) of palette `pallette` (0..=7).
    pub fn get_color(&self, pallette: u8, color: u8) -> (c: Color)
        requires
            pallette * 4 + color < 32,
        ensures
            c == self.colors@[pallette * 4 + color],
            self.wf() ==> c == rgb(self.data@[pallette * 4 + color]),
    {
        self.colors[(pallette * 4 + color) as usize]
    }

    pub fn color_of(&self, pixel: Pixel) -> (c: Color)
        requires
            pixel.palette * 4 + pixel.color < 32,
        ensures
            c == self.colors@[pixel.palette * 4 + pixel.color],
            self.wf() ==> c == rgb(self.data@[pixel.palette * 4 + pixel.color]),
    {
        self.get_color(pixel.palette, pixel.color)
    }
}

/// The index register reads back what was written, less bit 6.
pub proof fn lemma_spec_round_trip(c: ColorRamController, value: u8)
    ensures
        (ColorRamController { increment: value & BIT_7 == BIT_7, index: value as usize % 64, ..c }).spec_read_spec()
            == value & 0xBF,
{
    assert(((value as usize) % 64) as u8 == value & 0x3F) by (bit_vector);
    assert(((if value & 0x80u8 == 0x80u8 { 0x80u8 } else { 0u8 }) | (value & 0x3F)) == value & 0xBF) by (bit_vector);
}

/// Palette writes keep every cached colour equal to the RGB of its word.
pub proof fn lemma_colors_stay_consistent(c: ColorRamController, d: ColorRamController, value: u8)
    requires
        c.wf(),
        c.colors_consistent(),
        d.data@ == c.data@.update((c.index / 2) as int, written_word(c.data@[(c.index / 2) as int], c.index, value)),
        d.colors@ == c.colors@.update(
            (c.index / 2) as int,
            rgb(written_word(c.data@[(c.index / 2) as int], c.index, value)),
        ),
    ensures
        d.colors_consistent(),
{
}

/// A palette byte reads back, at the same index, as it was written; the other byte
/// of its word is left as it was.
pub proof fn lemma_palette_byte_read_back(word: u16, index: usize, value: u8)
    ensures
        read_byte_of(written_word(word, index, value), index) == value,
        read_byte_of(written_word(word, index, value), if index % 2 == 0 { (index + 1) as usize } else { (index - 1) as usize })
            == read_byte_of(word, if index % 2 == 0 { (index + 1) as usize } else { (index - 1) as usize }),
{
    if index % 2 == 0 {
        assert((((word & 0xFF00) | (value as u16)) & 0x00FF) as u8 == value) by (bit_vector);
        assert(((((word & 0xFF00) | (value as u16)) & 0xFF00) >> 8u16) as u8 == ((word & 0xFF00) >> 8u16) as u8)
            by (bit_vector);
        assert((index + 1) as usize % 2 == 1);
    } else {
        assert(((((word & 0x00FF) | ((value as u16) << 8u16)) & 0xFF00) >> 8u16) as u8 == value) by (bit_vector);
        assert((((word & 0x00FF) | ((value as u16) << 8u16)) & 0x00FF) as u8 == (word & 0x00FF) as u8) by (bit_vector);
        assert((index - 1) as usize % 2 == 0);
    }
}

/// Colour `k` of palette `p` is the RGB of palette word `4p + k`: in a well-formed
/// controller the cached colours never go stale.
pub proof fn lemma_color_is_rgb_of_word(c: ColorRamController, p: u8, k: u8)
    requires
        c.wf(),
        p < 8,
        k < 4,
    ensures
        c.colors@[p * 4 + k] == rgb(c.data@[p * 4 + k]),
{
}

} // verus!
