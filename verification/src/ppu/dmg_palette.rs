use vstd::prelude::*;

verus! {

/// The four shades of the monochrome Game Boy, lightest first.
#[derive(Clone, Copy, Debug)]
pub struct DMGPalette(pub [(u8, u8, u8, u8); 4]);

impl DMGPalette {
    pub fn default() -> (p: Self)
        ensures
            p.0@ == seq![
                (0xFFu8, 0xFFu8, 0xFFu8, 0xFFu8),
                (0xAAu8, 0xAAu8, 0xAAu8, 0xFFu8),
                (0x55u8, 0x55u8, 0x55u8, 0xFFu8),
                (0x00u8, 0x00u8, 0x00u8, 0xFFu8),
            ],
    {
        let p = DMGPalette([(0xFF, 0xFF, 0xFF, 0xFF), (0xAA, 0xAA, 0xAA, 0xFF), (0x55, 0x55, 0x55, 0xFF), (0x00, 0x00, 0x00, 0xFF)]);
        assert(p.0@ =~= seq![
            (0xFFu8, 0xFFu8, 0xFFu8, 0xFFu8),
            (0xAAu8, 0xAAu8, 0xAAu8, 0xFFu8),
            (0x55u8, 0x55u8, 0x55u8, 0xFFu8),
            (0x00u8, 0x00u8, 0x00u8, 0xFFu8),
        ]);
        p
    }

    /// The RGBA colour of shade `color_id` (0..=3).
    pub fn color_of(&self, color_id: u8) -> (c: (u8, u8, u8, u8))
        requires
            color_id < 4,
        ensures
            c == self.0@[color_id as int],
    {
        self.0[color_id as usize]
    }
}

} // verus!
