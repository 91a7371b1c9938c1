use vstd::prelude::*;

verus! {

/// The noise channel's linear-feedback shift register.
#[derive(Clone, Copy, Debug)]
pub struct Lfsr {
    pub shift_register: u16,
    /// The bit that receives the feedback: 14 (15-bit mode) or 6 (7-bit mode).
    pub width: u16,
}

pub const SHIFT_REGISTER_INITIAL: u16 = 0x7FFF;

/// The feedback bit: bit 0 XOR bit 1 of the register.
pub open spec fn feedback(sr: u16) -> u16 {
    if ((sr & 1) != 0) != ((sr & 2) != 0) {
        1
    } else {
        0
    }
}

/// The register after one shift: shifted right by one, with bit `width` replaced by the feedback.
pub open spec fn shifted(sr: u16, width: u16) -> u16 {
    ((sr >> 1u16) & !(1u16 << width)) | (feedback(sr) << width)
}

impl Lfsr {
    pub fn default() -> (l: Self)
        ensures
            l.shift_register == SHIFT_REGISTER_INITIAL,
            l.width == 14,
    {
        Self { shift_register: SHIFT_REGISTER_INITIAL, width: 14 }
    }

    pub fn reset(&mut self)
        ensures
            final(self).shift_register == SHIFT_REGISTER_INITIAL,
            final(self).width == old(self).width,
    {
        self.shift_register = SHIFT_REGISTER_INITIAL;
    }

    /// Shifts once; the result is true when the bit shifted out was 0.
    pub fn step(&mut self) -> (high: bool)
        requires
            old(self).width < 16,
        ensures
            final(self).shift_register == shifted(old(self).shift_register, old(self).width),
            final(self).width == old(self).width,
            high == ((old(self).shift_register & 1) == 0),
    {
        let bit_0 = self.shift_register & 1 != 0;
        let bit_1 = self.shift_register & 2 != 0;
        let xor: u16 = if bit_0 != bit_1 { 1 } else { 0 };

        self.shift_register = self.shift_register >> 1u16;

        let width_bit: u16 = 1u16 << self.width;

        self.shift_register = self.shift_register & !width_bit;
        self.shift_register = self.shift_register | (xor << self.width);

        !bit_0
    }
}

/// In 15-bit mode the register never leaves its 15 bits.
pub proof fn lemma_lfsr_stays_15_bit(sr: u16)
    requires
        sr < 0x8000,
    ensures
        shifted(sr, 14) < 0x8000,
{
    let f = feedback(sr);
    assert(f <= 1);
    assert(((sr >> 1u16) & !(1u16 << 14u16)) | (f << 14u16) < 0x8000) by (bit_vector)
        requires
            sr < 0x8000,
            f <= 1,
    ;
}

} // verus!
