use vstd::prelude::*;

verus! {

pub const BIT_0: u8 = 0x01;
pub const BIT_1: u8 = 0x02;
pub const BIT_2: u8 = 0x04;
pub const BIT_3: u8 = 0x08;
pub const BIT_4: u8 = 0x10;
pub const BIT_5: u8 = 0x20;
pub const BIT_6: u8 = 0x40;
pub const BIT_7: u8 = 0x80;

/// `x` reduced modulo 256: what an 8-bit register holds after wrapping arithmetic.
pub open spec fn wrap8(x: int) -> u8 {
    (x % 256) as u8
}

/// `x` reduced modulo 65536: what a 16-bit register holds after wrapping arithmetic.
pub open spec fn wrap16(x: int) -> u16 {
    (x % 65536) as u16
}

/// True when the bits selected by `mask` are set in `prev` and clear in `current`.
pub open spec fn spec_falling_edge(prev: u8, current: u8, mask: u8) -> bool {
    (prev & mask) != 0 && (current & mask) == 0
}

/// Detects a falling edge of the bits selected by `mask` between two samples of a register.
pub fn falling_edge(prev: u8, current: u8, mask: u8) -> (r: bool)
    ensures
        r == spec_falling_edge(prev, current, mask),
{
    (prev & mask) != 0 && (current & mask) == 0
}

/// Byte identities the register logic relies on.
pub proof fn lemma_u8_facts()
    by (bit_vector)
    ensures
        forall|x: u8| #[trigger] (x & 7u8) == x % 8,
        forall|x: u8| #[trigger] (x & 63u8) == x % 64,
        forall|x: u8| #[trigger] (x & 1u8) == x % 2,
        forall|x: u8| #[trigger] (x & 0x7Fu8) <= 0x7F,
        forall|x: u8| (#[trigger] (x & 0x80u8) == 0) <==> x < 0x80,
        forall|x: u8| #[trigger] (x | 0u8) == x,
        forall|x: u8| #[trigger] (0u8 | x) == x,
        forall|x: u8| #[trigger] (x >> 0u8) == x,
        forall|x: u8| #[trigger] ((x >> 4u8) & 0x0Fu8) < 16,
        forall|x: u8| #[trigger] (x >> 3u8) < 32,
        forall|h: u8, l: u8, b: u8| b < 8 ==> #[trigger] ((((h >> b) & 1u8) << 1u8) | ((l >> b) & 1u8)) < 4,
{
}

/// 16-bit identities the register logic relies on.
pub proof fn lemma_u16_facts()
    by (bit_vector)
    ensures
        forall|f: u16, v: u8| f <= 0x7FF ==> #[trigger] ((f & 0x0700u16) | (v as u16)) <= 0x7FF,
        forall|f: u16, m: u16| m <= 7 ==> #[trigger] ((f & 0x00FFu16) | (m << 8u16)) <= 0x7FF,
        forall|x: u16| #[trigger] (x << 0u16) == x,
        forall|x: u16, s: u16| #[trigger] (x >> s) <= x,
        forall|v: u16| v <= 0xFF ==> #[trigger] (v << 8u16) == v * 256,
{
}

/// Index identities for indices below 64.
pub proof fn lemma_usize_facts()
    by (bit_vector)
    ensures
        forall|i: usize| i < 64 ==> #[trigger] (i >> 1usize) == i / 2,
        forall|i: usize| i < 64 ==> #[trigger] (i & 1usize) == i % 2,
        forall|i: usize| #[trigger] (i & 63usize) == i % 64,
{
}

} // verus!
