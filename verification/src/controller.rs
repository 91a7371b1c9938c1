use vstd::prelude::*;
use crate::io_registers::spec_read_joyp;

verus! {

/// Which buttons are held.
#[derive(Clone, Copy, Debug, Default)]
pub struct ControllerState {
    pub a: bool,
    pub b: bool,
    pub select: bool,
    pub start: bool,
    pub right: bool,
    pub left: bool,
    pub up: bool,
    pub down: bool,
}

pub open spec fn bit(pressed: bool, index: u8) -> u8 {
    if pressed {
        (1u8 << index) as u8
    } else {
        0
    }
}

fn bit_of(pressed: bool, index: u8) -> (r: u8)
    requires
        index < 8,
    ensures
        r == bit(pressed, index),
{
    if pressed {
        1u8 << index
    } else {
        0
    }
}

impl ControllerState {
    /// One bit per held button: A, B, Select, Start, Right, Left, Up, Down from bit 0.
    pub open spec fn pressed_bits(self) -> u8 {
        bit(self.a, 0) | bit(self.b, 1) | bit(self.select, 2) | bit(self.start, 3) | bit(self.right, 4) | bit(
            self.left,
            5,
        ) | bit(self.up, 6) | bit(self.down, 7)
    }

    /// The joypad byte: active low, a held button reads as 0.
    pub open spec fn spec_as_byte(self) -> u8 {
        !self.pressed_bits()
    }

    pub open spec fn spec_bitor(self, rhs: ControllerState) -> ControllerState {
        ControllerState {
            a: self.a || rhs.a,
            b: self.b || rhs.b,
            select: self.select || rhs.select,
            start: self.start || rhs.start,
            right: self.right || rhs.right,
            left: self.left || rhs.left,
            up: self.up || rhs.up,
            down: self.down || rhs.down,
        }
    }

    /// Merges another input source: a button is held if it is held in either.
    pub fn bitor_assign(&mut self, rhs: Self)
        ensures
            *final(self) == old(self).spec_bitor(rhs),
    {
        self.a = self.a || rhs.a;
        self.b = self.b || rhs.b;
        self.select = self.select || rhs.select;
        self.start = self.start || rhs.start;
        self.right = self.right || rhs.right;
        self.left = self.left || rhs.left;
        self.up = self.up || rhs.up;
        self.down = self.down || rhs.down;
    }

    pub fn as_byte(&self) -> (r: u8)
        ensures
            r == self.spec_as_byte(),
    {
        let pressed = bit_of(self.a, 0) | bit_of(self.b, 1) | bit_of(self.select, 2) | bit_of(self.start, 3)
            | bit_of(self.right, 4) | bit_of(self.left, 5) | bit_of(self.up, 6) | bit_of(self.down, 7);
        !pressed
    }
}

/// Merging two input sources presses a button in the merged joypad byte exactly
/// when it is pressed in either: the active-low bytes combine with AND.
pub proof fn lemma_merge_is_and(x: ControllerState, y: ControllerState)
    ensures
        x.spec_bitor(y).spec_as_byte() == x.spec_as_byte() & y.spec_as_byte(),
{
    let px = x.pressed_bits();
    let py = y.pressed_bits();
    assert(x.spec_bitor(y).pressed_bits() == px | py) by {
        assert forall|p: bool, q: bool, i: u8| i < 8 implies bit(p || q, i) == bit(p, i) | bit(q, i) by {
            let m = (1u8 << i) as u8;
            assert(m | m == m && m | 0u8 == m && 0u8 | m == m && 0u8 | 0u8 == 0u8) by (bit_vector);
        }
        let a = bit(x.a, 0);
        let b = bit(x.b, 1);
        let c = bit(x.select, 2);
        let d = bit(x.start, 3);
        let e = bit(x.right, 4);
        let f = bit(x.left, 5);
        let g = bit(x.up, 6);
        let h = bit(x.down, 7);
        let a2 = bit(y.a, 0);
        let b2 = bit(y.b, 1);
        let c2 = bit(y.select, 2);
        let d2 = bit(y.start, 3);
        let e2 = bit(y.right, 4);
        let f2 = bit(y.left, 5);
        let g2 = bit(y.up, 6);
        let h2 = bit(y.down, 7);
        assert((a | a2) | (b | b2) | (c | c2) | (d | d2) | (e | e2) | (f | f2) | (g | g2) | (h | h2) == (a | b | c | d
            | e | f | g | h) | (a2 | b2 | c2 | d2 | e2 | f2 | g2 | h2)) by (bit_vector);
    }
    assert(!(px | py) == !px & !py) by (bit_vector);
}

/// Reading JOYP after the controller state is latched: with the button lines
/// selected (bit 4) the low four bits are A, B, Select, Start, with the direction
/// lines selected (bit 5) Right, Left, Up, Down; a held button reads as 0.
pub proof fn lemma_joypad_lines(c: ControllerState)
    ensures
        (spec_read_joyp(0x10, c.spec_as_byte()) & 0x01 == 0) == c.a,
        (spec_read_joyp(0x10, c.spec_as_byte()) & 0x02 == 0) == c.b,
        (spec_read_joyp(0x10, c.spec_as_byte()) & 0x04 == 0) == c.select,
        (spec_read_joyp(0x10, c.spec_as_byte()) & 0x08 == 0) == c.start,
        (spec_read_joyp(0x20, c.spec_as_byte()) & 0x01 == 0) == c.right,
        (spec_read_joyp(0x20, c.spec_as_byte()) & 0x02 == 0) == c.left,
        (spec_read_joyp(0x20, c.spec_as_byte()) & 0x04 == 0) == c.up,
        (spec_read_joyp(0x20, c.spec_as_byte()) & 0x08 == 0) == c.down,
{
    let (a, b, s, t, r, l, u, d) = (c.a, c.b, c.select, c.start, c.right, c.left, c.up, c.down);
    let x = c.spec_as_byte();
    assert(x == !(bit(a, 0) | bit(b, 1) | bit(s, 2) | bit(t, 3) | bit(r, 4) | bit(l, 5) | bit(u, 6) | bit(d, 7)));
    let lo = (x & 0x0F) | 0xC0;
    let hi = ((x >> 4u8) & 0x0F) | 0xC0;
    assert(spec_read_joyp(0x10, x) == lo) by (bit_vector)
        requires
            lo == (x & 0x0F) | 0xC0,
    ;
    assert(spec_read_joyp(0x20, x) == hi) by (bit_vector)
        requires
            hi == ((x >> 4u8) & 0x0F) | 0xC0,
    ;
    assert({
        &&& (lo & 0x01 == 0) == a
        &&& (lo & 0x02 == 0) == b
        &&& (lo & 0x04 == 0) == s
        &&& (lo & 0x08 == 0) == t
        &&& (hi & 0x01 == 0) == r
        &&& (hi & 0x02 == 0) == l
        &&& (hi & 0x04 == 0) == u
        &&& (hi & 0x08 == 0) == d
    }) by (bit_vector)
        requires
            x == !(bit(a, 0) | bit(b, 1) | bit(s, 2) | bit(t, 3) | bit(r, 4) | bit(l, 5) | bit(u, 6) | bit(d, 7)),
            lo == (x & 0x0F) | 0xC0,
            hi == ((x >> 4u8) & 0x0F) | 0xC0,
    ;
}

} // verus!
