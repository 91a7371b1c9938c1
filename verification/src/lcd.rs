use vstd::prelude::*;

verus! {

/// An RGBA colour.
pub type Color = (u8, u8, u8, u8);

pub const LCD_WIDTH: u8 = 160;
pub const LCD_HEIGHT: u8 = 144;
/// Bytes in one RGBA frame.
pub const BUFFER_LEN: usize = 92160;

/// Whether frames are presented through a second buffer.
#[derive(Clone, Copy, Debug, PartialEq, Eq, Structural)]
pub enum SyncMode {
    DoubleBuffered,
    Immediate,
}

/// The screen: an RGBA frame being drawn and, when double buffered, the frame shown.
#[derive(Clone, Debug)]
pub struct GameboyLCD {
    pub buffer_front: Vec<u8>,
    pub buffer_back: Vec<u8>,
    pub sync_mode: SyncMode,
    pub frame: u64,
}

/// The byte offset of pixel (x, y) in a frame.
pub open spec fn pixel_offset(x: u8, y: u8) -> int {
    (y as int * 160 + x as int) * 4
}

/// The four bytes at `offset` replaced by the colour's components.
pub open spec fn with_pixel(buf: Seq<u8>, offset: int, c: Color) -> Seq<u8> {
    buf.update(offset, c.0).update(offset + 1, c.1).update(offset + 2, c.2).update(offset + 3, c.3)
}

impl GameboyLCD {
    pub open spec fn wf(&self) -> bool {
        &&& self.buffer_front@.len() == BUFFER_LEN
        &&& self.buffer_back@.len() == BUFFER_LEN
    }

    /// The pixel's bytes lie inside the frame.
    pub open spec fn in_frame(x: u8, y: u8) -> bool {
        pixel_offset(x, y) + 4 <= BUFFER_LEN
    }

    pub open spec fn spec_front(&self) -> Seq<u8> {
        match self.sync_mode {
            SyncMode::DoubleBuffered => self.buffer_front@,
            SyncMode::Immediate => self.buffer_back@,
        }
    }

    /// Both buffers filled with grey (100), not double buffered, no frame yet.
    pub fn default() -> (l: Self)
        ensures
            l.wf(),
            l.buffer_front@ == Seq::new(BUFFER_LEN as nat, |i: int| 100u8),
            l.buffer_back@ == Seq::new(BUFFER_LEN as nat, |i: int| 100u8),
            l.sync_mode == SyncMode::Immediate,
            l.frame == 0,
    {
        let buffer_front = vec![100; BUFFER_LEN];
        let buffer_back = vec![100; BUFFER_LEN];
        let l = Self { buffer_front, buffer_back, sync_mode: SyncMode::Immediate, frame: 0 };
        assert(l.buffer_front@ =~= Seq::new(BUFFER_LEN as nat, |i: int| 100u8));
        assert(l.buffer_back@ =~= Seq::new(BUFFER_LEN as nat, |i: int| 100u8));
        l
    }

    pub fn size(&self) -> (r: (u8, u8))
        ensures
            r == (160u8, 144u8),
    {
        (160, 144)
    }

    /// Writes one pixel into the frame being drawn.
    pub fn put_pixel(&mut self, x: u8, y: u8, color: Color)
        requires
            old(self).wf(),
            Self::in_frame(x, y),
        ensures
            final(self).wf(),
            final(self).buffer_back@ == with_pixel(old(self).buffer_back@, pixel_offset(x, y), color),
            final(self).buffer_front == old(self).buffer_front,
            final(self).sync_mode == old(self).sync_mode,
            final(self).frame == old(self).frame,
    {
        let (width, _) = self.size();
        let y = y as usize;
        let x = x as usize;
        let width = width as usize;
        let (r, g, b, a) = color;
        let index = (y * width + x) * 4;
        self.buffer_back.set(index, r);
        self.buffer_back.set(index + 1, g);
        self.buffer_back.set(index + 2, b);
        self.buffer_back.set(index + 3, a);
    }

    /// Ends a frame: counts it and, when double buffered, shows the drawn buffer.
    pub fn swap_buffers(&mut self)
        requires
            old(self).wf(),
            old(self).frame < u64::MAX,
        ensures
            final(self).wf(),
            final(self).frame == old(self).frame + 1,
            final(self).sync_mode == old(self).sync_mode,
            old(self).sync_mode == SyncMode::DoubleBuffered ==> final(self).buffer_front == old(self).buffer_back
                && final(self).buffer_back == old(self).buffer_front,
            old(self).sync_mode == SyncMode::Immediate ==> final(self).buffer_front == old(self).buffer_front
                && final(self).buffer_back == old(self).buffer_back,
    {
        self.frame = self.frame + 1;
        match self.sync_mode {
            SyncMode::DoubleBuffered => core::mem::swap(&mut self.buffer_front, &mut self.buffer_back),
            SyncMode::Immediate => {},
        }
    }

    /// The frame to display.
    pub fn front_buffer(&self) -> (r: &[u8])
        ensures
            r@ == self.spec_front(),
    {
        match self.sync_mode {
            SyncMode::DoubleBuffered => self.buffer_front.as_slice(),
            SyncMode::Immediate => self.buffer_back.as_slice(),
        }
    }
}

} // verus!
