use vstd::prelude::*;
use crate::bits::{wrap8, lemma_u8_facts, BIT_7};

verus! {

/// A copy of `rows` 16-byte rows from `from` to `to` that the caller must perform.
#[derive(Clone, Copy, Debug, PartialEq, Eq, Structural)]
pub struct DMATransferRequest {
    pub from: u16,
    pub to: u16,
    pub rows: u16,
}

/// The Game Boy Color VRAM DMA engine (HDMA1-HDMA5).
#[derive(Clone, Copy, Debug)]
pub struct DMAController {
    pub source: u16,
    pub destination: u16,
    pub hdma5: u8,
}

#[derive(Clone, Copy, Debug, PartialEq, Eq, Structural)]
pub enum TransferMode {
    GeneralPurpose,
    HBlank,
}

impl DMAController {
    /// An HBlank transfer is under way (bit 7 of HDMA5 clear).
    pub open spec fn hblank_active(self) -> bool {
        self.hdma5 & BIT_7 == 0
    }

    /// The rows a write of `value` to HDMA5 asks for.
    pub open spec fn rows_of(value: u8) -> u16 {
        ((value & 0x7F) + 1) as u16
    }

    /// A general-purpose transfer started by `value` fits the 16-bit address space.
    pub open spec fn transfer_fits(self, value: u8) -> bool {
        &&& self.source + Self::rows_of(value) * 16 <= u16::MAX
        &&& self.destination + Self::rows_of(value) * 16 <= u16::MAX
    }

    pub open spec fn spec_write_hdma5(self, value: u8) -> (DMAController, Option<DMATransferRequest>) {
        if self.hblank_active() && value & BIT_7 == 0 {
            (DMAController { hdma5: self.hdma5 | 0x80, ..self }, None)
        } else if value & BIT_7 == 0 {
            let rows = Self::rows_of(value);
            (
                DMAController {
                    hdma5: 0xFF,
                    source: (self.source + rows * 16) as u16,
                    destination: (self.destination + rows * 16) as u16,
                },
                Some(DMATransferRequest { from: self.source, to: self.destination, rows }),
            )
        } else {
            (DMAController { hdma5: value & 0x7F, ..self }, None)
        }
    }

    pub open spec fn spec_step(self) -> (DMAController, Option<DMATransferRequest>) {
        if self.hblank_active() {
            (
                DMAController {
                    source: (self.source + 0x10) as u16,
                    destination: (self.destination + 0x10) as u16,
                    hdma5: wrap8(self.hdma5 - 1),
                },
                Some(DMATransferRequest { from: self.source, to: self.destination, rows: 1 }),
            )
        } else {
            (self, None)
        }
    }

    /// The engine after `n` HBlank steps.
    pub open spec fn stepped(self, n: nat) -> DMAController
        decreases n,
    {
        if n == 0 {
            self
        } else {
            self.spec_step().0.stepped((n - 1) as nat)
        }
    }

    pub fn default() -> (d: Self)
        ensures
            d.source == 0,
            d.destination == 0,
            d.hdma5 == 0xFF,
    {
        Self { source: 0, destination: 0, hdma5: 0xFF }
    }

    pub fn write_source_high(&mut self, value: u8)
        ensures
            *final(self) == (DMAController { source: (old(self).source & 0x00FF) | ((value as u16) << 8u16), ..*old(self) }),
    {
        self.source = self.source & 0x00FF;
        self.source = self.source | ((value as u16) << 8u16);
    }

    /// The low four bits of the source are ignored.
    pub fn write_source_low(&mut self, value: u8)
        ensures
            *final(self) == (DMAController { source: (old(self).source & 0xFF00) | ((value & 0xF0) as u16), ..*old(self) }),
    {
        self.source = self.source & 0xFF00;
        self.source = self.source | ((value & 0xF0) as u16);
    }

    /// The destination always lies in VRAM (0x8000-0x9FF0).
    pub fn write_destination_high(&mut self, value: u8)
        ensures
            *final(self) == (DMAController {
                destination: (old(self).destination & 0x00FF) | ((((value & 0x1F) as u16) << 8u16) | 0x8000),
                ..*old(self)
            }),
    {
        self.destination = self.destination & 0x00FF;
        self.destination = self.destination | ((((value & 0x1F) as u16) << 8u16) | 0x8000);
    }

    pub fn write_destination_low(&mut self, value: u8)
        ensures
            *final(self) == (DMAController {
                destination: (old(self).destination & 0xFF00) | ((value & 0xF0) as u16),
                ..*old(self)
            }),
    {
        self.destination = self.destination & 0xFF00;
        self.destination = self.destination | ((value & 0xF0) as u16);
    }

    pub fn read_hdma5(&self) -> (r: u8)
        ensures
            r == self.hdma5,
    {
        self.hdma5
    }

    pub fn get_source(&self) -> (r: u16)
        ensures
            r == self.source,
    {
        self.source
    }

    pub fn get_destination(&self) -> (r: u16)
        ensures
            r == self.destination,
    {
        self.destination
    }

    /// HDMA5 write. Bit 7 clear while an HBlank transfer runs pauses it; bit 7 clear
    /// otherwise asks for a general-purpose transfer of all rows at once; bit 7 set
    /// arms an HBlank transfer of `(value & 0x7F) + 1` rows.
    pub fn write_hdma5(&mut self, value: u8) -> (r: Option<DMATransferRequest>)
        requires
            !(old(self).hblank_active() && value & BIT_7 == 0) && value & BIT_7 == 0 ==> old(self).transfer_fits(value),
        ensures
            (*final(self), r) == old(self).spec_write_hdma5(value),
    {
        let transfer_active = self.hdma5 & BIT_7 == 0;
        if transfer_active && value & BIT_7 == 0 {
            self.hdma5 = self.hdma5 | 0x80;
            return None;
        }
        if value & BIT_7 == 0 {
            proof {
                lemma_u8_facts();
            }
            let rows = ((value & 0x7F) as u16) + 1;
            let req = Some(DMATransferRequest { from: self.get_source(), to: self.get_destination(), rows });
            self.hdma5 = 0xFF;
            self.source = self.source + rows * 16;
            self.destination = self.destination + rows * 16;
            req
        } else {
            let rows = value & 0x7F;
            self.hdma5 = rows;
            None
        }
    }

    /// One HBlank: while an HBlank transfer runs, asks for one row and advances.
    pub fn step(&mut self) -> (r: Option<DMATransferRequest>)
        requires
            old(self).hblank_active() ==> old(self).source + 0x10 <= u16::MAX && old(self).destination + 0x10 <= u16::MAX,
        ensures
            (*final(self), r) == old(self).spec_step(),
    {
        if self.hdma5 & BIT_7 == 0 {
            let request = DMATransferRequest { from: self.get_source(), to: self.get_destination(), rows: 1 };
            self.source = self.source + 0x10;
            self.destination = self.destination + 0x10;
            self.hdma5 = self.hdma5.wrapping_sub(1);
            Some(request)
        } else {
            None
        }
    }
}

/// An HBlank transfer armed with `n` (HDMA5 = n, n < 0x80) copies one row at each of the
/// next `n + 1` HBlanks, at consecutive 16-byte addresses, and then stops.
pub proof fn lemma_hblank_transfer_rows(d: DMAController, k: nat)
    requires
        d.hdma5 < 0x80,
        k <= d.hdma5 + 1,
        d.source + 16 * (d.hdma5 + 1) <= u16::MAX,
        d.destination + 16 * (d.hdma5 + 1) <= u16::MAX,
    ensures
        d.stepped(k).source == d.source + 16 * k,
        d.stepped(k).destination == d.destination + 16 * k,
        k <= d.hdma5 ==> d.stepped(k).hdma5 == d.hdma5 - k,
        k <= d.hdma5 ==> d.stepped(k).spec_step().1 == Some(
            DMATransferRequest { from: (d.source + 16 * k) as u16, to: (d.destination + 16 * k) as u16, rows: 1 },
        ),
        k == d.hdma5 + 1 ==> d.stepped(k).hdma5 == 0xFF && d.stepped(k).spec_step().1 is None,
    decreases k,
{
    lemma_bit7(d.hdma5);
    if k > 0 {
        let next = d.spec_step().0;
        if d.hdma5 == 0 {
            assert(next.hdma5 == 0xFF);
            lemma_bit7(0xFF);
        } else {
            lemma_hblank_transfer_rows(next, (k - 1) as nat);
        }
    }
    lemma_bit7(d.stepped(k).hdma5);
}

/// Bit 7 of a byte is clear exactly when the byte is below 0x80.
pub proof fn lemma_bit7(h: u8)
    ensures
        (h & BIT_7 == 0) <==> h < 0x80,
{
    lemma_u8_facts();
}

} // verus!
