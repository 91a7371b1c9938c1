use vstd::prelude::*;
use crate::bits::lemma_u16_facts;

verus! {

/// The number of bytes an OAM DMA copies.
pub const OAM_SIZE: u16 = 160;

/// The object-attribute-memory DMA engine (register DMA, 0xFF46).
#[derive(Clone, Copy, Debug, Default)]
pub struct OamDmaState {
    pub start_delay: u32,
    pub dma_cycle: u16,
    pub dma_active: bool,
    pub dma_addr: u16,
}

impl OamDmaState {
    pub open spec fn wf(self) -> bool {
        &&& self.dma_addr <= 0xDF00
        &&& self.dma_cycle <= OAM_SIZE
    }

    /// The source page for a DMA register value; pages above 0xDF mirror work RAM.
    pub open spec fn source_page(value: u8) -> u16 {
        ((if value > 0xDF { value - 0x20 } else { value as int }) * 256) as u16
    }

    /// One M-cycle: the next state, and the (source address, OAM index) of the byte
    /// to copy in this cycle, if any.
    pub open spec fn spec_step(self) -> (OamDmaState, Option<(u16, u16)>) {
        if self.start_delay > 0 {
            let d = (self.start_delay - 1) as u32;
            if d == 0 {
                (OamDmaState { start_delay: d, dma_active: true, dma_cycle: 0, ..self }, None)
            } else {
                (OamDmaState { start_delay: d, ..self }, None)
            }
        } else if self.dma_active && self.dma_cycle < OAM_SIZE {
            let c = (self.dma_cycle + 1) as u16;
            (
                OamDmaState { dma_cycle: c, dma_active: c != OAM_SIZE, ..self },
                Some(((self.dma_addr + self.dma_cycle) as u16, self.dma_cycle)),
            )
        } else {
            (self, None)
        }
    }

    /// The state after `n` cycles.
    pub open spec fn stepped(self, n: nat) -> OamDmaState
        decreases n,
    {
        if n == 0 {
            self
        } else {
            self.spec_step().0.stepped((n - 1) as nat)
        }
    }

    pub fn default() -> (s: Self)
        ensures
            s == (OamDmaState { start_delay: 0, dma_cycle: 0, dma_active: false, dma_addr: 0 }),
            s.wf(),
    {
        Self { start_delay: 0, dma_cycle: 0, dma_active: false, dma_addr: 0 }
    }

    /// A write to the DMA register: the copy from page `value` starts after two cycles.
    pub fn start_oam_dma(&mut self, value: u8)
        ensures
            *final(self) == (OamDmaState { dma_addr: Self::source_page(value), start_delay: 2, ..*old(self) }),
    {
        let value = if value > 0xDF { value - 0x20 } else { value };
        let real_addr = (value as u16) << 8u16;
        proof {
            lemma_u16_facts();
        }
        self.dma_addr = real_addr;
        self.start_delay = 2;
    }

    /// OAM is blocked for the CPU while a copy runs.
    pub fn oam_is_accessible(&self) -> (r: bool)
        ensures
            r == !self.dma_active,
    {
        !self.dma_active
    }

    /// Advances one M-cycle. When a byte is due, returns its source address and its
    /// index in OAM; the caller performs the copy.
    pub fn step(&mut self) -> (r: Option<(u16, u16)>)
        requires
            old(self).wf(),
        ensures
            (*final(self), r) == old(self).spec_step(),
            final(self).wf(),
    {
        if self.start_delay > 0 {
            self.start_delay = self.start_delay - 1;
            if self.start_delay == 0 {
                self.dma_active = true;
                self.dma_cycle = 0;
            }
            None
        } else if self.dma_active && self.dma_cycle < OAM_SIZE {
            let r = (self.dma_addr + self.dma_cycle, self.dma_cycle);
            self.dma_cycle = self.dma_cycle + 1;
            if self.dma_cycle == OAM_SIZE {
                self.dma_active = false;
            }
            Some(r)
        } else {
            None
        }
    }
}

/// Once started, a copy runs for 160 cycles: cycle `i` copies byte `i` of the source
/// page to OAM entry `i`, and OAM is blocked until the last byte is copied.
pub proof fn lemma_oam_copy(s: OamDmaState, i: nat)
    requires
        s.wf(),
        s.start_delay == 0,
        s.dma_active,
        s.dma_cycle == 0,
        i < OAM_SIZE,
    ensures
        s.stepped(i).dma_cycle == i,
        s.stepped(i).dma_addr == s.dma_addr,
        s.stepped(i).start_delay == 0,
        s.stepped(i).dma_active,
        s.stepped(i).spec_step().1 == Some(((s.dma_addr + i) as u16, i as u16)),
        s.stepped(i + 1).dma_active == (i + 1 < OAM_SIZE),
    decreases i,
{
    if i > 0 {
        lemma_oam_copy(s, (i - 1) as nat);
        lemma_stepped_split(s, (i - 1) as nat);
        lemma_stepped_split(s, i);
    } else {
        lemma_stepped_split(s, 0);
    }
}

proof fn lemma_stepped_split(s: OamDmaState, n: nat)
    ensures
        s.stepped(n + 1) == s.stepped(n).spec_step().0,
    decreases n,
{
    let s1 = s.spec_step().0;
    assert(s.stepped(n + 1) == s1.stepped(n));
    if n > 0 {
        lemma_stepped_split(s1, (n - 1) as nat);
        assert(s.stepped(n) == s1.stepped((n - 1) as nat));
    }
}

/// A write to the DMA register starts the copy after exactly two cycles.
pub proof fn lemma_oam_start_delay(s: OamDmaState, value: u8)
    ensures
        ({
            let t = OamDmaState { dma_addr: OamDmaState::source_page(value), start_delay: 2, ..s };
            &&& t.stepped(2).dma_active
            &&& t.stepped(2).dma_cycle == 0
            &&& t.stepped(2).start_delay == 0
            &&& t.spec_step().1 is None
        }),
{
    let t = OamDmaState { dma_addr: OamDmaState::source_page(value), start_delay: 2, ..s };
    lemma_stepped_split(t, 0);
    lemma_stepped_split(t, 1);
}

} // verus!
