use vstd::prelude::*;
use crate::cgb::Speed;
use crate::ppu::PPUMode;
use vstd::std_specs::cmp::PartialEqSpec;

verus! {

/// Something that happened in the emulated machine; `I` is the decoded instruction type.
#[derive(Debug, Clone)]
pub enum Event<I> {
    UpdatePC(u16),
    ExecInstruction(I),
    PPUEnterMode(PPUMode),
    WriteMem(u16, u8),
    ReadMem(u16),
    Error(String),
    Warn(String),
    Info(String),
    Debug(String),
    Trace(String),
    SpeedSwitch(Speed),
}

/// A condition that stops the machine when an event meets it.
#[derive(Debug, Clone)]
pub enum Breakpoint<I> {
    Addr(u16),
    PPUEnterMode(PPUMode),
    ExecInstruction(I),
    PPUModeChange,
    WriteMem(u16),
    ReadMem(u16),
    SpeedSwitch(Speed),
}

/// Two breakpoints are the same: same kind and same operand, instructions compared
/// by their own equality.
pub open spec fn same_breakpoint<I: PartialEq>(a: Breakpoint<I>, b: Breakpoint<I>) -> bool {
    match (a, b) {
        (Breakpoint::Addr(x), Breakpoint::Addr(y)) => x == y,
        (Breakpoint::PPUEnterMode(x), Breakpoint::PPUEnterMode(y)) => x == y,
        (Breakpoint::ExecInstruction(x), Breakpoint::ExecInstruction(y)) => x.eq_spec(&y),
        (Breakpoint::PPUModeChange, Breakpoint::PPUModeChange) => true,
        (Breakpoint::WriteMem(x), Breakpoint::WriteMem(y)) => x == y,
        (Breakpoint::ReadMem(x), Breakpoint::ReadMem(y)) => x == y,
        (Breakpoint::SpeedSwitch(x), Breakpoint::SpeedSwitch(y)) => x == y,
        _ => false,
    }
}

impl<I: PartialEq> PartialEq for Breakpoint<I> {
    fn eq(&self, other: &Self) -> (r: bool) {
        match (self, other) {
            (Breakpoint::Addr(x), Breakpoint::Addr(y)) => *x == *y,
            (Breakpoint::PPUEnterMode(x), Breakpoint::PPUEnterMode(y)) => *x == *y,
            (Breakpoint::ExecInstruction(x), Breakpoint::ExecInstruction(y)) => x.eq(y),
            (Breakpoint::PPUModeChange, Breakpoint::PPUModeChange) => true,
            (Breakpoint::WriteMem(x), Breakpoint::WriteMem(y)) => *x == *y,
            (Breakpoint::ReadMem(x), Breakpoint::ReadMem(y)) => *x == *y,
            (Breakpoint::SpeedSwitch(x), Breakpoint::SpeedSwitch(y)) => *x == *y,
            _ => false,
        }
    }
}

impl<I: PartialEq> vstd::std_specs::cmp::PartialEqSpecImpl for Breakpoint<I> {
    open spec fn obeys_eq_spec() -> bool {
        I::obeys_eq_spec()
    }

    open spec fn eq_spec(&self, other: &Breakpoint<I>) -> bool {
        same_breakpoint(*self, *other)
    }
}

impl<I> Breakpoint<I> {
    /// Whether `event` meets the breakpoint. Instruction breakpoints are not matched
    /// by this function.
    pub open spec fn spec_break_on(self, event: Event<I>) -> bool {
        match self {
            Breakpoint::Addr(a) => event matches Event::UpdatePC(pc) && pc == a,
            Breakpoint::PPUEnterMode(m) => event matches Event::PPUEnterMode(mode) && mode == m,
            Breakpoint::PPUModeChange => event is PPUEnterMode,
            Breakpoint::ReadMem(a) => event matches Event::ReadMem(addr) && addr == a,
            Breakpoint::WriteMem(a) => event matches Event::WriteMem(addr, _) && addr == a,
            Breakpoint::SpeedSwitch(_) => event is SpeedSwitch,
            Breakpoint::ExecInstruction(_) => false,
        }
    }

    /// Whether `event` meets the breakpoint. A speed-switch breakpoint stops on any
    /// switch, whatever speed it names.
    pub fn break_on(&self, event: &Event<I>) -> (r: bool)
        requires
            !(self is ExecInstruction),
        ensures
            r == self.spec_break_on(*event),
    {
        match self {
            Breakpoint::Addr(br_addr) => match event {
                Event::UpdatePC(addr) => *addr == *br_addr,
                _ => false,
            },
            Breakpoint::PPUEnterMode(br_mode) => match event {
                Event::PPUEnterMode(mode) => *mode == *br_mode,
                _ => false,
            },
            Breakpoint::PPUModeChange => match event {
                Event::PPUEnterMode(_) => true,
                _ => false,
            },
            Breakpoint::ReadMem(br_addr) => match event {
                Event::ReadMem(addr) => *addr == *br_addr,
                _ => false,
            },
            Breakpoint::WriteMem(br_addr) => match event {
                Event::WriteMem(addr, _) => *addr == *br_addr,
                _ => false,
            },
            Breakpoint::SpeedSwitch(_) => match event {
                Event::SpeedSwitch(_) => true,
                _ => false,
            },
            Breakpoint::ExecInstruction(_) => false,
        }
    }
}

/// The debugger: its breakpoints, the events recorded since the last stop, and
/// whether the machine is running.
pub struct DebuggerState<I> {
    pub breakpoints: Vec<Breakpoint<I>>,
    pub events: Vec<Event<I>>,
    pub running: bool,
}

/// Some breakpoint of `bps` stops on `event`.
pub open spec fn hits<I>(bps: Seq<Breakpoint<I>>, event: Event<I>) -> bool {
    exists|i: int| 0 <= i < bps.len() && #[trigger] bps[i].spec_break_on(event)
}

/// The breakpoints are checked in order up to the first that stops on `event`; an
/// instruction breakpoint reached on the way cannot be checked.
pub open spec fn checkable<I>(bps: Seq<Breakpoint<I>>, event: Event<I>) -> bool {
    forall|i: int|
        0 <= i < bps.len() && #[trigger] bps[i] is ExecInstruction ==> exists|j: int|
            0 <= j < i && #[trigger] bps[j].spec_break_on(event)
}

impl<I> Default for DebuggerState<I> {
    fn default() -> (s: Self)
        ensures
            s.breakpoints@.len() == 0,
            s.events@.len() == 0,
            !s.running,
    {
        DebuggerState { breakpoints: Vec::new(), events: Vec::new(), running: false }
    }
}

impl<I> DebuggerState<I> {
    /// Records `event`. When a breakpoint stops on it, the machine stops and the
    /// record restarts with this event.
    pub fn emit(&mut self, event: Event<I>)
        requires
            checkable(old(self).breakpoints@, event),
        ensures
            final(self).breakpoints@ == old(self).breakpoints@,
            hits(old(self).breakpoints@, event) ==> !final(self).running && final(self).events@ == seq![event],
            !hits(old(self).breakpoints@, event) ==> final(self).running == old(self).running
                && final(self).events@ == old(self).events@.push(event),
    {
        let mut i: usize = 0;
        let mut hit = false;
        while i < self.breakpoints.len()
            invariant_except_break
                i <= self.breakpoints@.len(),
                !hit,
                forall|j: int| 0 <= j < i ==> !#[trigger] self.breakpoints@[j].spec_break_on(event),
            invariant
                self.breakpoints@ == old(self).breakpoints@,
                self.events@ == old(self).events@,
                self.running == old(self).running,
                checkable(self.breakpoints@, event),
            ensures
                hit <==> hits(self.breakpoints@, event),
            decreases self.breakpoints@.len() - i,
        {
            proof {
                if self.breakpoints@[i as int] is ExecInstruction {
                    let j = choose|j: int| 0 <= j < i && #[trigger] self.breakpoints@[j].spec_break_on(event);
                    assert(!self.breakpoints@[j].spec_break_on(event));
                }
            }
            if self.breakpoints[i].break_on(&event) {
                hit = true;
                break;
            }
            i += 1;
        }
        if hit {
            self.running = false;
            self.events.clear();
        }
        self.events.push(event);
        proof {
            if hit {
                assert(self.events@ =~= seq![event]);
            }
        }
    }

    pub fn add_breakpoint(&mut self, breakpoint: Breakpoint<I>)
        ensures
            final(self).breakpoints@ == old(self).breakpoints@.push(breakpoint),
            final(self).events@ == old(self).events@,
            final(self).running == old(self).running,
    {
        self.breakpoints.push(breakpoint);
    }
}

impl<I: PartialEq> DebuggerState<I> {
    /// Removes every breakpoint equal to `breakpoint`, keeping the others in order.
    pub fn remove_breakpoint(&mut self, breakpoint: Breakpoint<I>)
        ensures
            I::obeys_eq_spec() ==> final(self).breakpoints@ == old(self).breakpoints@.filter(
                |b: Breakpoint<I>| !same_breakpoint(b, breakpoint),
            ),
            final(self).events@ == old(self).events@,
            final(self).running == old(self).running,
    {
        let ghost keep = |b: Breakpoint<I>| !same_breakpoint(b, breakpoint);
        let ghost orig = self.breakpoints@;
        let mut rest: Vec<Breakpoint<I>> = Vec::new();
        core::mem::swap(&mut rest, &mut self.breakpoints);
        let mut kept: Vec<Breakpoint<I>> = Vec::new();
        proof {
            assert(orig.take(0) =~= Seq::<Breakpoint<I>>::empty());
            reveal(Seq::filter);
            assert(orig.take(0).filter(keep) =~= Seq::<Breakpoint<I>>::empty());
            assert(orig.skip(0) =~= orig);
        }
        while rest.len() > 0
            invariant
                rest@.len() <= orig.len(),
                rest@ == orig.skip(orig.len() - rest@.len()),
                I::obeys_eq_spec() ==> kept@ == orig.take(orig.len() - rest@.len()).filter(keep),
                self.events@ == old(self).events@,
                self.running == old(self).running,
                keep == (|b: Breakpoint<I>| !same_breakpoint(b, breakpoint)),
            decreases rest@.len(),
        {
            let ghost k = orig.len() - rest@.len();
            let b = rest.remove(0);
            proof {
                assert(b == orig[k]);
                assert(rest@ =~= orig.skip(k + 1));
                assert(orig.take(k + 1).drop_last() =~= orig.take(k));
                reveal(Seq::filter);
            }
            if !(b == breakpoint) {
                kept.push(b);
            }
        }
        proof {
            assert(orig.take(orig.len() as int) =~= orig);
        }
        self.breakpoints = kept;
    }
}

} // verus!
