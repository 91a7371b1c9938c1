use vstd::prelude::*;
use crate::bits::{wrap8, lemma_u8_facts};

verus! {

/// Which units the frame sequencer clocks on a given step.
#[derive(Clone, Copy, Debug, PartialEq, Eq, Structural)]
pub enum TickResult {
    Nothing,
    LengthCtrl,
    VolumeEnv,
    LengthCtrlAndSweep,
}

/// The 512 Hz step counter that clocks the length counters (256 Hz),
/// the sweep unit (128 Hz) and the volume envelopes (64 Hz).
#[derive(Clone, Copy, Debug, Default)]
pub struct FrameSequencer {
    pub value: u8,
}

/// The units clocked on step `value` of the eight-step cycle.
pub open spec fn step_result(value: u8) -> TickResult {
    let step = value % 8;
    if step == 0 || step == 4 {
        TickResult::LengthCtrl
    } else if step == 2 || step == 6 {
        TickResult::LengthCtrlAndSweep
    } else if step == 7 {
        TickResult::VolumeEnv
    } else {
        TickResult::Nothing
    }
}

impl FrameSequencer {
    pub open spec fn spec_tick(self) -> FrameSequencer {
        FrameSequencer { value: wrap8(self.value + 1) }
    }

    pub open spec fn spec_current_result(self) -> TickResult {
        step_result(self.value)
    }

    pub open spec fn spec_next_result(self) -> TickResult {
        step_result(wrap8(self.value + 1))
    }

    fn value_to_tick_result(value: u8) -> (r: TickResult)
        ensures
            r == step_result(value),
    {
        let step = value & 7;
        proof {
            lemma_u8_facts();
        }
        if step == 0 || step == 4 {
            TickResult::LengthCtrl
        } else if step == 2 || step == 6 {
            TickResult::LengthCtrlAndSweep
        } else if step == 7 {
            TickResult::VolumeEnv
        } else {
            TickResult::Nothing
        }
    }

    /// The units that the next tick will clock.
    pub fn next_result(&self) -> (r: TickResult)
        ensures
            r == self.spec_next_result(),
    {
        Self::value_to_tick_result(self.value.wrapping_add(1))
    }

    /// The units clocked on the current step.
    pub fn current_result(&self) -> (r: TickResult)
        ensures
            r == self.spec_current_result(),
    {
        Self::value_to_tick_result(self.value)
    }

    /// Advances one step and reports the units to clock.
    pub fn tick(&mut self) -> (r: TickResult)
        ensures
            *final(self) == old(self).spec_tick(),
            r == final(self).spec_current_result(),
    {
        self.value = self.value.wrapping_add(1);
        self.current_result()
    }
}

/// What `next_result` reports is what the following `tick` returns.
pub proof fn lemma_next_result_predicts_tick(s: FrameSequencer)
    ensures
        s.spec_next_result() == s.spec_tick().spec_current_result(),
{
}

/// The sequencer repeats every eight steps.
pub proof fn lemma_eight_step_cycle(v: u8)
    ensures
        step_result(wrap8(v + 8)) == step_result(v),
{
    assert(wrap8(v + 8) % 8 == v % 8);
}

} // verus!
