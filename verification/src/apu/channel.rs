use vstd::prelude::*;

verus! {

/// The register interface and clocks shared by the four sound channels.
/// `wf` is each channel's own well-formedness; every operation keeps it.
pub trait Channel: Sized {
    spec fn wf(&self) -> bool;

    fn write_nrx0(&mut self, value: u8)
        requires
            old(self).wf(),
        ensures
            final(self).wf(),
    ;

    fn read_nrx0(&self) -> u8
        requires
            self.wf(),
    ;

    fn write_nrx1(&mut self, value: u8)
        requires
            old(self).wf(),
        ensures
            final(self).wf(),
    ;

    fn read_nrx1(&self) -> u8
        requires
            self.wf(),
    ;

    fn write_nrx2(&mut self, value: u8)
        requires
            old(self).wf(),
        ensures
            final(self).wf(),
    ;

    fn read_nrx2(&self) -> u8
        requires
            self.wf(),
    ;

    fn write_nrx3(&mut self, value: u8)
        requires
            old(self).wf(),
        ensures
            final(self).wf(),
    ;

    fn read_nrx3(&self) -> u8
        requires
            self.wf(),
    ;

    fn write_nrx4(&mut self, value: u8)
        requires
            old(self).wf(),
        ensures
            final(self).wf(),
    ;

    fn read_nrx4(&self) -> u8
        requires
            self.wf(),
    ;

    /// One clock of the channel's frequency timer.
    fn tick(&mut self)
        requires
            old(self).wf(),
        ensures
            final(self).wf(),
    ;

    fn tick_sweep(&mut self)
        requires
            old(self).wf(),
        ensures
            final(self).wf(),
    ;

    fn tick_length_ctr(&mut self)
        requires
            old(self).wf(),
        ensures
            final(self).wf(),
    ;

    fn tick_vol_env(&mut self)
        requires
            old(self).wf(),
        ensures
            final(self).wf(),
    ;

    /// The digital output level, 0..=15.
    fn sample(&self) -> (s: u8)
        requires
            self.wf(),
        ensures
            s <= 15,
    ;

    fn enabled(&self) -> bool;

    /// The state the channel returns to when the sound unit is powered off.
    fn reset(&mut self)
        requires
            old(self).wf(),
        ensures
            final(self).wf(),
    ;
}

} // verus!
