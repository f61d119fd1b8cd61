use vstd::prelude::*;
use crate::cpu::{Cpu, CpuView, Interrupt};

verus! {

/// What a host loop needs of a processor core: the halt latch, the
/// interrupt flag, posting an interrupt request, and stepping.
pub trait Runtime {
    spec fn inv(&self) -> bool;

    fn halted_get(&mut self) -> (r: bool)
        requires
            old(self).inv(),
        ensures
            final(self).inv(),
    ;

    fn halted_set(&mut self, halted: bool)
        requires
            old(self).inv(),
        ensures
            final(self).inv(),
    ;

    fn flag_interrupt_get(&mut self) -> (r: bool)
        requires
            old(self).inv(),
        ensures
            final(self).inv(),
    ;

    fn flag_interrupt_set(&mut self, flag_interrupt: bool)
        requires
            old(self).inv(),
        ensures
            final(self).inv(),
    ;

    fn raise(&mut self, vector: u16)
        requires
            old(self).inv(),
        ensures
            final(self).inv(),
    ;

    fn step(&mut self)
        requires
            old(self).inv(),
        ensures
            final(self).inv(),
    ;
}

impl Runtime for Cpu {
    open spec fn inv(&self) -> bool {
        self.wf()
    }

    fn halted_get(&mut self) -> (r: bool)
        ensures
            r == old(self).halted,
            *final(self) == *old(self),
    {
        self.halted
    }

    fn halted_set(&mut self, halted: bool)
        ensures
            final(self)@ == (CpuView { halted, ..old(self)@ }),
    {
        self.halted = halted;
    }

    fn flag_interrupt_get(&mut self) -> (r: bool)
        ensures
            r == old(self).flag.interrupt,
            *final(self) == *old(self),
    {
        self.flag.interrupt
    }

    fn flag_interrupt_set(&mut self, flag_interrupt: bool)
        ensures
            final(self)@ == (CpuView { flag: crate::alu::Flag { interrupt: flag_interrupt, ..old(self)@.flag }, ..old(self)@ }),
    {
        self.flag.interrupt = flag_interrupt;
    }

    /// Posts a device's request on vector `vector` (its low byte).
    fn raise(&mut self, vector: u16)
        ensures
            final(self)@ == (CpuView { next_interrupt: Some(vector as u8), ..old(self)@ }),
    {
        self.interrupt(Interrupt::Request(vector as u8));
    }

    fn step(&mut self)
        ensures
            final(self)@ == old(self)@.step(),
    {
        self.execute_memory_instruction();
    }
}

} // verus!
