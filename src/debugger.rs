use vstd::prelude::*;

use std::collections::BTreeSet;

use crate::cpu::Cpu;
use crate::error::Error;
use crate::mem::Mmu;

verus! {

broadcast use vstd::std_specs::btree::group_btree_axioms, vstd::laws_cmp::group_laws_cmp;

/// What a continuous run does next.
#[derive(Debug, PartialEq, Eq, Structural, Clone, Copy)]
pub enum RunAction {
    /// Stop: the user asked for it.
    Interrupted,
    /// Stop: the program counter sits on a breakpoint.
    Breakpoint(u16),
    /// Execute one more instruction.
    Step,
}

/// A machine under interactive control, with a set of breakpoint addresses.
pub struct Debugger {
    mmu: Mmu,
    cpu: Cpu,
    breakpoints: BTreeSet<u16>,
}

impl Debugger {
    /// The registers of the machine.
    pub closed spec fn spec_cpu(&self) -> Cpu {
        self.cpu
    }

    /// The memory of the machine.
    pub closed spec fn spec_mem(&self) -> Seq<u8> {
        self.mmu@
    }

    /// The addresses at which a run stops.
    pub closed spec fn breakpoint_set(&self) -> Set<u16> {
        self.breakpoints@
    }

    /// A debugger on the given machine, with no breakpoints.
    pub fn new(mmu: Mmu, cpu: Cpu) -> (r: Debugger)
        ensures
            r.spec_mem() == mmu@,
            r.spec_cpu() == cpu,
            r.breakpoint_set() == Set::<u16>::empty(),
    {
        Debugger { mmu, cpu, breakpoints: BTreeSet::new() }
    }

    /// The registers of the machine.
    pub fn cpu(&self) -> (r: &Cpu)
        ensures
            *r == self.spec_cpu(),
    {
        &self.cpu
    }

    /// The memory of the machine.
    pub fn mmu(&self) -> (r: &Mmu)
        ensures
            r@ == self.spec_mem(),
    {
        &self.mmu
    }

    /// Executes one instruction.
    pub fn step(&mut self) -> (r: Result<(), Error>)
        ensures
            (final(self).spec_cpu(), final(self).spec_mem(), r) == old(self).spec_cpu().step_spec(old(self).spec_mem()),
            final(self).breakpoint_set() == old(self).breakpoint_set(),
    {
        self.cpu.step(&mut self.mmu)
    }

    /// Makes a run stop when the program counter reaches `addr`.
    pub fn add_breakpoint(&mut self, addr: u16)
        ensures
            final(self).breakpoint_set() == old(self).breakpoint_set().insert(addr),
            final(self).spec_cpu() == old(self).spec_cpu(),
            final(self).spec_mem() == old(self).spec_mem(),
    {
        self.breakpoints.insert(addr);
    }

    /// Removes every breakpoint.
    pub fn clear_breakpoints(&mut self)
        ensures
            final(self).breakpoint_set() == Set::<u16>::empty(),
            final(self).spec_cpu() == old(self).spec_cpu(),
            final(self).spec_mem() == old(self).spec_mem(),
    {
        self.breakpoints.clear();
    }

    /// Whether a run stops at `addr`.
    pub fn is_breakpoint(&self, addr: u16) -> (r: bool)
        ensures
            r == self.breakpoint_set().contains(addr),
    {
        self.breakpoints.contains(&addr)
    }

    /// Decides the next move of a continuous run: an interrupt stops it
    /// first, then a breakpoint at the program counter; otherwise it steps.
    pub fn next_action(&self, interrupted: bool) -> (r: RunAction)
        ensures
            interrupted ==> r == RunAction::Interrupted,
            !interrupted && self.breakpoint_set().contains(self.spec_cpu().pc) ==> r == RunAction::Breakpoint(self.spec_cpu().pc),
            !interrupted && !self.breakpoint_set().contains(self.spec_cpu().pc) ==> r == RunAction::Step,
    {
        if interrupted {
            RunAction::Interrupted
        } else if self.is_breakpoint(self.cpu.pc) {
            RunAction::Breakpoint(self.cpu.pc)
        } else {
            RunAction::Step
        }
    }
}

} // verus!
