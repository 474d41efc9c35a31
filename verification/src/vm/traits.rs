//! What a forked VM needs of the VM it was forked from.
use vstd::prelude::*;
use crate::traits::instruction_counter::InstructionCounter;
use crate::vm::root::{RootVm, PAGE_SIZE};

verus! {

/// A VM that children can be forked from: its pages can be read, and it
/// counts the children that share its memory.
pub trait ParentVm {
    /// Offset of the page holding `gpa`, when the whole page is in memory.
    fn read_page(&self, gpa: u64) -> Option<usize>;

    /// Total guest memory size in bytes.
    fn memory_size(&self) -> usize;

    /// Count one child gone.
    fn remove_child(&mut self);
}

impl<I: InstructionCounter> ParentVm for RootVm<I> {
    fn read_page(&self, gpa: u64) -> (r: Option<usize>)
        ensures
            match r {
                Some(off) => off == gpa - gpa % 4096 && off + PAGE_SIZE <= self.memory@.len(),
                None => (gpa - gpa % 4096) + PAGE_SIZE > self.memory@.len(),
            },
    {
        RootVm::read_page(self, gpa)
    }

    fn memory_size(&self) -> (r: usize)
        ensures
            r == self.memory@.len(),
    {
        RootVm::memory_size(self)
    }

    fn remove_child(&mut self)
        ensures
            final(self).children_count == old(self).children_count.wrapping_sub(1),
            final(self).state == old(self).state,
            final(self).memory@ == old(self).memory@,
    {
        RootVm::remove_child(self)
    }
}

} // verus!
