//! Task trait.
use vstd::prelude::*;

verus! {

/// A task: its entry point (the address of its function) and priority.
pub trait TraitTask: Sized {
    spec fn spec_entry(&self) -> usize;

    spec fn spec_priority(&self) -> u64;

    fn new(id: u64, func: usize) -> (r: Self)
        ensures
            r.spec_entry() == func,
    ;

    fn get_entry(&self) -> (r: usize)
        ensures
            r == self.spec_entry(),
    ;

    fn set_priority(&mut self, prio: u64)
        ensures
            final(self).spec_priority() == prio,
            final(self).spec_entry() == old(self).spec_entry(),
    ;

    fn get_priority(&self) -> (r: u64)
        ensures
            r == self.spec_priority(),
    ;
}

} // verus!
