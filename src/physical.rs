//! The token that hands a device's physical register block over to whatever maps it.
use core::marker::PhantomData;
use vstd::prelude::*;

verus! {

/// The physical instance of some device's registers, of logical type `T`.
///
/// There must be at most one instance per physical device in the whole program: the type system
/// cannot hold the caller to this, as the physical address space is global. The token is handed
/// to the code that maps the block into virtual memory; accessing the mapped registers is the
/// work of a volatile access layer outside this library.
pub struct PhysicalInstance<T> {
    pa: usize,
    phantom: PhantomData<T>,
}

impl<T> PhysicalInstance<T> {
    /// The physical base address that the token holds.
    pub closed spec fn spec_pa(&self) -> usize {
        self.pa
    }

    /// Creates the token for the register block at physical address `pa`.
    ///
    /// The caller promises that no other `PhysicalInstance` for this block exists or will exist.
    pub fn new(pa: usize) -> (r: Self)
        ensures
            r.spec_pa() == pa,
    {
        PhysicalInstance { pa, phantom: PhantomData }
    }

    /// Returns the physical base address of the register block.
    pub fn pa(&self) -> (r: usize)
        ensures
            r == self.spec_pa(),
    {
        self.pa
    }
}

} // verus!
