use vstd::prelude::*;

pub mod phys;

verus! {

use crate::memory::phys::sparse::{SparseMemoryManager, sparse_init};

/// A physical address: a machine word that is never zero.
#[derive(Clone, Copy)]
pub struct PhysicalAddress {
    addr: usize,
}

impl View for PhysicalAddress {
    type V = usize;

    closed spec fn view(&self) -> usize {
        self.addr
    }
}

impl PhysicalAddress {
    /// The address is never zero.
    #[verifier::type_invariant]
    spec fn nonzero(self) -> bool {
        self.addr != 0
    }

    /// The address `addr`, or `None` where `addr` is zero.
    pub fn new(addr: usize) -> (r: Option<Self>)
        ensures
            addr == 0 ==> r is None,
            addr != 0 ==> (r matches Some(a) && a@ == addr),
    {
        if addr == 0 {
            None
        } else {
            Some(PhysicalAddress { addr })
        }
    }

    /// The address as a machine word.
    pub fn get(&self) -> (r: usize)
        ensures
            r == self@,
            r != 0,
    {
        proof {
            use_type_invariant(self);
        }
        self.addr
    }
}

/// Initialises physical memory management: the heap region, which starts at
/// `heap_start` and is `heap_size` bytes long, is set up in `manager`.
pub fn init(manager: &mut SparseMemoryManager, heap_start: usize, heap_size: usize) -> (r: Result<(), &'static str>)
    requires
        heap_start != 0,
        heap_start + heap_size <= usize::MAX,
        old(manager).wf(),
        old(manager).region_fits_machine(heap_start, (heap_start + heap_size) as usize),
    ensures
        SparseMemoryManager::region_set_up(
            *old(manager),
            *final(manager),
            heap_start,
            (heap_start + heap_size) as usize,
            r,
        ),
{
    sparse_init(manager, heap_start, heap_size)
}

} // verus!
