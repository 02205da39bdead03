use vstd::prelude::*;

verus! {

/// Binary order of the frame size (4 KiB).
pub const FRAME_SIZE_BITS: usize = 12;

/// Size of a physical frame in bytes, `2^FRAME_SIZE_BITS`.
pub const FRAME_SIZE: usize = 4096;

/// A physical frame of memory.
///
/// Besides its frame number, a frame carries the links that the buddy system
/// uses to manage blocks of frames:
/// * `prev_block_head`: the head frame of the previous block of the same order;
/// * `self_block_head`: the head frame of the block this frame belongs to;
/// * `next_block_head`: the head frame of the next block of the same order.
pub struct Frame {
    pfn: usize,
    prev_block_head: Option<&'static Frame>,
    self_block_head: Option<&'static Frame>,
    next_block_head: Option<&'static Frame>,
}

impl Frame {
    /// The frame number this frame stands for.
    pub closed spec fn pfn_spec(self) -> usize {
        self.pfn
    }

    /// The frame belongs to no block: all of its block links are empty.
    pub closed spec fn is_unlinked(self) -> bool {
        &&& self.prev_block_head is None
        &&& self.self_block_head is None
        &&& self.next_block_head is None
    }

    /// A frame with number `pfn` that belongs to no block yet.
    pub fn new(pfn: usize) -> (f: Self)
        ensures
            f.pfn_spec() == pfn,
            f.is_unlinked(),
    {
        Frame { pfn, prev_block_head: None, self_block_head: None, next_block_head: None }
    }

    /// The frame number.
    pub fn pfn(&self) -> (r: usize)
        ensures
            r == self.pfn_spec(),
    {
        self.pfn
    }
}

} // verus!
