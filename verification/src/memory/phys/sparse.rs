use vstd::prelude::*;

verus! {

use crate::memory::PhysicalAddress;
use crate::memory::phys::frame::{FRAME_SIZE, FRAME_SIZE_BITS, Frame};
use crate::util::{align_down_pow2, align_up_pow2, align_down_spec, align_up_spec};
use vstd::arithmetic::power2::lemma2_to64;
use vstd::set_lib::{set_int_range, lemma_int_range};

/// Binary order of the section size (128 MiB).
pub const SECTION_SIZE_BITS: usize = 27;

/// Size of a memory section in bytes, `2^SECTION_SIZE_BITS`.
pub const SECTION_SIZE: usize = 134217728;

/// Number of frames in a whole section, `SECTION_SIZE / FRAME_SIZE` (`2^15`).
pub const PAGES_PER_SECTION: usize = 32768;

/// A region of physical memory that may be handed out, with the array of
/// frame structures that describes it.
pub struct MemorySection {
    mem_frames: Option<Vec<Frame>>,
    num_frames: usize,
}

impl View for MemorySection {
    /// The frame array, where one was set up.
    type V = Option<Seq<Frame>>;

    closed spec fn view(&self) -> Option<Seq<Frame>> {
        match self.mem_frames {
            Some(v) => Some(v@),
            None => None,
        }
    }
}

impl MemorySection {
    /// The frame count agrees with the frame array.
    #[verifier::type_invariant]
    pub closed spec fn wf(self) -> bool {
        match self.mem_frames {
            Some(v) => v.len() == self.num_frames,
            None => self.num_frames == 0,
        }
    }

    /// The section holds exactly `n` frames, the `i`-th of which has number `i`
    /// (its offset within the section: a section does not record where in
    /// physical memory it lies) and belongs to no block.
    pub open spec fn holds_frames(self, n: nat) -> bool {
        &&& self.wf()
        &&& self@ matches Some(fs)
        &&& fs.len() == n
        &&& forall|i: int| 0 <= i < n ==> (#[trigger] fs[i]).pfn_spec() == i && fs[i].is_unlinked()
    }

    /// A section without a frame array.
    pub fn new() -> (s: Self)
        ensures
            s@ is None,
    {
        Self { mem_frames: None, num_frames: 0 }
    }

    /// Sets up the frame array of the section with `num_frames` frames, each
    /// numbered by its offset within the section.
    ///
    /// The frame array is a `Vec` on the heap: running out of memory aborts, so
    /// there is no out-of-memory error. The only failure is a frame count beyond
    /// `PAGES_PER_SECTION`, which leaves the section as it was.
    pub fn init(&mut self, num_frames: usize) -> (r: Result<(), &'static str>)
        ensures
            num_frames > PAGES_PER_SECTION ==> {
                &&& r matches Err(e) && e@ == "Section overflow: too many pages"@
                &&& *final(self) == *old(self)
            },
            num_frames <= PAGES_PER_SECTION ==> {
                &&& r is Ok
                &&& final(self).holds_frames(num_frames as nat)
            },
    {
        if num_frames > PAGES_PER_SECTION {
            return Err("Section overflow: too many pages");
        }
        let mut frames: Vec<Frame> = Vec::new();
        let mut i: usize = 0;
        while i < num_frames
            invariant
                i <= num_frames,
                frames.len() == i,
                forall|j: int| 0 <= j < i ==> (#[trigger] frames@[j]).pfn_spec() == j && frames@[j].is_unlinked(),
            decreases num_frames - i,
        {
            frames.push(Frame::new(i));
            i = i + 1;
        }
        *self = MemorySection { mem_frames: Some(frames), num_frames };
        Ok(())
    }

    /// The frame at `frame_offset` in the frame array, or `None` where there is
    /// no frame array or the offset lies beyond it.
    pub fn get_frame(&self, frame_offset: usize) -> (r: Option<&Frame>)
        ensures
            r is Some <==> (self@ is Some && frame_offset < self@->0.len()),
            r matches Some(f) ==> *f == self@->0[frame_offset as int],
    {
        proof {
            use_type_invariant(self);
        }
        match &self.mem_frames {
            Some(frames) => {
                if frame_offset < self.num_frames {
                    Some(&frames[frame_offset])
                } else {
                    None
                }
            },
            None => None,
        }
    }
}


/// A section set up with `n` frames hands out exactly the frames at offsets
/// below `n`, and the frame at offset `i` has number `i`.
pub proof fn law_section_frames(s: MemorySection, n: nat, i: int)
    requires
        s.holds_frames(n),
    ensures
        (s@ is Some && 0 <= i < s@->0.len()) <==> 0 <= i < n,
        0 <= i < n ==> s@->0[i].pfn_spec() == i && s@->0[i].is_unlinked(),
{
}

/// Largest number of sections the manager keeps track of: `2^(47 - SECTION_SIZE_BITS)`,
/// enough for 2^47 bytes (128 TiB) of physical memory.
pub const MAX_SECTIONS: usize = 1048576;

/// Keeps track of the sections of physical memory.
pub struct SparseMemoryManager {
    /// The sections, in the order they were set up; the slots after them are empty.
    sections: Vec<Option<MemorySection>>,
    /// How many sections have been set up.
    total_sections: usize,
    /// How many frames the sections that have been set up hold together.
    total_frames: usize,
}

/// The first frame-aligned address of a region that starts at `start`.
pub open spec fn region_first(start: usize) -> int {
    align_up_spec(start as int, FRAME_SIZE_BITS as nat)
}

/// The last frame-aligned address, rounded down, of a region that ends at `end`.
pub open spec fn region_last(end: usize) -> int {
    align_down_spec(end as int, FRAME_SIZE_BITS as nat)
}

/// How many whole sections fit one after the other from `first` on, each ending
/// at or below `last`.
pub open spec fn whole_sections(first: int, last: int) -> int {
    if last <= first {
        0
    } else {
        (last - first + 1) / (SECTION_SIZE as int)
    }
}

impl SparseMemoryManager {
    /// The section slots.
    pub closed spec fn sections_view(self) -> Seq<Option<MemorySection>> {
        self.sections@
    }

    /// How many sections have been set up.
    pub closed spec fn total_sections_view(self) -> nat {
        self.total_sections as nat
    }

    /// How many frames the sections that have been set up hold together.
    pub closed spec fn total_frames_view(self) -> nat {
        self.total_frames as nat
    }

    /// There is one slot per possible section; the sections set up so far occupy
    /// the first `total_sections` slots, each holding a whole section of frames,
    /// and every later slot is empty; the count stays within `MAX_SECTIONS`, and
    /// the frame count is `PAGES_PER_SECTION` for each section.
    pub closed spec fn wf(self) -> bool {
        &&& self.sections@.len() == MAX_SECTIONS
        &&& self.total_sections <= MAX_SECTIONS
        &&& self.total_frames == self.total_sections * PAGES_PER_SECTION
        &&& forall|j: int| 0 <= j < self.total_sections ==>
            (#[trigger] self.sections@[j] matches Some(s) && s.holds_frames(PAGES_PER_SECTION as nat))
        &&& forall|j: int| self.total_sections <= j < MAX_SECTIONS ==> (#[trigger] self.sections@[j]) is None
    }

    /// The numbers of the occupied slots.
    pub open spec fn occupied_slots(self) -> Set<int> {
        Set::new(|j: int| 0 <= j < self.sections_view().len() && self.sections_view()[j] is Some)
    }

    /// How many sections a call that sets up the region from `start` to `end`
    /// adds: every whole section that fits, but no more than there is room for.
    pub open spec fn sections_added(self, start: usize, end: usize) -> int {
        let n = whole_sections(region_first(start), region_last(end));
        if self.total_sections_view() + n <= MAX_SECTIONS {
            n
        } else {
            MAX_SECTIONS - self.total_sections_view()
        }
    }

    /// The inputs on which setting up the region from `start` to `end` does not
    /// overflow a machine word: rounding `start` up, the end address of the first
    /// section that does not fit (computed where every whole section was set up),
    /// and the frame count.
    pub open spec fn region_fits_machine(self, start: usize, end: usize) -> bool {
        let first = region_first(start);
        let last = region_last(end);
        let n = whole_sections(first, last);
        &&& start + (FRAME_SIZE - 1) <= usize::MAX
        &&& (last > first && self.total_sections_view() + n <= MAX_SECTIONS) ==>
                first + (n + 1) * SECTION_SIZE - 1 <= usize::MAX
        &&& last > first ==>
                self.total_frames_view() + self.sections_added(start, end) * PAGES_PER_SECTION <= usize::MAX
    }

    /// What setting up the region from `start` to `end` does: `new` is the
    /// manager after the call on `old`, `r` what the call returned.
    ///
    /// A region that holds no frame once its ends are aligned to frames is refused
    /// and nothing changes. Otherwise the whole sections of the region, starting at
    /// its first aligned address, go into the empty slots that follow the occupied
    /// ones, and the sections of earlier regions stay where they are; where the
    /// count of sections would pass `MAX_SECTIONS`, the sections for which there is
    /// room are set up and the call fails.
    pub open spec fn region_set_up(
        old: Self,
        new: Self,
        start: usize,
        end: usize,
        r: Result<(), &'static str>,
    ) -> bool {
        let first = region_first(start);
        let last = region_last(end);
        let n = whole_sections(first, last);
        let added = old.sections_added(start, end);
        &&& new.wf()
        &&& if last <= first {
            &&& r matches Err(e) && e@ == "Invalid memory region: end <= start after alignment"@
            &&& new.sections_view() == old.sections_view()
            &&& new.total_sections_view() == old.total_sections_view()
            &&& new.total_frames_view() == old.total_frames_view()
        } else {
            &&& (old.total_sections_view() + n <= MAX_SECTIONS ==> r is Ok)
            &&& (old.total_sections_view() + n > MAX_SECTIONS ==> (r matches Err(e)
                && e@ == "Too many memory sections: exceeded MAX_SECTIONS"@))
            &&& new.total_sections_view() == old.total_sections_view() + added
            &&& new.total_frames_view() == old.total_frames_view() + added * PAGES_PER_SECTION
            &&& new.sections_view().len() == old.sections_view().len()
            &&& forall|j: int| old.total_sections_view() <= j < old.total_sections_view() + added ==>
                (#[trigger] new.sections_view()[j] matches Some(s) && s.holds_frames(PAGES_PER_SECTION as nat))
            &&& forall|j: int| 0 <= j < new.sections_view().len()
                && !(old.total_sections_view() <= j < old.total_sections_view() + added) ==>
                #[trigger] new.sections_view()[j] == old.sections_view()[j]
        }
    }

    /// A manager with no section set up.
    pub fn new() -> (m: Self)
        ensures
            m.wf(),
            m.total_sections_view() == 0,
            m.total_frames_view() == 0,
            m.sections_view().len() == MAX_SECTIONS,
            forall|j: int| 0 <= j < MAX_SECTIONS ==> (#[trigger] m.sections_view()[j]) is None,
    {
        let mut sections: Vec<Option<MemorySection>> = Vec::new();
        let mut i: usize = 0;
        while i < MAX_SECTIONS
            invariant
                i <= MAX_SECTIONS,
                sections.len() == i,
                forall|j: int| 0 <= j < i ==> (#[trigger] sections@[j]) is None,
            decreases MAX_SECTIONS - i,
        {
            sections.push(None);
            i = i + 1;
        }
        Self { sections, total_sections: 0, total_frames: 0 }
    }

    /// Sets up the memory region from `region_start` to `region_end` as sections,
    /// as `region_set_up` describes.
    pub fn init_memory_region(
        &mut self,
        region_start: PhysicalAddress,
        region_end: PhysicalAddress,
    ) -> (r: Result<(), &'static str>)
        requires
            old(self).wf(),
            old(self).region_fits_machine(region_start@, region_end@),
        ensures
            Self::region_set_up(*old(self), *final(self), region_start@, region_end@, r),
    {
        proof {
            lemma2_to64();
        }
        let ghost rs = region_start@;
        let ghost re = region_end@;
        let ghost first = region_first(rs);
        let ghost last = region_last(re);
        let ghost n = whole_sections(first, last);
        let aligned_start = align_up_pow2(region_start.get(), FRAME_SIZE_BITS);
        let aligned_end = align_down_pow2(region_end.get(), FRAME_SIZE_BITS);
        if aligned_end <= aligned_start {
            return Err("Invalid memory region: end <= start after alignment");
        }
        proof {
            let d = last - first + 1;
            assert(n * (SECTION_SIZE as int) <= d < (n + 1) * (SECTION_SIZE as int));
        }
        let mut section_num: usize = 0;
        let mut start: usize = aligned_start;
        loop
            invariant_except_break
                section_num <= n,
            invariant
                rs == region_start@,
                re == region_end@,
                aligned_start == first,
                aligned_end == last,
                first < last,
                n == whole_sections(first, last),
                n * (SECTION_SIZE as int) <= last - first + 1 < (n + 1) * (SECTION_SIZE as int),
                old(self).wf(),
                aligned_end < usize::MAX,
                old(self).region_fits_machine(rs, re),
                first == region_first(rs),
                last == region_last(re),
                start == first + section_num * SECTION_SIZE,
                old(self).total_sections_view() + section_num <= MAX_SECTIONS,
                self.total_sections_view() == old(self).total_sections_view() + section_num,
                self.total_frames_view() == old(self).total_frames_view() + section_num * PAGES_PER_SECTION,
                self.sections_view().len() == MAX_SECTIONS,
                forall|j: int| old(self).total_sections_view() <= j < old(self).total_sections_view() + section_num ==>
                    (#[trigger] self.sections_view()[j] matches Some(s) && s.holds_frames(PAGES_PER_SECTION as nat)),
                forall|j: int| 0 <= j < MAX_SECTIONS
                    && !(old(self).total_sections_view() <= j < old(self).total_sections_view() + section_num) ==>
                    #[trigger] self.sections_view()[j] == old(self).sections_view()[j],
            ensures
                section_num == n,
            decreases n + 1 - section_num,
        {
            let end = start + (SECTION_SIZE - 1);
            if end > aligned_end {
                break;
            }
            if self.total_sections >= MAX_SECTIONS {
                return Err("Too many memory sections: exceeded MAX_SECTIONS");
            }
            let frames_in_section = (end - start + 1) / FRAME_SIZE;
            let mut section = MemorySection::new();
            match section.init(frames_in_section) {
                Ok(()) => {},
                Err(e) => {
                    return Err(e);
                },
            }
            self.sections.set(self.total_sections, Some(section));
            self.total_sections = self.total_sections + 1;
            self.total_frames = self.total_frames + frames_in_section;
            section_num = section_num + 1;
            start = start + SECTION_SIZE;
        }
        Ok(())
    }

    /// Whether setting up the region from `start` to `end` stays within machine
    /// words, so that `init_memory_region` may be called on it.
    pub fn region_fits(&self, start: usize, end: usize) -> (r: bool)
        requires
            self.wf(),
        ensures
            r == self.region_fits_machine(start, end),
    {
        proof {
            lemma2_to64();
        }
        if start > usize::MAX - (FRAME_SIZE - 1) {
            return false;
        }
        let first = align_up_pow2(start, FRAME_SIZE_BITS);
        let last = align_down_pow2(end, FRAME_SIZE_BITS);
        if last <= first {
            return true;
        }
        let n = (last - first + 1) / SECTION_SIZE;
        let fits_all = n <= MAX_SECTIONS - self.total_sections;
        if fits_all {
            let next = first + n * SECTION_SIZE;
            if next.checked_add(SECTION_SIZE - 1).is_none() {
                return false;
            }
        }
        let added = if fits_all { n } else { MAX_SECTIONS - self.total_sections };
        match added.checked_mul(PAGES_PER_SECTION) {
            Some(frames) => self.total_frames.checked_add(frames).is_some(),
            None => false,
        }
    }

    /// How many sections have been set up.
    pub fn total_sections(&self) -> (r: usize)
        ensures
            r == self.total_sections_view(),
    {
        self.total_sections
    }

    /// How many frames the sections that have been set up hold together.
    pub fn total_frames(&self) -> (r: usize)
        ensures
            r == self.total_frames_view(),
    {
        self.total_frames
    }

    /// The section in slot `section_num`, or `None` where the slot is empty or
    /// lies beyond the last slot.
    pub fn get_section(&self, section_num: usize) -> (r: Option<&MemorySection>)
        ensures
            section_num >= self.sections_view().len() ==> r is None,
            section_num < self.sections_view().len() ==> r == match self.sections_view()[section_num as int] {
                Some(s) => Some(&s),
                None => None,
            },
    {
        if section_num < self.sections.len() {
            match &self.sections[section_num] {
                Some(s) => Some(s),
                None => None,
            }
        } else {
            None
        }
    }
}

/// What every manager keeps: at most `MAX_SECTIONS` sections are counted, as
/// many slots are occupied as sections are counted, the frame count is
/// `PAGES_PER_SECTION` for each of them, and every occupied slot holds a whole
/// section of frames numbered from 0.
pub proof fn law_manager_counts(m: SparseMemoryManager)
    requires
        m.wf(),
    ensures
        m.total_sections_view() <= MAX_SECTIONS,
        m.total_frames_view() == m.total_sections_view() * PAGES_PER_SECTION,
        m.sections_view().len() == MAX_SECTIONS,
        m.occupied_slots().finite(),
        m.occupied_slots().len() == m.total_sections_view(),
        forall|j: int| 0 <= j < MAX_SECTIONS ==>
            (#[trigger] m.sections_view()[j] matches Some(s) ==> s.holds_frames(PAGES_PER_SECTION as nat)),
{
    let n = m.total_sections_view() as int;
    assert(m.occupied_slots() =~= set_int_range(0, n)) by {
        assert forall|j: int| m.occupied_slots().contains(j) <==> set_int_range(0, n).contains(j) by {
            if 0 <= j < MAX_SECTIONS {
                assert(m.sections_view()[j] is Some <==> j < n);
            }
        }
    }
    lemma_int_range(0, n);
}

/// Setting up a region, whatever it returns, keeps the sections of earlier
/// regions in their slots, never lowers the section count, and keeps the frame
/// count at `PAGES_PER_SECTION` per section, with as many slots occupied as
/// sections counted.
pub proof fn law_region_set_up_keeps_earlier_sections(
    old: SparseMemoryManager,
    new: SparseMemoryManager,
    start: usize,
    end: usize,
    r: Result<(), &'static str>,
)
    requires
        old.wf(),
        SparseMemoryManager::region_set_up(old, new, start, end, r),
    ensures
        new.total_sections_view() >= old.total_sections_view(),
        new.total_sections_view() <= MAX_SECTIONS,
        new.total_frames_view() == new.total_sections_view() * PAGES_PER_SECTION,
        new.occupied_slots().len() == new.total_sections_view(),
        old.occupied_slots().subset_of(new.occupied_slots()),
        forall|j: int| #[trigger] old.occupied_slots().contains(j) ==>
            new.sections_view()[j] == old.sections_view()[j],
{
    law_manager_counts(old);
    law_manager_counts(new);
    assert forall|j: int| #[trigger] old.occupied_slots().contains(j) implies
        new.occupied_slots().contains(j) && new.sections_view()[j] == old.sections_view()[j] by {
        assert(old.sections_view()[j] is Some);
    }
}

/// The first frame boundary at or after `start` is `start` plus the distance to
/// the next multiple of `FRAME_SIZE`; the last one at or before `end` is `end`
/// less its remainder.
proof fn lemma_region_bounds(start: usize, end: usize)
    ensures
        region_first(start) == start + (4096 - start % 4096) % 4096,
        region_last(end) == end - end % 4096,
{
    lemma2_to64();
    let r = start % 4096;
    vstd::arithmetic::div_mod::lemma_fundamental_div_mod(start as int, 4096);
    let q = start as int / 4096;
    if r == 0 {
        vstd::arithmetic::div_mod::lemma_fundamental_div_mod_converse(start + 4095, 4096, q, 4095);
    } else {
        vstd::arithmetic::div_mod::lemma_fundamental_div_mod_converse(start + 4095, 4096, q + 1, r - 1);
    }
}

/// Setting up the region from `start` to `end` adds exactly the whole 128 MiB
/// sections that fit inside it, laid end to end from its first frame boundary:
/// with `first` the first multiple of `FRAME_SIZE` at or after `start` and `last`
/// the last one at or before `end`, the sections added span no more than
/// `last - first + 1` bytes, a region without a frame adds none and is refused,
/// and a call that succeeds leaves less than one more section's worth of the
/// region unused. Where the sections would pass `MAX_SECTIONS`, the call fails
/// with every slot filled. Each added section brings `PAGES_PER_SECTION` frames.
pub proof fn law_region_sections_fit_inside(
    old: SparseMemoryManager,
    new: SparseMemoryManager,
    start: usize,
    end: usize,
    r: Result<(), &'static str>,
)
    requires
        old.wf(),
        SparseMemoryManager::region_set_up(old, new, start, end, r),
    ensures
        ({
            let first = start + (4096 - start % 4096) % 4096;
            let last = end - end % 4096;
            let added = new.total_sections_view() - old.total_sections_view();
            &&& start <= first < start + FRAME_SIZE
            &&& added >= 0
            &&& last <= first ==> added == 0 && r is Err
            &&& last > first ==> added * SECTION_SIZE <= last - first + 1
            &&& r is Ok ==> last > first && (added + 1) * SECTION_SIZE > last - first + 1
            &&& (last > first && old.total_sections_view() + (last - first + 1) / (SECTION_SIZE as int)
                <= MAX_SECTIONS) ==> r is Ok
            &&& (last > first && old.total_sections_view() + (last - first + 1) / (SECTION_SIZE as int)
                > MAX_SECTIONS) ==> r is Err && new.total_sections_view() == MAX_SECTIONS
            &&& new.total_frames_view() == old.total_frames_view() + added * PAGES_PER_SECTION
        }),
{
    lemma_region_bounds(start, end);
}

/// The inputs on which setting up a region stays within machine words, in terms
/// of the region itself: with `first` and `last` the first and last frame
/// boundaries inside the region and `n` the whole sections that fit from
/// `first`, rounding `start` up fits, the end of the section after the last whole
/// one fits where every whole section has room, and the frame count fits.
pub proof fn law_region_fits_machine(m: SparseMemoryManager, start: usize, end: usize)
    requires
        m.wf(),
    ensures
        m.region_fits_machine(start, end) <==> ({
            let first = start + (4096 - start % 4096) % 4096;
            let last = end - end % 4096;
            let n = if last > first { (last - first + 1) / (SECTION_SIZE as int) } else { 0 };
            let added = if m.total_sections_view() + n <= MAX_SECTIONS {
                n
            } else {
                MAX_SECTIONS - m.total_sections_view()
            };
            &&& start + (FRAME_SIZE - 1) <= usize::MAX
            &&& (last > first && m.total_sections_view() + n <= MAX_SECTIONS) ==>
                first + (n + 1) * SECTION_SIZE - 1 <= usize::MAX
            &&& last > first ==> m.total_frames_view() + added * PAGES_PER_SECTION <= usize::MAX
        }),
{
    lemma_region_bounds(start, end);
}

/// Sets up the heap region, which starts at `heap_start` and is `heap_size`
/// bytes long, in `manager`.
pub fn sparse_init(manager: &mut SparseMemoryManager, heap_start: usize, heap_size: usize) -> (r: Result<(), &'static str>)
    requires
        heap_start != 0,
        heap_start + heap_size <= usize::MAX,
        old(manager).wf(),
        old(manager).region_fits_machine(heap_start, (heap_start + heap_size) as usize),
    ensures
        SparseMemoryManager::region_set_up(
            *old(manager),
            *final(manager),
            heap_start,
            (heap_start + heap_size) as usize,
            r,
        ),
{
    let region_start = PhysicalAddress::new(heap_start).unwrap();
    let region_end = PhysicalAddress::new(heap_start + heap_size).unwrap();
    manager.init_memory_region(region_start, region_end)?;
    Ok(())
}

} // verus!
