use lzx::memory::phys::frame::{Frame, FRAME_SIZE};
use lzx::memory::phys::sparse::{
    sparse_init, MemorySection, SparseMemoryManager, MAX_SECTIONS, PAGES_PER_SECTION, SECTION_SIZE,
};
use lzx::memory::{init, PhysicalAddress};

fn addr(a: usize) -> PhysicalAddress {
    PhysicalAddress::new(a).unwrap()
}

#[test]
fn physical_address_rejects_zero() {
    assert!(PhysicalAddress::new(0).is_none());
    assert_eq!(PhysicalAddress::new(0x8000_0000).unwrap().get(), 0x8000_0000);
}

#[test]
fn frame_new_keeps_pfn() {
    assert_eq!(Frame::new(7).pfn(), 7);
}

#[test]
fn constants_agree() {
    assert_eq!(FRAME_SIZE, 1 << 12);
    assert_eq!(SECTION_SIZE, 1 << 27);
    assert_eq!(PAGES_PER_SECTION, SECTION_SIZE / FRAME_SIZE);
    assert_eq!(MAX_SECTIONS, 1 << (47 - 27));
}

#[test]
fn new_section_has_no_frames() {
    let s = MemorySection::new();
    assert!(s.get_frame(0).is_none());
}

#[test]
fn section_init_too_many_pages() {
    let mut s = MemorySection::new();
    assert_eq!(s.init(PAGES_PER_SECTION + 1), Err("Section overflow: too many pages"));
    assert!(s.get_frame(0).is_none());
}

#[test]
fn section_init_then_get_frame() {
    let mut s = MemorySection::new();
    assert_eq!(s.init(3), Ok(()));
    assert_eq!(s.get_frame(0).unwrap().pfn(), 0);
    assert_eq!(s.get_frame(2).unwrap().pfn(), 2);
    assert!(s.get_frame(3).is_none());
}

#[test]
fn section_init_whole_section() {
    let mut s = MemorySection::new();
    assert_eq!(s.init(PAGES_PER_SECTION), Ok(()));
    assert_eq!(s.get_frame(PAGES_PER_SECTION - 1).unwrap().pfn(), PAGES_PER_SECTION - 1);
    assert!(s.get_frame(PAGES_PER_SECTION).is_none());
}

#[test]
fn section_init_zero_frames() {
    let mut s = MemorySection::new();
    assert_eq!(s.init(0), Ok(()));
    assert!(s.get_frame(0).is_none());
}

#[test]
fn new_manager_is_empty() {
    let m = SparseMemoryManager::new();
    assert_eq!(m.total_sections(), 0);
    assert_eq!(m.total_frames(), 0);
    assert!(m.get_section(0).is_none());
    assert!(m.get_section(MAX_SECTIONS).is_none());
}

#[test]
fn region_empty_after_alignment_is_refused() {
    let mut m = SparseMemoryManager::new();
    let r = m.init_memory_region(addr(0x1001), addr(0x1fff));
    assert_eq!(r, Err("Invalid memory region: end <= start after alignment"));
    assert_eq!(m.total_sections(), 0);
    assert_eq!(m.total_frames(), 0);
}

#[test]
fn region_smaller_than_a_section_adds_nothing() {
    let mut m = SparseMemoryManager::new();
    assert_eq!(m.init_memory_region(addr(0x8000_0000), addr(0x8010_0000)), Ok(()));
    assert_eq!(m.total_sections(), 0);
    assert!(m.get_section(0).is_none());
}

#[test]
fn region_with_two_whole_sections() {
    let mut m = SparseMemoryManager::new();
    let start = 0x8000_0000usize;
    let end = start + 2 * SECTION_SIZE + 100;
    assert!(m.region_fits(start, end));
    assert_eq!(m.init_memory_region(addr(start), addr(end)), Ok(()));
    assert_eq!(m.total_sections(), 2);
    assert_eq!(m.total_frames(), 2 * PAGES_PER_SECTION);
    let s0 = m.get_section(0).unwrap();
    assert_eq!(s0.get_frame(PAGES_PER_SECTION - 1).unwrap().pfn(), PAGES_PER_SECTION - 1);
    assert!(s0.get_frame(PAGES_PER_SECTION).is_none());
    assert!(m.get_section(1).is_some());
    assert!(m.get_section(2).is_none());
}

#[test]
fn region_exactly_one_section_minus_a_frame_is_not_whole() {
    let mut m = SparseMemoryManager::new();
    let start = 0x4000_0000usize;
    assert_eq!(m.init_memory_region(addr(start), addr(start + SECTION_SIZE - 1)), Ok(()));
    assert_eq!(m.total_sections(), 0);
}

#[test]
fn region_unaligned_start_is_rounded_up() {
    let mut m = SparseMemoryManager::new();
    let start = 0x4000_0001usize;
    // From 0x4000_1000 on, one whole section ends at 0x4800_0fff.
    assert_eq!(m.init_memory_region(addr(start), addr(0x4800_1000)), Ok(()));
    assert_eq!(m.total_sections(), 1);
}

#[test]
fn second_region_keeps_earlier_sections() {
    let mut m = SparseMemoryManager::new();
    let first = 0x8000_0000usize;
    assert_eq!(m.init_memory_region(addr(first), addr(first + SECTION_SIZE)), Ok(()));
    assert_eq!(m.total_sections(), 1);
    assert!(m.get_section(0).is_some());
    let second = 0x1_0000_0000usize;
    assert_eq!(m.init_memory_region(addr(second), addr(second + 2 * SECTION_SIZE)), Ok(()));
    assert_eq!(m.total_sections(), 3);
    assert_eq!(m.total_frames(), 3 * PAGES_PER_SECTION);
    assert!(m.get_section(0).is_some());
    assert!(m.get_section(1).is_some());
    assert!(m.get_section(2).is_some());
    assert!(m.get_section(3).is_none());
}

#[test]
fn two_one_section_regions_occupy_two_slots() {
    let mut m = SparseMemoryManager::new();
    assert_eq!(m.init_memory_region(addr(0x4000_0000), addr(0x4000_0000 + SECTION_SIZE)), Ok(()));
    assert_eq!(m.init_memory_region(addr(0x8000_0000), addr(0x8000_0000 + SECTION_SIZE)), Ok(()));
    assert_eq!(m.total_sections(), 2);
    assert!(m.get_section(0).is_some());
    assert!(m.get_section(1).is_some());
    assert!(m.get_section(2).is_none());
}

#[test]
fn refused_region_keeps_earlier_sections() {
    let mut m = SparseMemoryManager::new();
    assert_eq!(m.init_memory_region(addr(0x4000_0000), addr(0x4000_0000 + SECTION_SIZE)), Ok(()));
    assert!(m.init_memory_region(addr(0x1001), addr(0x1fff)).is_err());
    assert_eq!(m.total_sections(), 1);
    assert!(m.get_section(0).is_some());
}

#[test]
fn region_fits_rejects_overflowing_start() {
    let m = SparseMemoryManager::new();
    assert!(!m.region_fits(usize::MAX - 10, usize::MAX));
    assert!(m.region_fits(0x8000_0000, 0x9000_0000));
}

#[test]
fn region_fits_rejects_section_end_past_word() {
    let m = SparseMemoryManager::new();
    // The section after the last whole one would end beyond the largest word.
    assert!(!m.region_fits(usize::MAX - 2 * SECTION_SIZE + 4097, usize::MAX));
}

#[test]
fn sparse_init_sets_up_heap() {
    let mut m = SparseMemoryManager::new();
    assert_eq!(sparse_init(&mut m, 0x8020_0000, 0x1000_0000), Ok(()));
    assert_eq!(m.total_sections(), 2);
    assert_eq!(m.total_frames(), 2 * PAGES_PER_SECTION);
}

#[test]
fn sparse_init_refuses_tiny_heap() {
    let mut m = SparseMemoryManager::new();
    assert_eq!(
        sparse_init(&mut m, 0x8020_0010, 0x100),
        Err("Invalid memory region: end <= start after alignment")
    );
}

#[test]
fn memory_init_sets_up_heap() {
    let mut m = SparseMemoryManager::new();
    assert_eq!(init(&mut m, 0x8000_0000, 3 * SECTION_SIZE), Ok(()));
    assert_eq!(m.total_sections(), 3);
}
