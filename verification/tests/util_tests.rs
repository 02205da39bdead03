use lzx::util::{align_down_pow2, align_up_pow2};

#[test]
fn align_up_doc_example() {
    assert_eq!(align_up_pow2(100, 4), 112);
}

#[test]
fn align_down_doc_example() {
    assert_eq!(align_down_pow2(100, 4), 96);
}

#[test]
fn align_of_aligned_value_is_identity() {
    assert_eq!(align_up_pow2(4096, 12), 4096);
    assert_eq!(align_down_pow2(4096, 12), 4096);
    assert_eq!(align_up_pow2(0, 12), 0);
    assert_eq!(align_down_pow2(0, 12), 0);
}

#[test]
fn align_order_zero_keeps_value() {
    assert_eq!(align_up_pow2(12345, 0), 12345);
    assert_eq!(align_down_pow2(12345, 0), 12345);
}

#[test]
fn align_to_frames() {
    assert_eq!(align_up_pow2(0x8000_0001, 12), 0x8000_1000);
    assert_eq!(align_down_pow2(0x8000_0fff, 12), 0x8000_0000);
    assert_eq!(align_up_pow2(4097, 12), 8192);
    assert_eq!(align_down_pow2(8191, 12), 4096);
}

#[test]
fn align_down_near_top_of_range() {
    assert_eq!(align_down_pow2(usize::MAX, 12), usize::MAX - 4095);
    assert_eq!(align_up_pow2(usize::MAX - 4095, 12), usize::MAX - 4095);
}

#[test]
fn align_idempotent_on_values() {
    for v in [1usize, 7, 100, 4095, 4097, 123456789] {
        let u = align_up_pow2(v, 5);
        let d = align_down_pow2(v, 5);
        assert_eq!(align_up_pow2(u, 5), u);
        assert_eq!(align_down_pow2(d, 5), d);
    }
}

#[test]
fn align_up_down_gap_on_values() {
    assert_eq!(align_up_pow2(100, 4) - align_down_pow2(100, 4), 16);
    assert_eq!(align_up_pow2(96, 4) - align_down_pow2(96, 4), 0);
}

#[test]
fn align_monotonic_on_values() {
    assert!(align_down_pow2(99, 4) <= align_down_pow2(100, 4));
    assert!(align_up_pow2(99, 4) <= align_up_pow2(100, 4));
    assert!(align_down_pow2(100, 4) <= 100 && 100 <= align_up_pow2(100, 4));
}
