use periph_regs::register_helpers::{bit, bits, data_align};

#[test]
fn bit_sets_exactly_one_position() {
    assert_eq!(bit(0), 0x1);
    assert_eq!(bit(5), 0x20);
    assert_eq!(bit(16), 0x1_0000);
    assert_eq!(bit(31), 0x8000_0000);
    for n in 0..32u32 {
        let v = bit(n);
        assert_eq!(v.count_ones(), 1);
        assert_eq!(v >> n, 1);
    }
}

#[test]
fn bits_builds_contiguous_runs() {
    assert_eq!(bits(0, 1), 0x3);
    assert_eq!(bits(4, 6), 0x70);
    assert_eq!(bits(8, 9), 0x300);
    assert_eq!(bits(6, 7), 0xc0);
    assert_eq!(bits(3, 5), 0x38);
    assert_eq!(bits(0, 15), 0xffff);
    assert_eq!(bits(0, 31), 0xffff_ffff);
    assert_eq!(bits(31, 31), 0x8000_0000);
}

#[test]
fn bits_is_idempotent_under_and() {
    for lo in 0..32u32 {
        for hi in lo..32u32 {
            let m = bits(lo, hi);
            assert_eq!(m & m, m);
        }
    }
}

#[test]
fn data_align_keeps_low_two_bits() {
    assert_eq!(data_align(0), 0);
    assert_eq!(data_align(1), 1);
    assert_eq!(data_align(2), 2);
    assert_eq!(data_align(7), 3);
    assert_eq!(data_align(0xffff_fffc), 0);
}
