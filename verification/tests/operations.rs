use rp2350_sim::cortex_m33::apsr::Apsr;
use rp2350_sim::cortex_m33::operation::{
    add_with_carry, asr_c, condition_passed, decode_imm_shift, get_bit, get_bits, get_lsb,
    get_msb, get_size_of_number, in_it_block, is_ones, is_zero_bit, last_in_it_block, lsl_c, lsr_c,
    rev, rev16, revsh, ror_c, rrx_c, set_bit, set_bits, shift_c, sign_extend, sxtb, sxth,
    unwind_bounds, uxtb, uxth, Bound, SRType,
};

fn flags(n: bool, z: bool, c: bool, v: bool) -> Apsr {
    Apsr { n, z, c, v, q: false, ge: 0 }
}

#[test]
fn add_with_carry_signed_overflow() {
    // 0x7FFFFFFF + 1: the sum is negative, no carry, signed overflow.
    assert_eq!(add_with_carry(0x7fff_ffff, 1, false), (0x8000_0000, false, true));
}

#[test]
fn add_with_carry_both_overflows() {
    assert_eq!(add_with_carry(0x8000_0000, 0x8000_0000, false), (0, true, true));
}

#[test]
fn add_with_carry_takes_the_carry_in() {
    assert_eq!(add_with_carry(55, 66, true), (122, false, false));
    assert_eq!(add_with_carry(0xffff_ffff, 0, true), (0, true, false));
    assert_eq!(add_with_carry(0xffff_ffff, 0xffff_ffff, true), (0xffff_ffff, true, false));
}

#[test]
fn add_with_carry_subtracts_by_complement() {
    // 5 - 3 and 3 - 5
    assert_eq!(add_with_carry(5, !3, true), (2, true, false));
    assert_eq!(add_with_carry(3, !5, true), (0xffff_fffe, false, false));
    // the most negative number minus one overflows
    assert_eq!(add_with_carry(0x8000_0000, !1, true), (0x7fff_ffff, true, true));
}

#[test]
fn asr_by_32_of_a_negative_number() {
    assert_eq!(shift_c(0x8000_0000, SRType::Asr, 32, false), (0xffff_ffff, true));
    assert_eq!(asr_c(0x8000_0000, 32), (0xffff_ffff, true));
    assert_eq!(asr_c(0x7fff_ffff, 32), (0, false));
    assert_eq!(asr_c(0x8000_0000, 200), (0xffff_ffff, true));
}

#[test]
fn asr_by_less_than_32() {
    assert_eq!(asr_c(0x8000_0001, 1), (0xc000_0000, true));
    assert_eq!(asr_c(0x8000_0040, 7), (0xff00_0000, true));
    assert_eq!(asr_c(0x4000_0040, 31), (0, true));
    assert_eq!(asr_c(0x0000_0010, 4), (1, false));
}

#[test]
fn lsl_by_nothing_keeps_the_carry() {
    assert_eq!(shift_c(0x1234_5678, SRType::Lsl, 0, true), (0x1234_5678, true));
    assert_eq!(shift_c(0x1234_5678, SRType::Lsl, 0, false), (0x1234_5678, false));
}

#[test]
fn lsl_by_32_leaves_bit_0_in_the_carry() {
    assert_eq!(shift_c(0x0000_0003, SRType::Lsl, 32, false), (0, true));
    assert_eq!(shift_c(0xffff_fffe, SRType::Lsl, 32, true), (0, false));
    assert_eq!(lsl_c(0xffff_ffff, 33), (0, false));
    assert_eq!(lsl_c(0xffff_ffff, 255), (0, false));
}

#[test]
fn lsl_by_less_than_32() {
    assert_eq!(lsl_c(0x8000_0001, 1), (2, true));
    assert_eq!(lsl_c(0x4000_0001, 1), (0x8000_0002, false));
    assert_eq!(lsl_c(0x0000_00ff, 28), (0xf000_0000, true));
}

#[test]
fn lsr_shifts_in_zeros() {
    assert_eq!(lsr_c(3, 1), (1, true));
    assert_eq!(lsr_c(0x8000_0000, 31), (1, false));
    assert_eq!(lsr_c(0x8000_0000, 32), (0, true));
    assert_eq!(lsr_c(0x7fff_ffff, 32), (0, false));
    assert_eq!(lsr_c(0xffff_ffff, 33), (0, false));
}

#[test]
fn ror_rotates_modulo_32() {
    assert_eq!(ror_c(0x1234_5678, 4), (0x8123_4567, true));
    assert_eq!(ror_c(0x1234_5678, 36), (0x8123_4567, true));
    assert_eq!(ror_c(0x1234_5678, 32), (0x1234_5678, false));
    assert_eq!(ror_c(0x8000_0000, 32), (0x8000_0000, true));
    assert_eq!(ror_c(0x0000_0001, 1), (0x8000_0000, true));
}

#[test]
fn rrx_rotates_through_the_carry() {
    assert_eq!(rrx_c(3, true), (0x8000_0001, true));
    assert_eq!(rrx_c(2, false), (1, false));
    assert_eq!(shift_c(2, SRType::Rrx, 1, true), (0x8000_0001, false));
}

#[test]
fn shift_c_dispatches() {
    assert_eq!(shift_c(0xf0, SRType::Lsr, 4, false), (0xf, false));
    assert_eq!(shift_c(0xf8, SRType::Lsr, 4, false), (0xf, true));
    assert_eq!(shift_c(0x0f, SRType::Lsl, 4, false), (0xf0, false));
    assert_eq!(shift_c(0x8000_0000, SRType::Asr, 4, false), (0xf800_0000, false));
    assert_eq!(shift_c(0x0000_000f, SRType::Ror, 4, false), (0xf000_0000, true));
    assert_eq!(shift_c(7, SRType::Ror, 0, true), (7, true));
}

#[test]
fn decode_imm_shift_special_cases() {
    assert_eq!(decode_imm_shift(0, 0), (SRType::Lsl, 0));
    assert_eq!(decode_imm_shift(0, 5), (SRType::Lsl, 5));
    assert_eq!(decode_imm_shift(1, 0), (SRType::Lsr, 32));
    assert_eq!(decode_imm_shift(1, 31), (SRType::Lsr, 31));
    assert_eq!(decode_imm_shift(2, 0), (SRType::Asr, 32));
    assert_eq!(decode_imm_shift(2, 1), (SRType::Asr, 1));
    assert_eq!(decode_imm_shift(3, 0), (SRType::Rrx, 1));
    assert_eq!(decode_imm_shift(3, 7), (SRType::Ror, 7));
}

#[test]
fn sign_extend_copies_the_top_bit() {
    assert_eq!(sign_extend(0x80, 7, 32), 0xffff_ff80);
    assert_eq!(sign_extend(0x7f, 7, 32), 0x7f);
    assert_eq!(sign_extend(0x1f8, 8, 32), 0xffff_fff8);
    assert_eq!(sign_extend(0x80, 7, 16), 0xff80);
    // bits from the new width on stay as they were
    assert_eq!(sign_extend(0x0001_0080, 7, 16), 0x0001_ff80);
    assert_eq!(sign_extend(0xffff_ff7f, 7, 16), 0xffff_007f);
}

#[test]
fn get_bits_takes_a_field() {
    assert_eq!(get_bits(0b0100_0000_0011_1110, 0..3), 0b110);
    assert_eq!(get_bits(0b0100_0000_0011_1110, 3..6), 0b111);
    assert_eq!(get_bits(0xdead_beef, 0..32), 0xdead_beef);
    assert_eq!(get_bits(0xdead_beef, 16..32), 0xdead);
    assert_eq!(get_bits(0xdead_beef, 28..32), 0xd);
    assert_eq!(get_bits(0xdead_beef, 8..8), 0);
    assert_eq!(get_bits(0xdead_beef, 32..32), 0);
}

#[test]
fn get_bit_and_set_bit() {
    assert!(get_bit(0x8000_0000, 31));
    assert!(!get_bit(0x7fff_ffff, 31));
    assert!(get_bit(1, 0));
    let mut value: u32 = 0;
    set_bit(&mut value, 5, true);
    assert_eq!(value, 0x20);
    set_bit(&mut value, 31, true);
    assert_eq!(value, 0x8000_0020);
    set_bit(&mut value, 5, false);
    assert_eq!(value, 0x8000_0000);
    set_bit(&mut value, 4, false);
    assert_eq!(value, 0x8000_0000);
}

#[test]
fn set_bits_repeats_the_pattern() {
    let mut value: u32 = 0;
    set_bits(&mut value, 4..8, 1, 1);
    assert_eq!(value, 0xf0);
    let mut value: u32 = 0xffff_ffff;
    set_bits(&mut value, 0..4, 0b0101, 4);
    assert_eq!(value, 0xffff_fff5);
    let mut value: u32 = 0;
    set_bits(&mut value, 8..16, 0b10, 2);
    assert_eq!(value, 0xaa00);
    let mut value: u32 = 0x1234_5678;
    set_bits(&mut value, 5..5, 1, 1);
    assert_eq!(value, 0x1234_5678);
}

#[test]
fn is_ones_looks_at_the_range_only() {
    assert!(is_ones(0x0000_0ff0, 4..12));
    assert!(!is_ones(0x0000_0fe0, 4..12));
    assert!(is_ones(0xffff_ffff, 0..32));
    assert!(is_ones(0, 3..3));
    assert!(is_ones(0x0fff_fff0, 4..28));
}

#[test]
fn unwind_bounds_gives_a_half_open_range() {
    assert_eq!(unwind_bounds(32, Bound::Included(3), Bound::Excluded(6)), (3, 6));
    assert_eq!(unwind_bounds(32, Bound::Excluded(3), Bound::Included(6)), (4, 7));
    assert_eq!(unwind_bounds(32, Bound::Unbounded, Bound::Unbounded), (0, 32));
    assert_eq!(unwind_bounds(16, Bound::Included(0), Bound::Unbounded), (0, 16));
}

#[test]
fn byte_reversal() {
    assert_eq!(rev(0x1122_3344), 0x4433_2211);
    assert_eq!(rev16(0x1122_3344), 0x2211_4433);
    assert_eq!(revsh(0x0000_80ff), 0xffff_ff80);
    assert_eq!(revsh(0x1234_ff7f), 0x0000_7fff);
}

#[test]
fn reversing_twice_gives_the_word_back() {
    for value in [0u32, 1, 0x1122_3344, 0xdead_beef, 0xffff_ffff, 0x8000_0001] {
        assert_eq!(rev(rev(value)), value);
        assert_eq!(rev16(rev16(value)), value);
    }
}

#[test]
fn extension() {
    assert_eq!(uxtb(0x1234_5678), 0x78);
    assert_eq!(uxth(0x1234_5678), 0x5678);
    assert_eq!(sxtb(0x1234_5680), 0xffff_ff80);
    assert_eq!(sxtb(0x1234_567f), 0x7f);
    assert_eq!(sxth(0x1234_8000), 0xffff_8000);
    assert_eq!(sxth(0x1234_7fff), 0x7fff);
}

#[test]
fn condition_table() {
    let zero = flags(false, true, false, false);
    let carry = flags(false, false, true, false);
    let negative = flags(true, false, false, false);
    let overflow = flags(false, false, false, true);
    let none = flags(false, false, false, false);
    // EQ, NE
    assert!(condition_passed(&zero, 0));
    assert!(!condition_passed(&zero, 1));
    assert!(condition_passed(&none, 1));
    // CS, CC
    assert!(condition_passed(&carry, 2));
    assert!(!condition_passed(&carry, 3));
    // MI, PL
    assert!(condition_passed(&negative, 4));
    assert!(condition_passed(&none, 5));
    // VS, VC
    assert!(condition_passed(&overflow, 6));
    assert!(!condition_passed(&overflow, 7));
    // HI, LS
    assert!(condition_passed(&carry, 8));
    assert!(!condition_passed(&flags(false, true, true, false), 8));
    assert!(condition_passed(&zero, 9));
    // GE, LT
    assert!(condition_passed(&none, 10));
    assert!(condition_passed(&flags(true, false, false, true), 10));
    assert!(condition_passed(&negative, 11));
    // GT, LE
    assert!(condition_passed(&none, 12));
    assert!(!condition_passed(&zero, 12));
    assert!(condition_passed(&zero, 13));
    assert!(condition_passed(&overflow, 13));
    // AL, and 0b1111, which is not inverted
    assert!(condition_passed(&none, 14));
    assert!(condition_passed(&none, 15));
    // only the low four bits count
    assert!(condition_passed(&zero, 0x10));
}

#[test]
fn small_helpers() {
    assert_eq!(get_lsb(3), 1);
    assert_eq!(get_lsb(2), 0);
    assert!(get_msb(0x8000_0000));
    assert!(!get_msb(0x7fff_ffff));
    assert_eq!(get_size_of_number(7), 32);
    assert!(is_zero_bit(0));
    assert!(!is_zero_bit(1));
    assert!(!in_it_block());
    assert!(!last_in_it_block());
}

#[test]
fn set_bits_with_a_pattern_longer_than_a_word() {
    let mut value: u32 = 0;
    set_bits(&mut value, 0..32, 0xdead_beef, 40);
    assert_eq!(value, 0xdead_beef);
    let mut value: u32 = 0xffff_ffff;
    set_bits(&mut value, 8..16, 0x0000_00a5, 1000);
    assert_eq!(value, 0xffff_a5ff);
}
