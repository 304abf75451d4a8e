use stable_intrinsics::checked_disjoint_bitor;
use stable_intrinsics::disjoint_bitor;
use stable_intrinsics::DisjointBitOr;

#[test]
fn is_disjoint_decides_the_precondition() {
    assert!(0b0101u8.is_disjoint(0b1010u8));
    assert!(!0b0110u8.is_disjoint(0b0011u8));
    assert!(true.is_disjoint(false));
    assert!(!true.is_disjoint(true));
    assert!((-1i32).is_disjoint(0i32));
    assert!(!(-1i32).is_disjoint(1i32));
}

#[test]
fn checked_disjoint_bitor_combines_disjoint_operands() {
    assert_eq!(checked_disjoint_bitor(0b0101u8, 0b1010u8), Some(0b1111u8));
    assert_eq!(checked_disjoint_bitor(0u64, 0u64), Some(0u64));
    assert_eq!(checked_disjoint_bitor(false, true), Some(true));
}

#[test]
fn checked_disjoint_bitor_flags_overlap() {
    assert_eq!(checked_disjoint_bitor(0b0110u8, 0b0011u8), None);
    assert_eq!(checked_disjoint_bitor(true, true), None);
    assert_eq!(checked_disjoint_bitor(-1i64, 1i64), None);
}

#[test]
fn disjoint_bitor_u8_scenario() {
    assert_eq!(disjoint_bitor(0b0101u8, 0b1010u8), 0b1111u8);
    assert_eq!(disjoint_bitor(0b0101u8, 0b1010u8), 0b0101u8 + 0b1010u8);
}

#[test]
fn disjoint_bitor_through_trait() {
    assert_eq!(0b0101u8.disjoint_bitor(0b1010u8), 0b1111u8);
}

#[test]
fn disjoint_bitor_bool() {
    assert!(disjoint_bitor(true, false));
    assert!(disjoint_bitor(false, true));
    assert!(!disjoint_bitor(false, false));
}

#[test]
fn disjoint_bitor_matches_sum_unsigned() {
    assert_eq!(disjoint_bitor(0xff00u16, 0x00ffu16), 0xffffu16);
    assert_eq!(disjoint_bitor(0u32, 0u32), 0u32);
    assert_eq!(disjoint_bitor(1u32 << 31, 1u32), (1u32 << 31) + 1);
    assert_eq!(disjoint_bitor(8u64, 16u64), 24u64);
    assert_eq!(disjoint_bitor(1u128 << 127, 3u128), (1u128 << 127) + 3);
}

#[test]
fn disjoint_bitor_matches_sum_signed() {
    assert_eq!(disjoint_bitor(-128i8, 127i8), -1i8);
    assert_eq!(disjoint_bitor(0x40i16, 0x03i16), 0x43i16);
    assert_eq!(disjoint_bitor(i32::MIN, 5i32), i32::MIN + 5);
    assert_eq!(disjoint_bitor(2i64, 4i64), 6i64);
    assert_eq!(disjoint_bitor(i128::MIN, i128::MAX), -1i128);
}
