//! The text renderings, cross-checked against the standard formatter.

use bitindex::index::{BitIdx, BitMask, BitSel, BitTail};
use bitindex::register::RegisterKind;
use bitindex::render::{binary_string, decimal_string, width_name};

#[test]
fn decimal_matches_std() {
    for v in 0..=255u8 {
        assert_eq!(decimal_string(v), format!("{}", v));
    }
}

#[test]
fn binary_matches_std() {
    for v in 0..=255u64 {
        assert_eq!(binary_string(v, 8), format!("{:08b}", v));
    }
    for v in [0u64, 1, 5, 0xFF, 0xDEAD_BEEF, u64::MAX, 1 << 63] {
        assert_eq!(binary_string(v, 64), format!("{:064b}", v));
        assert_eq!(binary_string(v, 16), format!("{:016b}", v & 0xFFFF));
    }
}

#[test]
fn width_names() {
    assert_eq!(width_name(RegisterKind::R8), "u8");
    assert_eq!(width_name(RegisterKind::R16), "u16");
    assert_eq!(width_name(RegisterKind::R32), "u32");
    assert_eq!(width_name(RegisterKind::R64), "u64");
}

#[test]
fn debug_renders_every_counter() {
    assert_eq!(BitIdx::new(RegisterKind::R64, 33).unwrap().debug_render(), "BitIdx<u64>(100001)");
    assert_eq!(BitTail::last(RegisterKind::R16).debug_render(), "BitTail<u16>(10000)");
    assert_eq!(
        BitSel::new(RegisterKind::R64, 1 << 63).unwrap().debug_render(),
        format!("BitSel<u64>(1{})", "0".repeat(63))
    );
    assert_eq!(BitMask::all(RegisterKind::R8).debug_render(), "BitMask<u8>(11111111)");
    assert_eq!(BitMask::zero(RegisterKind::R8).debug_render(), "BitMask<u8>(00000000)");
}
