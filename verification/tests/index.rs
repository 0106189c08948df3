//! The counter types and their operations, exercised on concrete values.

use bitindex::index::{BitIdx, BitMask, BitPos, BitSel, BitTail};
use bitindex::order::{Lsb0, Msb0};
use bitindex::register::RegisterKind;

#[test]
fn index_fns() {
    assert!(BitIdx::new(RegisterKind::R8, 8).is_err());

    for n in 0..8u8 {
        let idx = BitIdx::new(RegisterKind::R8, n).unwrap();
        assert_eq!(idx.value(), n);
        assert_eq!(idx.position::<Lsb0>().value(), n);
        assert_eq!(idx.position::<Msb0>().value(), 7 - n);

        assert_eq!(idx.mask::<Lsb0>().value(), 1u64 << n);
        assert_eq!(idx.mask::<Msb0>().value(), 128u64 >> n);
    }
}

#[test]
fn tail_fns() {
    for n in 0..8u8 {
        let tail = BitTail::new(RegisterKind::R8, n).unwrap();
        assert_eq!(tail.value(), n);
    }
    assert!(BitTail::new(RegisterKind::R8, 9).is_none());
}

#[test]
fn position_fns() {
    assert!(BitPos::new(RegisterKind::R8, 8).is_none());

    for n in 0..8u8 {
        let pos = BitPos::new(RegisterKind::R8, n).unwrap();
        let mask = BitMask::new(RegisterKind::R8, 1u64 << n);
        assert_eq!(pos.mask(), mask);
    }
}

#[test]
fn select_fns() {
    assert!(BitSel::new(RegisterKind::R8, 1).is_some());
    assert!(BitSel::new(RegisterKind::R8, 3).is_none());

    let mut range = BitSel::range_all(RegisterKind::R8);
    let mut n = 0u8;
    while let Some(sel) = range.next() {
        assert_eq!(sel, BitSel::new(RegisterKind::R8, 1u64 << n).unwrap());
        n += 1;
    }
    assert_eq!(n, 8);
}

#[test]
fn fold_masks() {
    let mut range = BitSel::range_all(RegisterKind::R8);
    let mut accum = BitMask::zero(RegisterKind::R8);
    while let Some(sel) = range.next() {
        accum = accum.bitor(sel.mask().value());
    }
    assert_eq!(accum, BitMask::all(RegisterKind::R8));

    assert_eq!(BitMask::all(RegisterKind::R8).not(), BitMask::zero(RegisterKind::R8));
}

#[test]
fn offset() {
    let (elts, idx) = BitIdx::new(RegisterKind::R32, 31).unwrap().offset(isize::MAX);
    assert_eq!(elts, (isize::MAX >> 5) + 1);
    assert_eq!(idx, BitIdx::new(RegisterKind::R32, 30).unwrap());
}

#[test]
fn span() {
    let start = BitTail::new(RegisterKind::R8, 4).unwrap();
    assert_eq!(start.span(0), (0, start));

    assert_eq!(start.span(4), (1, BitTail::new(RegisterKind::R8, 8).unwrap()));
    assert_eq!(start.span(8), (2, start));
}

#[test]
fn walk() {
    let end = BitIdx::new(RegisterKind::R8, 7).unwrap();
    assert_eq!(end.next(), (BitIdx::new(RegisterKind::R8, 0).unwrap(), true));
    assert_eq!(end.prev(), (BitIdx::new(RegisterKind::R8, 6).unwrap(), false));
}

#[test]
fn error() {
    assert!(BitIdx::new(RegisterKind::R8, RegisterKind::R8.mask()).is_ok());
    assert!(BitIdx::new(RegisterKind::R8, RegisterKind::R8.bits()).is_err());

    assert!(BitIdx::new(RegisterKind::R16, RegisterKind::R16.mask()).is_ok());
    assert!(BitIdx::new(RegisterKind::R16, RegisterKind::R16.bits()).is_err());

    assert!(BitIdx::new(RegisterKind::R32, RegisterKind::R32.mask()).is_ok());
    assert!(BitIdx::new(RegisterKind::R32, RegisterKind::R32.bits()).is_err());

    assert!(BitIdx::new(RegisterKind::R64, RegisterKind::R64.mask()).is_ok());
    assert!(BitIdx::new(RegisterKind::R64, RegisterKind::R64.bits()).is_err());
}

#[test]
fn format() {
    assert_eq!(BitIdx::zero(RegisterKind::R16).debug_render(), "BitIdx<u16>(0000)");

    assert_eq!(
        BitIdx::new(RegisterKind::R16, 20).unwrap_err().debug_render(),
        "BitIdxErr<u16>(20)"
    );

    assert_eq!(BitTail::zero(RegisterKind::R32).debug_render(), "BitTail<u32>(000000)");

    assert_eq!(BitPos::new(RegisterKind::R8, 0).unwrap().debug_render(), "BitPos<u8>(000)");

    assert_eq!(
        BitSel::new(RegisterKind::R16, 32).unwrap().debug_render(),
        "BitSel<u16>(0000000000100000)"
    );

    assert_eq!(
        BitMask::new(RegisterKind::R8, 8).bitor(32).debug_render(),
        "BitMask<u8>(00101000)"
    );
}
