//! The range types: walking from both ends, exact lengths, and exhaustion.

use bitindex::index::{BitIdx, BitPos, BitSel, BitTail};
use bitindex::register::RegisterKind;

#[test]
fn index_range_walks_both_ends() {
    let kind = RegisterKind::R8;
    let from = BitIdx::new(kind, 2).unwrap();
    let upto = BitTail::new(kind, 6).unwrap();
    let mut range = from.range(upto);
    assert_eq!(range.len(), 4);

    assert_eq!(range.next().unwrap().value(), 2);
    assert_eq!(range.next_back().unwrap().value(), 5);
    assert_eq!(range.next().unwrap().value(), 3);
    assert_eq!(range.next_back().unwrap().value(), 4);
    assert_eq!(range.len(), 0);

    // An exhausted range stays exhausted.
    assert!(range.next().is_none());
    assert!(range.next_back().is_none());
    assert!(range.next().is_none());
}

#[test]
fn index_range_all_counts_every_index() {
    for kind in [RegisterKind::R8, RegisterKind::R16, RegisterKind::R32, RegisterKind::R64] {
        let mut range = BitIdx::range_all(kind);
        assert_eq!(range.len(), kind.bits() as usize);
        let mut expect = 0u8;
        while let Some(idx) = range.next() {
            assert_eq!(idx.value(), expect);
            assert_eq!(idx.kind(), kind);
            expect += 1;
        }
        assert_eq!(expect, kind.bits());
    }
}

#[test]
fn tail_range_reaches_the_width() {
    let kind = RegisterKind::R8;
    let from = BitIdx::new(kind, 5).unwrap();
    let mut range = BitTail::range_from(from);
    assert_eq!(range.len(), 4);

    let mut values = Vec::new();
    while let Some(tail) = range.next() {
        values.push(tail.value());
    }
    assert_eq!(values, vec![5, 6, 7, 8]);
}

#[test]
fn tail_range_from_zero_backwards() {
    let kind = RegisterKind::R8;
    let from = BitIdx::new(kind, 0).unwrap();
    let mut range = BitTail::range_from(from);
    assert_eq!(range.len(), 9);
    assert_eq!(range.next_back().unwrap().value(), 8);
    assert_eq!(range.next_back().unwrap().value(), 7);
    assert_eq!(range.len(), 7);
}

#[test]
fn selector_range_is_shifted_ones() {
    let kind = RegisterKind::R16;
    let mut range = BitSel::range_all(kind);
    assert_eq!(range.len(), 16);
    let mut n = 0u8;
    while let Some(sel) = range.next() {
        assert_eq!(sel.value(), 1u64 << n);
        n += 1;
    }
    assert_eq!(n, 16);

    let mut back = BitSel::range_all(kind);
    assert_eq!(back.next_back().unwrap().value(), 1u64 << 15);
    assert_eq!(back.next().unwrap().value(), 1);
    assert_eq!(back.len(), 14);
}

#[test]
fn position_values_render() {
    // The binary renderings pad to the digit count of each counter's range.
    let kind = RegisterKind::R8;
    let pos = BitPos::new(kind, 5).unwrap();
    assert_eq!(pos.render(), "101");
    assert_eq!(pos.debug_render(), "BitPos<u8>(101)");

    let idx = BitIdx::new(RegisterKind::R64, 33).unwrap();
    assert_eq!(idx.render(), "100001");

    let tail = BitTail::new(RegisterKind::R8, 8).unwrap();
    assert_eq!(tail.render(), "1000");
    assert_eq!(tail.debug_render(), "BitTail<u8>(1000)");
}

#[test]
fn error_report_text() {
    let err = BitIdx::new(RegisterKind::R16, 20).unwrap_err();
    assert_eq!(err.value(), 20);
    assert_eq!(err.display_render(), "The value 20 is too large to index into u16 (16 bits)");

    let err = BitIdx::new(RegisterKind::R8, 255).unwrap_err();
    assert_eq!(err.display_render(), "The value 255 is too large to index into u8 (8 bits)");
}
