//! The quantified properties of the algebra, checked on concrete values.

use bitindex::index::{BitIdx, BitMask, BitPos, BitSel, BitTail};
use bitindex::order::{BitOrder, Lsb0, Msb0};
use bitindex::register::RegisterKind;

fn kinds() -> [RegisterKind; 4] {
    [RegisterKind::R8, RegisterKind::R16, RegisterKind::R32, RegisterKind::R64]
}

#[test]
fn index_construction_bounds() {
    for kind in kinds() {
        for v in 0..=255u8 {
            match BitIdx::new(kind, v) {
                Ok(idx) => {
                    assert!(v < kind.bits());
                    assert_eq!(idx.value(), v);
                    assert_eq!(idx.kind(), kind);
                }
                Err(err) => {
                    assert!(v >= kind.bits());
                    assert_eq!(err.value(), v);
                    assert_eq!(err.kind(), kind);
                }
            }
        }
    }
}

#[test]
fn tail_construction_bounds() {
    for kind in kinds() {
        for v in 0..=255u8 {
            match BitTail::new(kind, v) {
                Some(tail) => {
                    assert!(v <= kind.bits());
                    assert_eq!(tail.value(), v);
                }
                None => assert!(v > kind.bits()),
            }
        }
    }
}

#[test]
fn selector_needs_one_bit() {
    for v in 0..=0xFFFFu64 {
        let sel = BitSel::new(RegisterKind::R16, v);
        assert_eq!(sel.is_some(), v.count_ones() == 1);
        if let Some(sel) = sel {
            assert_eq!(sel.value(), v);
        }
    }
    // A single bit above the register width is rejected as well.
    assert!(BitSel::new(RegisterKind::R8, 0x100).is_none());
    assert!(BitSel::new(RegisterKind::R16, 1 << 63).is_none());
}

#[test]
fn orderings_are_bijections() {
    for kind in kinds() {
        let mut low_seen = [false; 64];
        let mut high_seen = [false; 64];
        for i in 0..kind.bits() {
            let idx = BitIdx::new(kind, i).unwrap();
            let low = idx.position::<Lsb0>().value();
            let high = idx.position::<Msb0>().value();
            assert!(low < kind.bits());
            assert!(high < kind.bits());
            assert!(!low_seen[low as usize]);
            assert!(!high_seen[high as usize]);
            low_seen[low as usize] = true;
            high_seen[high as usize] = true;
        }
    }
}

#[test]
fn selectors_fold_to_all() {
    for kind in kinds() {
        let mut range = BitSel::range_all(kind);
        let mut accum = BitMask::zero(kind);
        while let Some(sel) = range.next() {
            accum = accum.combine(sel);
        }
        assert_eq!(accum, BitMask::all(kind));
        assert_eq!(BitMask::all(kind).not(), BitMask::zero(kind));
    }
}

#[test]
fn successor_and_predecessor_wrap() {
    for kind in kinds() {
        for i in 0..kind.bits() {
            let idx = BitIdx::new(kind, i).unwrap();
            let (next, carry) = idx.next();
            assert_eq!(next.value(), (i + 1) & kind.mask());
            assert_eq!(carry, i + 1 == kind.bits());
            let (prev, borrow) = idx.prev();
            assert_eq!(prev.value(), i.wrapping_sub(1) & kind.mask());
            assert_eq!(borrow, i == 0);
        }
    }
}

#[test]
fn offset_round_trip() {
    let deltas: [isize; 11] = [
        0,
        1,
        -1,
        31,
        -32,
        100,
        -1000,
        isize::MAX,
        isize::MIN,
        isize::MAX - 5,
        isize::MIN + 63,
    ];
    for kind in kinds() {
        for i in [0u8, 1, kind.bits() - 1] {
            for d in deltas {
                let idx = BitIdx::new(kind, i).unwrap();
                let (elts, new) = idx.offset(d);
                assert!(new.value() < kind.bits());
                let total = (elts as i128) * (kind.bits() as i128) + new.value() as i128;
                assert_eq!(total, i as i128 + d as i128);
            }
        }
    }
}

#[test]
fn span_round_trip() {
    for kind in kinds() {
        let bits = kind.bits() as usize;
        for t in 0..=kind.bits() {
            let tail = BitTail::new(kind, t).unwrap();
            for n in 0..(3 * bits + 2) {
                let (count, end) = tail.span(n);
                assert!(end.value() <= kind.bits());
                if n == 0 {
                    assert_eq!((count, end), (0, tail));
                } else {
                    let head = (t as usize) % bits;
                    // The count is the number of registers holding a live bit.
                    assert_eq!(count, (head + n + bits - 1) / bits);
                    // The registers hold the dead head, the live bits, and
                    // the dead tail, exactly.
                    assert_eq!(count * bits, head + n + (bits - end.value() as usize));
                }
            }
        }
    }
}

#[test]
fn orderings_are_duals() {
    for kind in kinds() {
        for i in 0..kind.bits() {
            let idx = BitIdx::new(kind, i).unwrap();
            let low = idx.position::<Lsb0>().value();
            let high = idx.position::<Msb0>().value();
            assert_eq!(low + high + 1, kind.bits());
        }
    }
}

#[test]
fn select_is_shifted_position() {
    for kind in kinds() {
        for i in 0..kind.bits() {
            let idx = BitIdx::new(kind, i).unwrap();
            assert_eq!(idx.select::<Lsb0>().value(), 1u64 << idx.position::<Lsb0>().value());
            assert_eq!(idx.select::<Msb0>().value(), 1u64 << idx.position::<Msb0>().value());
            let pos = BitPos::new(kind, i).unwrap();
            assert_eq!(pos.select().value(), 1u64 << i);
        }
    }
}

#[test]
fn mask_operations() {
    let kind = RegisterKind::R8;
    let sel_1 = BitSel::new(kind, 0b0000_0010).unwrap();
    let sel_6 = BitSel::new(kind, 0b0100_0000).unwrap();

    let mut mask = BitMask::zero(kind);
    assert!(!mask.test(sel_1));
    mask.insert(sel_1);
    assert!(mask.test(sel_1));
    assert!(!mask.test(sel_6));
    assert_eq!(mask.value(), 0b0000_0010);

    let both = mask.combine(sel_6);
    assert!(both.test(sel_1));
    assert!(both.test(sel_6));
    assert_eq!(both.value(), 0b0100_0010);

    assert_eq!(both.bitand(0b0100_0000).value(), 0b0100_0000);
    assert_eq!(both.bitor(0b0000_0001).value(), 0b0100_0011);
    assert_eq!(both.not().value(), 0b1011_1101);
}

#[test]
fn mask_range_folds_selectors() {
    let kind = RegisterKind::R8;
    let from = BitIdx::new(kind, 2).unwrap();
    let upto = BitTail::new(kind, 5).unwrap();
    assert_eq!(Lsb0::mask_range(from, upto).value(), 0b0001_1100);
    assert_eq!(Msb0::mask_range(from, upto).value(), 0b0011_1000);

    // An empty span of indices selects nothing.
    let nowhere = BitTail::new(kind, 2).unwrap();
    assert_eq!(Lsb0::mask_range(from, nowhere).value(), 0);

    // The full span of indices selects the whole register, under either
    // ordering.
    for kind in kinds() {
        let zero = BitIdx::new(kind, 0).unwrap();
        let last = BitTail::new(kind, kind.bits()).unwrap();
        assert_eq!(Lsb0::mask_range(zero, last), BitMask::all(kind));
        assert_eq!(Msb0::mask_range(zero, last), BitMask::all(kind));
    }
}

#[test]
fn mask_sum() {
    let kind = RegisterKind::R16;
    let sels = vec![
        BitSel::new(kind, 1).unwrap(),
        BitSel::new(kind, 0x8000).unwrap(),
        BitSel::new(kind, 0x10).unwrap(),
    ];
    assert_eq!(BitMask::sum(kind, &sels).value(), 0x8011);

    let empty: Vec<bitindex::index::BitSel> = Vec::new();
    assert_eq!(BitMask::sum(kind, &empty).value(), 0);

    let mut range = BitSel::range_all(kind);
    let mut every = Vec::new();
    while let Some(sel) = range.next() {
        every.push(sel);
    }
    assert_eq!(BitMask::sum(kind, &every), BitMask::all(kind));
}
