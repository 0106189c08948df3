//! Translation of semantic indices to electrical positions.
//!
//! A [`BitOrder`] implementation is a pure, stateless mapping from every
//! semantic index of a register width onto an electrical position of the same
//! width. Its proof obligations require the mapping to stay within the
//! register and never to merge two indices, so on the finite range of a
//! register it is a bijection.
//!
//! Two canonical orderings are provided: [`Lsb0`] sends an index to the same
//! position, counting from the low electrical edge, and [`Msb0`] reverses the
//! register, counting from the high electrical edge.

use vstd::prelude::*;
use vstd::arithmetic::power2::pow2;

use crate::index::{or_values, BitIdx, BitMask, BitPos, BitSel, BitTail};
use crate::register::RegisterKind;

verus! {

/// A capability translating semantic indices to electrical positions.
///
/// The spec function [`BitOrder::spec_at`] names the translation table;
/// the proof obligations pin it inside the register and make it injective,
/// and the executable operations are bound to it exactly. The selector and
/// mask forms are always the one-hot value `1 << at(idx).value()`.
pub trait BitOrder: Sized {
    /// The translation table: the electrical position assigned to semantic
    /// index `i` of a register of width `kind`.
    spec fn spec_at(kind: RegisterKind, i: int) -> int;

    /// The translation maps every index of the register onto a position
    /// inside the same register.
    proof fn lemma_at_in_range(kind: RegisterKind, i: int)
        requires
            0 <= i < kind.spec_bits(),
        ensures
            0 <= Self::spec_at(kind, i) < kind.spec_bits(),
    ;

    /// The translation never sends two indices to one position.
    proof fn lemma_at_injective(kind: RegisterKind, i: int, j: int)
        requires
            0 <= i < kind.spec_bits(),
            0 <= j < kind.spec_bits(),
            Self::spec_at(kind, i) == Self::spec_at(kind, j),
        ensures
            i == j,
    ;

    /// Translates a semantic index to its electrical position.
    fn at(idx: BitIdx) -> (pos: BitPos)
        requires
            idx.wf(),
        ensures
            pos.wf(),
            pos.spec_kind() == idx.spec_kind(),
            pos.spec_value() == Self::spec_at(idx.spec_kind(), idx.spec_value() as int),
    ;

    /// Computes the one-hot selector of the translated position.
    fn select(idx: BitIdx) -> (sel: BitSel)
        requires
            idx.wf(),
        ensures
            sel.wf(),
            sel.spec_kind() == idx.spec_kind(),
            sel.spec_value() == pow2(
                Self::spec_at(idx.spec_kind(), idx.spec_value() as int) as nat,
            ),
    {
        Self::at(idx).select()
    }

    /// Computes the selector of the translated position as an accessor mask.
    fn mask(idx: BitIdx) -> (m: BitMask)
        requires
            idx.wf(),
        ensures
            m.wf(),
            m.spec_kind() == idx.spec_kind(),
            m.spec_value() == pow2(
                Self::spec_at(idx.spec_kind(), idx.spec_value() as int) as nat,
            ),
    {
        Self::select(idx).mask()
    }

    /// Accumulates the selectors of every index from an inclusive start up
    /// to an exclusive end point into one mask, combining with bitwise or
    /// out of an empty accumulator.
    fn mask_range(from: BitIdx, upto: BitTail) -> (m: BitMask)
        requires
            from.wf(),
            upto.wf(),
            upto.spec_kind() == from.spec_kind(),
            from.spec_value() <= upto.spec_value(),
        ensures
            m.wf(),
            m.spec_kind() == from.spec_kind(),
            m.spec_value() == or_values(
                Seq::new(
                    (upto.spec_value() - from.spec_value()) as nat,
                    |k: int|
                        pow2(
                            Self::spec_at(from.spec_kind(), from.spec_value() + k) as nat,
                        ) as u64,
                ),
            ),
    {
        let kind = from.kind();
        let ghost vs = Seq::new(
            (upto.spec_value() - from.spec_value()) as nat,
            |k: int| pow2(Self::spec_at(from.spec_kind(), from.spec_value() + k) as nat) as u64,
        );
        let mut m = BitMask::zero(kind);
        let mut i: u8 = from.value();
        while i < upto.value()
            invariant
                from.wf(),
                upto.wf(),
                upto.spec_kind() == from.spec_kind(),
                kind == from.spec_kind(),
                from.spec_value() <= i <= upto.spec_value(),
                m.wf(),
                m.spec_kind() == kind,
                vs == Seq::new(
                    (upto.spec_value() - from.spec_value()) as nat,
                    |k: int|
                        pow2(
                            Self::spec_at(from.spec_kind(), from.spec_value() + k) as nat,
                        ) as u64,
                ),
                m.spec_value() == or_values(vs.take(i - from.spec_value())),
            decreases upto.spec_value() - i,
        {
            let sel = Self::select(BitIdx::new_unchecked(kind, i));
            m = m.combine(sel);
            proof {
                let done = i - from.spec_value();
                assert(vs.take(done + 1).drop_last() =~= vs.take(done));
                assert(vs.take(done + 1).last() == vs[done]);
            }
            i = i + 1;
        }
        proof {
            assert(vs.take(upto.spec_value() - from.spec_value()) =~= vs);
        }
        m
    }
}

/// The low-edge-first ordering: semantic index and electrical position
/// coincide.
pub struct Lsb0;

impl BitOrder for Lsb0 {
    open spec fn spec_at(kind: RegisterKind, i: int) -> int {
        i
    }

    proof fn lemma_at_in_range(kind: RegisterKind, i: int) {
    }

    proof fn lemma_at_injective(kind: RegisterKind, i: int, j: int) {
    }

    fn at(idx: BitIdx) -> (pos: BitPos) {
        BitPos::new_unchecked(idx.kind(), idx.value())
    }
}

/// The high-edge-first ordering: the register is reversed, so semantic index
/// `i` maps to electrical position `BITS - 1 - i`.
pub struct Msb0;

impl BitOrder for Msb0 {
    open spec fn spec_at(kind: RegisterKind, i: int) -> int {
        kind.spec_bits() - 1 - i
    }

    proof fn lemma_at_in_range(kind: RegisterKind, i: int) {
    }

    proof fn lemma_at_injective(kind: RegisterKind, i: int, j: int) {
    }

    fn at(idx: BitIdx) -> (pos: BitPos) {
        proof {
            idx.spec_kind().lemma_constants();
        }
        BitPos::new_unchecked(idx.kind(), idx.kind().mask() - idx.value())
    }
}

/// The two canonical orderings are duals: for every index of a register, the
/// low-edge position and the high-edge position sit at opposite ends, so
/// their sum is one less than the width.
pub proof fn lemma_ordering_dual(kind: RegisterKind, i: int)
    requires
        0 <= i < kind.spec_bits(),
    ensures
        Lsb0::spec_at(kind, i) + Msb0::spec_at(kind, i) + 1 == kind.spec_bits(),
{
}

/// The low-edge-first translation is a bijection of the register's index
/// range onto its position range: it stays in range, never merges two
/// indices, and reaches every position (the last clause names the index that
/// lands on each position, so every position is reached).
pub proof fn lemma_lsb0_bijective(kind: RegisterKind)
    ensures
        forall|i: int|
            0 <= i < kind.spec_bits() ==> 0 <= #[trigger] Lsb0::spec_at(kind, i)
                < kind.spec_bits(),
        forall|i: int, j: int|
            0 <= i < kind.spec_bits() && 0 <= j < kind.spec_bits()
                && #[trigger] Lsb0::spec_at(kind, i) == #[trigger] Lsb0::spec_at(kind, j) ==> i
                == j,
        forall|p: int|
            0 <= p < kind.spec_bits() ==> #[trigger] Lsb0::spec_at(kind, p) == p,
{
}

/// The high-edge-first translation is a bijection of the register's index
/// range onto its position range: it stays in range, never merges two
/// indices, and reaches every position (the last clause names the index that
/// lands on each position, so every position is reached).
pub proof fn lemma_msb0_bijective(kind: RegisterKind)
    ensures
        forall|i: int|
            0 <= i < kind.spec_bits() ==> 0 <= #[trigger] Msb0::spec_at(kind, i)
                < kind.spec_bits(),
        forall|i: int, j: int|
            0 <= i < kind.spec_bits() && 0 <= j < kind.spec_bits()
                && #[trigger] Msb0::spec_at(kind, i) == #[trigger] Msb0::spec_at(kind, j) ==> i
                == j,
        forall|p: int|
            0 <= p < kind.spec_bits() ==> #[trigger] Msb0::spec_at(kind, kind.spec_bits() - 1 - p)
                == p,
{
}

} // verus!
