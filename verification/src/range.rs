//! Finite ranges of counters.
//!
//! Each range walks the counters of one register width between a low and a
//! high bound, from either end, and reports exactly how many values remain.
//! A range that has been exhausted stays exhausted: advancing it further
//! keeps yielding nothing and leaves it unchanged.

use vstd::prelude::*;
use vstd::arithmetic::power2::pow2;

use crate::index::{BitIdx, BitPos, BitSel, BitTail};
use crate::register::RegisterKind;

verus! {

/// A range of semantic indices, yielding [`BitIdx`] values `cur .. end`.
#[derive(Clone, Copy, PartialEq, Eq, Structural, Debug)]
pub struct BitIdxRange {
    /// The register width the indices govern.
    kind: RegisterKind,
    /// The next value the front of the range will yield.
    cur: u8,
    /// The exclusive upper bound of the range.
    end: u8,
}

impl BitIdxRange {
    /// The register width the indices govern.
    pub closed spec fn spec_kind(self) -> RegisterKind {
        self.kind
    }

    /// The next value the front of the range will yield.
    pub closed spec fn spec_cur(self) -> u8 {
        self.cur
    }

    /// The exclusive upper bound of the range.
    pub closed spec fn spec_end(self) -> u8 {
        self.end
    }

    /// The range invariant: the bounds are ordered and every value the range
    /// can yield is a valid index of the width.
    pub open spec fn wf(self) -> bool {
        self.spec_cur() <= self.spec_end() <= self.spec_kind().spec_bits()
    }

    /// Builds the range of indices `from .. end` of width `kind`.
    pub(crate) fn make(kind: RegisterKind, from: u8, end: u8) -> (r: Self)
        requires
            from <= end <= kind.spec_bits(),
        ensures
            r.wf(),
            r.spec_kind() == kind,
            r.spec_cur() == from,
            r.spec_end() == end,
    {
        BitIdxRange { kind, cur: from, end }
    }

    /// Yields the lowest remaining index and advances past it, or yields
    /// nothing and stays exhausted.
    pub fn next(&mut self) -> (r: Option<BitIdx>)
        requires
            old(self).wf(),
        ensures
            final(self).wf(),
            final(self).spec_kind() == old(self).spec_kind(),
            final(self).spec_end() == old(self).spec_end(),
            old(self).spec_cur() < old(self).spec_end() ==> (r matches Some(i) && i.wf()
                && i.spec_kind() == old(self).spec_kind() && i.spec_value() == old(self).spec_cur()
                && final(self).spec_cur() == old(self).spec_cur() + 1),
            old(self).spec_cur() >= old(self).spec_end() ==> r is None && *final(self) == *old(self),
    {
        if self.cur < self.end {
            let i = BitIdx::new_unchecked(self.kind, self.cur);
            self.cur = self.cur + 1;
            Some(i)
        } else {
            None
        }
    }

    /// Yields the highest remaining index and retreats before it, or yields
    /// nothing and stays exhausted.
    pub fn next_back(&mut self) -> (r: Option<BitIdx>)
        requires
            old(self).wf(),
        ensures
            final(self).wf(),
            final(self).spec_kind() == old(self).spec_kind(),
            final(self).spec_cur() == old(self).spec_cur(),
            old(self).spec_cur() < old(self).spec_end() ==> (r matches Some(i) && i.wf()
                && i.spec_kind() == old(self).spec_kind() && i.spec_value() == old(
                self,
            ).spec_end() - 1 && final(self).spec_end() == old(self).spec_end() - 1),
            old(self).spec_cur() >= old(self).spec_end() ==> r is None && *final(self) == *old(self),
    {
        if self.cur < self.end {
            self.end = self.end - 1;
            Some(BitIdx::new_unchecked(self.kind, self.end))
        } else {
            None
        }
    }

    /// The exact number of values the range will still yield.
    pub fn len(&self) -> (n: usize)
        requires
            self.wf(),
        ensures
            n == self.spec_end() - self.spec_cur(),
    {
        (self.end - self.cur) as usize
    }
}

/// A range of tail markers, yielding [`BitTail`] values `cur ..= BITS`.
#[derive(Clone, Copy, PartialEq, Eq, Structural, Debug)]
pub struct BitTailRange {
    /// The register width the tails govern.
    kind: RegisterKind,
    /// The next value the front of the range will yield.
    cur: u8,
    /// The exclusive upper bound of the range: one past the width.
    end: u8,
}

impl BitTailRange {
    /// The register width the tails govern.
    pub closed spec fn spec_kind(self) -> RegisterKind {
        self.kind
    }

    /// The next value the front of the range will yield.
    pub closed spec fn spec_cur(self) -> u8 {
        self.cur
    }

    /// The exclusive upper bound of the range.
    pub closed spec fn spec_end(self) -> u8 {
        self.end
    }

    /// The range invariant: the bounds are ordered and every value the range
    /// can yield is a valid tail of the width.
    pub open spec fn wf(self) -> bool {
        self.spec_cur() <= self.spec_end() <= self.spec_kind().spec_bits() + 1
    }

    /// Builds the range of tails `from ..= kind.bits()` of width `kind`.
    pub(crate) fn make(kind: RegisterKind, from: u8) -> (r: Self)
        requires
            from <= kind.spec_bits(),
        ensures
            r.wf(),
            r.spec_kind() == kind,
            r.spec_cur() == from,
            r.spec_end() == kind.spec_bits() + 1,
    {
        proof {
            kind.lemma_constants();
        }
        BitTailRange { kind, cur: from, end: kind.bits() + 1 }
    }

    /// Yields the lowest remaining tail and advances past it, or yields
    /// nothing and stays exhausted.
    pub fn next(&mut self) -> (r: Option<BitTail>)
        requires
            old(self).wf(),
        ensures
            final(self).wf(),
            final(self).spec_kind() == old(self).spec_kind(),
            final(self).spec_end() == old(self).spec_end(),
            old(self).spec_cur() < old(self).spec_end() ==> (r matches Some(t) && t.wf()
                && t.spec_kind() == old(self).spec_kind() && t.spec_value() == old(self).spec_cur()
                && final(self).spec_cur() == old(self).spec_cur() + 1),
            old(self).spec_cur() >= old(self).spec_end() ==> r is None && *final(self) == *old(self),
    {
        if self.cur < self.end {
            let t = BitTail::new_unchecked(self.kind, self.cur);
            self.cur = self.cur + 1;
            Some(t)
        } else {
            None
        }
    }

    /// Yields the highest remaining tail and retreats before it, or yields
    /// nothing and stays exhausted.
    pub fn next_back(&mut self) -> (r: Option<BitTail>)
        requires
            old(self).wf(),
        ensures
            final(self).wf(),
            final(self).spec_kind() == old(self).spec_kind(),
            final(self).spec_cur() == old(self).spec_cur(),
            old(self).spec_cur() < old(self).spec_end() ==> (r matches Some(t) && t.wf()
                && t.spec_kind() == old(self).spec_kind() && t.spec_value() == old(
                self,
            ).spec_end() - 1 && final(self).spec_end() == old(self).spec_end() - 1),
            old(self).spec_cur() >= old(self).spec_end() ==> r is None && *final(self) == *old(self),
    {
        if self.cur < self.end {
            self.end = self.end - 1;
            Some(BitTail::new_unchecked(self.kind, self.end))
        } else {
            None
        }
    }

    /// The exact number of values the range will still yield.
    pub fn len(&self) -> (n: usize)
        requires
            self.wf(),
        ensures
            n == self.spec_end() - self.spec_cur(),
    {
        (self.end - self.cur) as usize
    }
}

/// A range of electrical positions, yielding [`BitPos`] values `cur .. end`.
#[derive(Clone, Copy, PartialEq, Eq, Structural, Debug)]
pub struct BitPosRange {
    /// The register width the positions govern.
    kind: RegisterKind,
    /// The next value the front of the range will yield.
    cur: u8,
    /// The exclusive upper bound of the range.
    end: u8,
}

impl BitPosRange {
    /// The register width the positions govern.
    pub closed spec fn spec_kind(self) -> RegisterKind {
        self.kind
    }

    /// The next value the front of the range will yield.
    pub closed spec fn spec_cur(self) -> u8 {
        self.cur
    }

    /// The exclusive upper bound of the range.
    pub closed spec fn spec_end(self) -> u8 {
        self.end
    }

    /// The range invariant: the bounds are ordered and every value the range
    /// can yield is a valid position of the width.
    pub open spec fn wf(self) -> bool {
        self.spec_cur() <= self.spec_end() <= self.spec_kind().spec_bits()
    }

    /// Builds the range of all positions `0 .. kind.bits()` of width `kind`.
    pub(crate) fn make_all(kind: RegisterKind) -> (r: Self)
        ensures
            r.wf(),
            r.spec_kind() == kind,
            r.spec_cur() == 0,
            r.spec_end() == kind.spec_bits(),
    {
        BitPosRange { kind, cur: 0, end: kind.bits() }
    }

    /// Yields the lowest remaining position and advances past it, or yields
    /// nothing and stays exhausted.
    pub fn next(&mut self) -> (r: Option<BitPos>)
        requires
            old(self).wf(),
        ensures
            final(self).wf(),
            final(self).spec_kind() == old(self).spec_kind(),
            final(self).spec_end() == old(self).spec_end(),
            old(self).spec_cur() < old(self).spec_end() ==> (r matches Some(p) && p.wf()
                && p.spec_kind() == old(self).spec_kind() && p.spec_value() == old(self).spec_cur()
                && final(self).spec_cur() == old(self).spec_cur() + 1),
            old(self).spec_cur() >= old(self).spec_end() ==> r is None && *final(self) == *old(self),
    {
        if self.cur < self.end {
            let p = BitPos::new_unchecked(self.kind, self.cur);
            self.cur = self.cur + 1;
            Some(p)
        } else {
            None
        }
    }

    /// Yields the highest remaining position and retreats before it, or
    /// yields nothing and stays exhausted.
    pub fn next_back(&mut self) -> (r: Option<BitPos>)
        requires
            old(self).wf(),
        ensures
            final(self).wf(),
            final(self).spec_kind() == old(self).spec_kind(),
            final(self).spec_cur() == old(self).spec_cur(),
            old(self).spec_cur() < old(self).spec_end() ==> (r matches Some(p) && p.wf()
                && p.spec_kind() == old(self).spec_kind() && p.spec_value() == old(
                self,
            ).spec_end() - 1 && final(self).spec_end() == old(self).spec_end() - 1),
            old(self).spec_cur() >= old(self).spec_end() ==> r is None && *final(self) == *old(self),
    {
        if self.cur < self.end {
            self.end = self.end - 1;
            Some(BitPos::new_unchecked(self.kind, self.end))
        } else {
            None
        }
    }

    /// The exact number of values the range will still yield.
    pub fn len(&self) -> (n: usize)
        requires
            self.wf(),
        ensures
            n == self.spec_end() - self.spec_cur(),
    {
        (self.end - self.cur) as usize
    }
}

/// A range of one-hot selectors: each position of [`BitPosRange`] mapped
/// through [`BitPos::select`], so the front yields `1 << cur`.
#[derive(Clone, Copy, PartialEq, Eq, Structural, Debug)]
pub struct BitSelRange {
    /// The positions whose selectors remain to be yielded.
    inner: BitPosRange,
}

impl BitSelRange {
    /// The register width the selectors govern.
    pub closed spec fn spec_kind(self) -> RegisterKind {
        self.inner.spec_kind()
    }

    /// The position whose selector the front of the range will yield.
    pub closed spec fn spec_cur(self) -> u8 {
        self.inner.spec_cur()
    }

    /// The exclusive upper bound of the underlying positions.
    pub closed spec fn spec_end(self) -> u8 {
        self.inner.spec_end()
    }

    /// The range invariant of the underlying positions.
    pub open spec fn wf(self) -> bool {
        self.spec_cur() <= self.spec_end() <= self.spec_kind().spec_bits()
    }

    /// Builds the range of the selectors of all positions of width `kind`.
    pub(crate) fn make_all(kind: RegisterKind) -> (r: Self)
        ensures
            r.wf(),
            r.spec_kind() == kind,
            r.spec_cur() == 0,
            r.spec_end() == kind.spec_bits(),
    {
        BitSelRange { inner: BitPosRange::make_all(kind) }
    }

    /// Yields the selector of the lowest remaining position and advances
    /// past it, or yields nothing and stays exhausted.
    pub fn next(&mut self) -> (r: Option<BitSel>)
        requires
            old(self).wf(),
        ensures
            final(self).wf(),
            final(self).spec_kind() == old(self).spec_kind(),
            final(self).spec_end() == old(self).spec_end(),
            old(self).spec_cur() < old(self).spec_end() ==> (r matches Some(s) && s.wf()
                && s.spec_kind() == old(self).spec_kind() && s.spec_value() == pow2(
                old(self).spec_cur() as nat,
            ) && final(self).spec_cur() == old(self).spec_cur() + 1),
            old(self).spec_cur() >= old(self).spec_end() ==> r is None && *final(self) == *old(self),
    {
        match self.inner.next() {
            Some(p) => Some(p.select()),
            None => None,
        }
    }

    /// Yields the selector of the highest remaining position and retreats
    /// before it, or yields nothing and stays exhausted.
    pub fn next_back(&mut self) -> (r: Option<BitSel>)
        requires
            old(self).wf(),
        ensures
            final(self).wf(),
            final(self).spec_kind() == old(self).spec_kind(),
            final(self).spec_cur() == old(self).spec_cur(),
            old(self).spec_cur() < old(self).spec_end() ==> (r matches Some(s) && s.wf()
                && s.spec_kind() == old(self).spec_kind() && s.spec_value() == pow2(
                (old(self).spec_end() - 1) as nat,
            ) && final(self).spec_end() == old(self).spec_end() - 1),
            old(self).spec_cur() >= old(self).spec_end() ==> r is None && *final(self) == *old(self),
    {
        match self.inner.next_back() {
            Some(p) => Some(p.select()),
            None => None,
        }
    }

    /// The exact number of values the range will still yield.
    pub fn len(&self) -> (n: usize)
        requires
            self.wf(),
        ensures
            n == self.spec_end() - self.spec_cur(),
    {
        self.inner.len()
    }
}

} // verus!
