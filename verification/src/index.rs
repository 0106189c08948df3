//! Typed counters within a register.
//!
//! Each counter wraps a plain integer together with the [`RegisterKind`] it
//! governs, and maintains a range invariant bound to that width:
//!
//! - [`BitIdx`] is a semantic index of a live bit, in `0 .. BITS`;
//! - [`BitTail`] marks the dead bit one past a live region, in `0 ..= BITS`;
//! - [`BitIdxErr`] carries a value rejected as an index, in `BITS ..`;
//! - [`BitPos`] is an electrical shift distance, in `0 .. BITS`;
//! - [`BitSel`] is a one-hot register value selecting exactly one bit;
//! - [`BitMask`] is an arbitrary register value used as a set of bits.
//!
//! The constructors establish the invariants and every operation preserves
//! them, so a counter in hand always addresses a bit inside its register.

use vstd::prelude::*;
use vstd::arithmetic::div_mod::{
    lemma_fundamental_div_mod,
    lemma_small_mod,
    lemma_fundamental_div_mod_converse,
    lemma_div_is_ordered,
    lemma_div_is_ordered_by_denominator,
    lemma_div_pos_is_pos,
};
use vstd::arithmetic::mul::{
    lemma_mul_is_commutative,
    lemma_mul_is_distributive_add,
    lemma_mul_unary_negation,
};

use vstd::arithmetic::power2::{
    pow2,
    lemma_pow2_pos,
    lemma_pow2_unfold,
    lemma_pow2_strictly_increases,
    lemma2_to64,
};
use vstd::bits::lemma_u64_shl_is_mul;

use crate::order::BitOrder;
use crate::range::{BitIdxRange, BitPosRange, BitSelRange, BitTailRange};
use crate::register::{
    RegisterKind,
    popcount,
    lemma_popcount_zero,
    lemma_popcount_one,
    lemma_onehot_popcount,
    lemma_and_le,
    lemma_and_le_right,
    lemma_or_fits,
};

verus! {

/// A semantic index of one live bit within a register.
///
/// The value is a virtual coordinate: it has not yet been translated to an
/// electrical shift distance, and it is the quantity stored in pointer
/// encodings to track where a bit region begins.
#[derive(Clone, Copy, PartialEq, Eq, Structural, Debug)]
pub struct BitIdx {
    /// The register width this index governs.
    kind: RegisterKind,
    /// The counter value, constrained to `0 .. kind.bits()`.
    idx: u8,
}

impl BitIdx {
    /// The register width this index governs.
    pub closed spec fn spec_kind(self) -> RegisterKind {
        self.kind
    }

    /// The wrapped counter value.
    pub closed spec fn spec_value(self) -> u8 {
        self.idx
    }

    /// The range invariant: the counter lies strictly below the width.
    pub open spec fn wf(self) -> bool {
        self.spec_value() < self.spec_kind().spec_bits()
    }

    /// The inclusive maximum index within a register of width `kind`.
    pub fn last(kind: RegisterKind) -> (r: Self)
        ensures
            r.wf(),
            r.spec_kind() == kind,
            r.spec_value() == kind.spec_mask(),
    {
        proof { kind.lemma_constants(); }
        BitIdx { kind, idx: kind.mask() }
    }

    /// The inclusive minimum index within a register of width `kind`.
    pub fn zero(kind: RegisterKind) -> (r: Self)
        ensures
            r.wf(),
            r.spec_kind() == kind,
            r.spec_value() == 0,
    {
        BitIdx { kind, idx: 0 }
    }

    /// Wraps a counter value as a checked index into a register of width
    /// `kind`.
    ///
    /// Returns the wrapped index when `value` lies in `0 .. kind.bits()`, and
    /// otherwise an error carrying the offending value.
    pub fn new(kind: RegisterKind, value: u8) -> (r: Result<Self, BitIdxErr>)
        ensures
            r is Ok <==> value < kind.spec_bits(),
            r matches Ok(i) ==> i.wf() && i.spec_kind() == kind && i.spec_value() == value,
            r matches Err(e) ==> e.wf() && e.spec_kind() == kind && e.spec_value() == value,
    {
        if value >= kind.bits() {
            return Err(BitIdxErr::new(kind, value));
        }
        Ok(Self::new_unchecked(kind, value))
    }

    /// Wraps a counter value as an assumed-good index.
    ///
    /// Trusted interior construction: the caller must already know that the
    /// value lies inside the register.
    pub(crate) fn new_unchecked(kind: RegisterKind, value: u8) -> (r: Self)
        requires
            value < kind.spec_bits(),
        ensures
            r.wf(),
            r.spec_kind() == kind,
            r.spec_value() == value,
    {
        BitIdx { kind, idx: value }
    }

    /// Removes the index wrapper, leaving the internal counter.
    pub fn value(self) -> (v: u8)
        ensures
            v == self.spec_value(),
    {
        self.idx
    }

    /// The register width this index governs.
    pub fn kind(self) -> (k: RegisterKind)
        ensures
            k == self.spec_kind(),
    {
        self.kind
    }

    /// Computes the electrical position corresponding to this index under
    /// the ordering `O`.
    ///
    /// This forwards to `O::at`, the only route by which a position counter
    /// is produced.
    pub fn position<O: BitOrder>(self) -> (pos: BitPos)
        requires
            self.wf(),
        ensures
            pos.wf(),
            pos.spec_kind() == self.spec_kind(),
            pos.spec_value() == O::spec_at(self.spec_kind(), self.spec_value() as int),
    {
        O::at(self)
    }

    /// Computes the one-hot selector corresponding to this index under the
    /// ordering `O`: always `1 << position` of the translated position.
    pub fn select<O: BitOrder>(self) -> (sel: BitSel)
        requires
            self.wf(),
        ensures
            sel.wf(),
            sel.spec_kind() == self.spec_kind(),
            sel.spec_value() == pow2(O::spec_at(self.spec_kind(), self.spec_value() as int) as nat),
    {
        O::select(self)
    }

    /// Computes the selector for this index under the ordering `O` as an
    /// accessor mask.
    pub fn mask<O: BitOrder>(self) -> (m: BitMask)
        requires
            self.wf(),
        ensures
            m.wf(),
            m.spec_kind() == self.spec_kind(),
            m.spec_value() == pow2(O::spec_at(self.spec_kind(), self.spec_value() as int) as nat),
    {
        O::mask(self)
    }

    /// Iterates over all indices from this inclusive start up to an
    /// exclusive end point.
    ///
    /// The start must not lie above the end point.
    pub fn range(self, upto: BitTail) -> (r: BitIdxRange)
        requires
            self.wf(),
            upto.wf(),
            upto.spec_kind() == self.spec_kind(),
            self.spec_value() <= upto.spec_value(),
        ensures
            r.wf(),
            r.spec_kind() == self.spec_kind(),
            r.spec_cur() == self.spec_value(),
            r.spec_end() == upto.spec_value(),
    {
        BitIdxRange::make(self.kind, self.idx, upto.value())
    }

    /// Iterates over all index values of a register of width `kind`.
    pub fn range_all(kind: RegisterKind) -> (r: BitIdxRange)
        ensures
            r.wf(),
            r.spec_kind() == kind,
            r.spec_cur() == 0,
            r.spec_end() == kind.spec_bits(),
    {
        BitIdxRange::make(kind, 0, kind.bits())
    }

    /// Increments the index, wrapping at the back edge of the register.
    ///
    /// The new index is `(self.value() + 1) mod BITS`; the flag is set exactly
    /// when the successor lies in the next register.
    pub fn next(self) -> (r: (Self, bool))
        requires
            self.wf(),
        ensures
            r.0.wf(),
            r.0.spec_kind() == self.spec_kind(),
            r.0.spec_value() == (self.spec_value() + 1) % (self.spec_kind().spec_bits() as int),
            r.1 <==> self.spec_value() + 1 == self.spec_kind().spec_bits(),
    {
        let bits = self.kind.bits();
        let next = self.idx + 1;
        (BitIdx { kind: self.kind, idx: next % bits }, next == bits)
    }

    /// Decrements the index, wrapping at the front edge of the register.
    ///
    /// The new index is `(self.value() - 1) mod BITS`; the flag is set exactly
    /// when the predecessor lies in the previous register.
    pub fn prev(self) -> (r: (Self, bool))
        requires
            self.wf(),
        ensures
            r.0.wf(),
            r.0.spec_kind() == self.spec_kind(),
            r.0.spec_value() == (self.spec_value() + self.spec_kind().spec_bits() - 1) % (
                self.spec_kind().spec_bits() as int),
            r.1 <==> self.spec_value() == 0,
    {
        let bits = self.kind.bits();
        let prev = (self.idx + bits - 1) % bits;
        (BitIdx { kind: self.kind, idx: prev }, self.idx == 0)
    }

    /// Computes the jump distance for some number of bits away from this
    /// index.
    ///
    /// Returns the number of registers by which to adjust a base pointer
    /// (negative values move lower in memory) and the index of the
    /// destination bit within the destination register. The contract is
    /// exact: the register delta times the width, plus the new index, equals
    /// this index plus the jump distance.
    pub fn offset(self, by: isize) -> (r: (isize, Self))
        requires
            self.wf(),
        ensures
            r.1.wf(),
            r.1.spec_kind() == self.spec_kind(),
            r.0 * self.spec_kind().spec_bits() + r.1.spec_value() == self.spec_value() + by,
    {
        let bits = self.kind.bits();
        let b64 = bits as u64;
        let sum: i128 = by as i128 + self.idx as i128;

        if sum >= 0 {
            proof {
                lemma_offset_quotient_bounds(sum as int, bits as int);
            }
            let s = sum as u64;
            let q = s / b64;
            let rm = (s % b64) as u8;
            proof {
                lemma_fundamental_div_mod(s as int, b64 as int);
                lemma_mul_is_commutative(b64 as int, q as int);
            }
            (q as isize, BitIdx { kind: self.kind, idx: rm })
        } else {
            proof {
                lemma_offset_quotient_bounds(-(sum + 1), bits as int);
            }
            let n = (-(sum + 1)) as u64;
            let q0 = n / b64;
            let r0 = (n % b64) as u8;
            let elts = (-((q0 as i128) + 1)) as isize;
            proof {
                let b = bits as int;
                lemma_fundamental_div_mod(n as int, b);
                lemma_mul_is_distributive_add(b, q0 as int, 1);
                lemma_mul_is_commutative(b, q0 as int);
                lemma_mul_is_commutative(b, q0 + 1);
                lemma_mul_unary_negation(q0 + 1, b);
            }
            (elts, BitIdx { kind: self.kind, idx: bits - 1 - r0 })
        }
    }

    /// Computes the span information for a region beginning at this index
    /// and running for `len` bits.
    ///
    /// This treats the index value as the tail of a preceding region, as
    /// beginning a span at an index is the same as beginning it at the dead
    /// bit of the previous span; see [`BitTail::span`].
    pub fn span(self, len: usize) -> (r: (usize, BitTail))
        requires
            self.wf(),
        ensures
            r.1.wf(),
            r.1.spec_kind() == self.spec_kind(),
            len == 0 ==> r.0 == 0 && r.1.spec_value() == self.spec_value(),
            len > 0 ==> spec_span(
                self.spec_kind(),
                self.spec_value() as int,
                len as int,
                r.0 as int,
                r.1.spec_value() as int,
            ),
    {
        proof {
            lemma_small_mod(self.idx as nat, self.kind.spec_bits() as nat);
        }
        BitTail::new_unchecked(self.kind, self.idx).span(len)
    }
}

/// The quotient of a nonnegative bit distance by a register width stays
/// strictly inside the `isize` range, so it can serve as a pointer offset.
proof fn lemma_offset_quotient_bounds(s: int, b: int)
    requires
        0 <= s <= isize::MAX + 64,
        8 <= b <= 64,
    ensures
        0 <= s / b <= isize::MAX,
        s < u64::MAX,
{
    lemma_div_is_ordered_by_denominator(s, 8, b);
    lemma_div_is_ordered(s, isize::MAX + 64, 8);
    lemma_fundamental_div_mod(isize::MAX + 64, 8);
    lemma_div_pos_is_pos(s, b);
}

/// A counter value rejected as an index for its register width.
#[derive(Clone, Copy, PartialEq, Eq, Structural, Debug)]
pub struct BitIdxErr {
    /// The register width the value was rejected for.
    kind: RegisterKind,
    /// The rejected value, not less than `kind.bits()`.
    err: u8,
}

impl BitIdxErr {
    /// The register width the value was rejected for.
    pub closed spec fn spec_kind(self) -> RegisterKind {
        self.kind
    }

    /// The wrapped counter value.
    pub closed spec fn spec_value(self) -> u8 {
        self.err
    }

    /// The invariant: the value is out of range as an index.
    pub open spec fn wf(self) -> bool {
        self.spec_value() >= self.spec_kind().spec_bits()
    }

    /// Marks a counter value as invalid to be an index of a register of
    /// width `kind`.
    pub(crate) fn new(kind: RegisterKind, value: u8) -> (r: Self)
        requires
            value >= kind.spec_bits(),
        ensures
            r.wf(),
            r.spec_kind() == kind,
            r.spec_value() == value,
    {
        BitIdxErr { kind, err: value }
    }

    /// Removes the error wrapper, leaving the internal counter.
    pub fn value(self) -> (v: u8)
        ensures
            v == self.spec_value(),
    {
        self.err
    }

    /// The register width the value was rejected for.
    pub fn kind(self) -> (k: RegisterKind)
        ensures
            k == self.spec_kind(),
    {
        self.kind
    }
}

/// A semantic counter within, or one bit past the end of, a register.
///
/// A tail marks the first dead bit after a live region, following the
/// first-live/first-dead convention for region endpoints. It is the only
/// counter permitted to hold the register width itself, and it cannot be used
/// to address a bit: it serves only in region computation.
#[derive(Clone, Copy, PartialEq, Eq, Structural, Debug)]
pub struct BitTail {
    /// The register width this tail governs.
    kind: RegisterKind,
    /// The counter value, constrained to `0 ..= kind.bits()`.
    end: u8,
}

impl BitTail {
    /// The register width this tail governs.
    pub closed spec fn spec_kind(self) -> RegisterKind {
        self.kind
    }

    /// The wrapped counter value.
    pub closed spec fn spec_value(self) -> u8 {
        self.end
    }

    /// The range invariant: the counter does not exceed the width.
    pub open spec fn wf(self) -> bool {
        self.spec_value() <= self.spec_kind().spec_bits()
    }

    /// The inclusive maximum tail within a register of width `kind`.
    pub fn last(kind: RegisterKind) -> (r: Self)
        ensures
            r.wf(),
            r.spec_kind() == kind,
            r.spec_value() == kind.spec_bits(),
    {
        BitTail { kind, end: kind.bits() }
    }

    /// The inclusive minimum tail within a register of width `kind`.
    pub fn zero(kind: RegisterKind) -> (r: Self)
        ensures
            r.wf(),
            r.spec_kind() == kind,
            r.spec_value() == 0,
    {
        BitTail { kind, end: 0 }
    }

    /// Wraps a counter value as a checked tail of a register of width `kind`.
    ///
    /// Returns `Some` exactly when `value` lies in `0 ..= kind.bits()`.
    pub fn new(kind: RegisterKind, value: u8) -> (r: Option<Self>)
        ensures
            r is Some <==> value <= kind.spec_bits(),
            r matches Some(t) ==> t.wf() && t.spec_kind() == kind && t.spec_value() == value,
    {
        if value > kind.bits() {
            return None;
        }
        Some(Self::new_unchecked(kind, value))
    }

    /// Wraps a counter value as an assumed-good tail.
    ///
    /// Trusted interior construction: the caller must already know that the
    /// value does not exceed the register width.
    pub(crate) fn new_unchecked(kind: RegisterKind, value: u8) -> (r: Self)
        requires
            value <= kind.spec_bits(),
        ensures
            r.wf(),
            r.spec_kind() == kind,
            r.spec_value() == value,
    {
        BitTail { kind, end: value }
    }

    /// Removes the tail wrapper, leaving the internal counter.
    pub fn value(self) -> (v: u8)
        ensures
            v == self.spec_value(),
    {
        self.end
    }

    /// The register width this tail governs.
    pub fn kind(self) -> (k: RegisterKind)
        ensures
            k == self.spec_kind(),
    {
        self.kind
    }

    /// Iterates over all tail values at and after an inclusive starting
    /// index, up to and including the register width.
    pub fn range_from(from: BitIdx) -> (r: BitTailRange)
        requires
            from.wf(),
        ensures
            r.wf(),
            r.spec_kind() == from.spec_kind(),
            r.spec_cur() == from.spec_value(),
            r.spec_end() == from.spec_kind().spec_bits() + 1,
    {
        BitTailRange::make(from.kind(), from.value())
    }

    /// Computes the span information for a region of `len` live bits that
    /// begins immediately after the dead bit marked by `self`.
    ///
    /// Returns the number of registers that contain at least one live bit of
    /// the region, and the tail marking the first dead bit after it. A tail
    /// equal to the register width starts the region in the next register,
    /// which is the register counted first.
    ///
    /// The contract pins both results: writing `head` for the start bit of
    /// the region within its first register, the register count is
    /// `ceil((head + len) / BITS)`, the new tail is `(head + len) mod BITS`
    /// (or `BITS` itself when the region ends on a register boundary), and
    /// together they cover exactly `len` live bits.
    pub fn span(self, len: usize) -> (r: (usize, BitTail))
        requires
            self.wf(),
        ensures
            r.1.wf(),
            r.1.spec_kind() == self.spec_kind(),
            len == 0 ==> r.0 == 0 && r.1 == self,
            len > 0 ==> spec_span(
                self.spec_kind(),
                self.spec_value() as int % self.spec_kind().spec_bits() as int,
                len as int,
                r.0 as int,
                r.1.spec_value() as int,
            ),
    {
        if len == 0 {
            return (0, self);
        }

        let bits = self.kind.bits();
        let head = self.end % bits;
        let bits_in_head = (bits - head) as usize;

        if len <= bits_in_head {
            return (1, BitTail::new_unchecked(self.kind, head + len as u8));
        }

        let bits_after_head = len - bits_in_head;
        let elts = bits_after_head / (bits as usize);
        let tail = (bits_after_head % (bits as usize)) as u8;

        proof {
            self.kind.lemma_constants();
            let b = bits as int;
            let bah = bits_after_head as int;
            let q = bah / b;
            let t = bah % b;
            let hl = head + len as int;
            lemma_fundamental_div_mod(bah, b);
            // `elts + 2` stays within `usize`: the quotient is at most an
            // eighth of the dividend.
            lemma_div_is_ordered_by_denominator(bah, 8, b);
            lemma_div_is_ordered(bah, usize::MAX as int, 8);
            lemma_fundamental_div_mod(usize::MAX as int, 8);
            assert(q + 2 <= usize::MAX);
            // Expand the products so the division characterisations below
            // are linear.
            lemma_mul_is_distributive_add(b, q, 1);
            lemma_mul_is_distributive_add(b, q, 2);
            lemma_mul_is_commutative(b, q + 1);
            lemma_mul_is_commutative(b, q + 2);
            if t == 0 {
                lemma_fundamental_div_mod_converse(hl + b - 1, b, q + 1, b - 1);
                lemma_fundamental_div_mod_converse(hl, b, q + 1, 0);
            } else {
                lemma_fundamental_div_mod_converse(hl + b - 1, b, q + 2, t - 1);
                lemma_fundamental_div_mod_converse(hl, b, q + 1, t);
            }
        }
        if tail == 0 {
            (elts + 1, BitTail::new_unchecked(self.kind, bits))
        } else {
            (elts + 2, BitTail::new_unchecked(self.kind, tail))
        }
    }
}

/// An electrical position of one bit within a register.
///
/// The value is the shift distance used in `1 << pos` to reach the bit on the
/// memory bus. It is produced by translating a [`BitIdx`] through a
/// [`crate::order::BitOrder`] implementation.
#[derive(Clone, Copy, PartialEq, Eq, Structural, Debug)]
pub struct BitPos {
    /// The register width this position governs.
    kind: RegisterKind,
    /// The counter value, constrained to `0 .. kind.bits()`.
    pos: u8,
}

impl BitPos {
    /// The register width this position governs.
    pub closed spec fn spec_kind(self) -> RegisterKind {
        self.kind
    }

    /// The wrapped counter value.
    pub closed spec fn spec_value(self) -> u8 {
        self.pos
    }

    /// The range invariant: the counter lies strictly below the width.
    pub open spec fn wf(self) -> bool {
        self.spec_value() < self.spec_kind().spec_bits()
    }

    /// Wraps a counter value as a checked position within a register of width
    /// `kind`.
    ///
    /// Returns `Some` exactly when `value` lies in `0 .. kind.bits()`.
    pub fn new(kind: RegisterKind, value: u8) -> (r: Option<Self>)
        ensures
            r is Some <==> value < kind.spec_bits(),
            r matches Some(p) ==> p.wf() && p.spec_kind() == kind && p.spec_value() == value,
    {
        if value >= kind.bits() {
            return None;
        }
        Some(Self::new_unchecked(kind, value))
    }

    /// Wraps a counter value as an assumed-good position.
    ///
    /// The caller must already know that the value lies inside the register.
    pub fn new_unchecked(kind: RegisterKind, value: u8) -> (r: Self)
        requires
            value < kind.spec_bits(),
        ensures
            r.wf(),
            r.spec_kind() == kind,
            r.spec_value() == value,
    {
        BitPos { kind, pos: value }
    }

    /// Removes the position wrapper, leaving the internal counter.
    pub fn value(self) -> (v: u8)
        ensures
            v == self.spec_value(),
    {
        self.pos
    }

    /// The register width this position governs.
    pub fn kind(self) -> (k: RegisterKind)
        ensures
            k == self.spec_kind(),
    {
        self.kind
    }

    /// Iterates over all position values of a register of width `kind`.
    pub(crate) fn range_all(kind: RegisterKind) -> (r: BitPosRange)
        ensures
            r.wf(),
            r.spec_kind() == kind,
            r.spec_cur() == 0,
            r.spec_end() == kind.spec_bits(),
    {
        BitPosRange::make_all(kind)
    }

    /// Computes the one-hot selector corresponding to this position.
    ///
    /// The selector value is always `1 << self.value()`.
    pub fn select(self) -> (s: BitSel)
        requires
            self.wf(),
        ensures
            s.wf(),
            s.spec_kind() == self.spec_kind(),
            s.spec_value() == pow2(self.spec_value() as nat),
    {
        proof {
            self.kind.lemma_constants();
            lemma_pow2_strictly_increases(self.pos as nat, 64);
            lemma2_to64();
            lemma_u64_shl_is_mul(1, self.pos as u64);
        }
        BitSel { kind: self.kind, sel: 1u64 << (self.pos as u64) }
    }

    /// Computes the selector for this position as an accessor mask.
    ///
    /// This is a type-cast over [`Self::select`].
    pub fn mask(self) -> (m: BitMask)
        requires
            self.wf(),
        ensures
            m.wf(),
            m.spec_kind() == self.spec_kind(),
            m.spec_value() == pow2(self.spec_value() as nat),
    {
        self.select().mask()
    }
}

/// A one-hot selection mask for a register.
///
/// A selector has exactly one bit set high and selects that bit for a test or
/// write operation. It is produced from a [`BitPos`], so a selector in hand
/// always addresses a bit inside its register width.
#[derive(Clone, Copy, PartialEq, Eq, Structural, Debug)]
pub struct BitSel {
    /// The register width this selector governs.
    kind: RegisterKind,
    /// The one-hot selector value.
    sel: u64,
}

impl BitSel {
    /// The register width this selector governs.
    pub closed spec fn spec_kind(self) -> RegisterKind {
        self.kind
    }

    /// The wrapped register value.
    pub closed spec fn spec_value(self) -> u64 {
        self.sel
    }

    /// The one-hot invariant: the value is a power of two selecting a bit
    /// inside the register width.
    pub open spec fn wf(self) -> bool {
        exists|i: nat| i < self.spec_kind().spec_bits() && self.spec_value() == pow2(i)
    }

    /// Wraps a register value as a checked one-hot selection.
    ///
    /// Returns `Some` exactly when the value has exactly one bit set high,
    /// and that bit lies within the register width.
    pub fn new(kind: RegisterKind, value: u64) -> (r: Option<Self>)
        ensures
            r is Some <==> popcount(value as nat) == 1 && kind.fits(value),
            r matches Some(s) ==> s.wf() && s.spec_kind() == kind && s.spec_value() == value,
    {
        proof {
            if value != 0 {
                lemma_onehot_popcount(value);
            } else {
                lemma_popcount_zero(0);
            }
        }
        if value != 0 && (value & (value - 1)) == 0 && value <= kind.all() {
            Some(Self::new_unchecked(kind, value))
        } else {
            None
        }
    }

    /// Wraps a register value as an assumed-good one-hot selection.
    ///
    /// The caller must already know that exactly one bit is set, inside the
    /// register width.
    pub fn new_unchecked(kind: RegisterKind, value: u64) -> (r: Self)
        requires
            popcount(value as nat) == 1,
            kind.fits(value),
        ensures
            r.wf(),
            r.spec_kind() == kind,
            r.spec_value() == value,
    {
        proof {
            lemma_popcount_one(value);
            let i = choose|i: nat| i < 64 && value == pow2(i);
            kind.lemma_constants();
            if i >= kind.spec_bits() {
                if i > kind.spec_bits() {
                    lemma_pow2_strictly_increases(kind.spec_bits() as nat, i);
                }
            }
        }
        BitSel { kind, sel: value }
    }

    /// Removes the selector wrapper, leaving the internal value.
    pub fn value(self) -> (v: u64)
        ensures
            v == self.spec_value(),
    {
        self.sel
    }

    /// The register width this selector governs.
    pub fn kind(self) -> (k: RegisterKind)
        ensures
            k == self.spec_kind(),
    {
        self.kind
    }

    /// Iterates over all selector values of a register of width `kind`, in
    /// ascending position order.
    pub fn range_all(kind: RegisterKind) -> (r: BitSelRange)
        ensures
            r.wf(),
            r.spec_kind() == kind,
            r.spec_cur() == 0,
            r.spec_end() == kind.spec_bits(),
    {
        BitSelRange::make_all(kind)
    }

    /// Computes a multi-bit mask holding exactly this selection. This is a
    /// type-cast.
    pub fn mask(self) -> (m: BitMask)
        requires
            self.wf(),
        ensures
            m.wf(),
            m.spec_kind() == self.spec_kind(),
            m.spec_value() == self.spec_value(),
    {
        proof {
            self.lemma_fits();
        }
        BitMask { kind: self.kind, mask: self.sel }
    }

    /// A well-formed selector is a valid register value of its width, and is
    /// not zero.
    pub proof fn lemma_fits(self)
        requires
            self.wf(),
        ensures
            self.spec_kind().fits(self.spec_value()),
            self.spec_value() != 0,
    {
        let i = choose|i: nat| i < self.kind.spec_bits() && self.sel == pow2(i);
        self.kind.lemma_constants();
        lemma_pow2_strictly_increases(i, self.kind.spec_bits() as nat);
        lemma_pow2_pos(i);
    }
}

/// A multi-bit selection mask for a register.
///
/// Unlike [`BitSel`], which enforces a one-hot encoding, a mask permits any
/// subset of the register's bits to be set. It is the accumulation point for
/// selectors in a batched operation.
#[derive(Clone, Copy, PartialEq, Eq, Structural, Debug)]
pub struct BitMask {
    /// The register width this mask governs.
    kind: RegisterKind,
    /// The mask value, within the register width.
    mask: u64,
}

impl BitMask {
    /// The register width this mask governs.
    pub closed spec fn spec_kind(self) -> RegisterKind {
        self.kind
    }

    /// The wrapped register value.
    pub closed spec fn spec_value(self) -> u64 {
        self.mask
    }

    /// The invariant: the value is a valid register value of the width.
    pub open spec fn wf(self) -> bool {
        self.spec_kind().fits(self.spec_value())
    }

    /// The full mask: every bit of the register set high.
    pub fn all(kind: RegisterKind) -> (r: Self)
        ensures
            r.wf(),
            r.spec_kind() == kind,
            r.spec_value() == kind.spec_all(),
    {
        BitMask { kind, mask: kind.all() }
    }

    /// The empty mask: no bit of the register set.
    pub fn zero(kind: RegisterKind) -> (r: Self)
        ensures
            r.wf(),
            r.spec_kind() == kind,
            r.spec_value() == 0,
    {
        BitMask { kind, mask: 0 }
    }

    /// Wraps a register value as a bit-mask.
    ///
    /// This constructor declares that an operation discards the numeric value
    /// of an integer and uses it only as a set of bits. Prefer accumulating
    /// [`BitSel`] values through [`Self::combine`] or [`Self::sum`].
    pub fn new(kind: RegisterKind, value: u64) -> (r: Self)
        requires
            kind.fits(value),
        ensures
            r.wf(),
            r.spec_kind() == kind,
            r.spec_value() == value,
    {
        BitMask { kind, mask: value }
    }

    /// Removes the mask wrapper, leaving the internal value.
    pub fn value(self) -> (v: u64)
        ensures
            v == self.spec_value(),
    {
        self.mask
    }

    /// The register width this mask governs.
    pub fn kind(self) -> (k: RegisterKind)
        ensures
            k == self.spec_kind(),
    {
        self.kind
    }

    /// Tests whether the mask holds the bit named by a selector.
    pub fn test(&self, sel: BitSel) -> (r: bool)
        requires
            sel.spec_kind() == self.spec_kind(),
        ensures
            r == ((self.spec_value() & sel.spec_value()) != 0),
    {
        self.mask & sel.sel != 0
    }

    /// Sets the bit named by a selector high in this mask.
    pub fn insert(&mut self, sel: BitSel)
        requires
            old(self).wf(),
            sel.wf(),
            sel.spec_kind() == old(self).spec_kind(),
        ensures
            final(self).wf(),
            final(self).spec_kind() == old(self).spec_kind(),
            final(self).spec_value() == (old(self).spec_value() | sel.spec_value()),
    {
        proof {
            sel.lemma_fits();
            lemma_or_fits(self.kind, self.mask, sel.sel);
        }
        self.mask = self.mask | sel.sel;
    }

    /// Returns a copy of this mask with the bit named by a selector set high.
    pub fn combine(self, sel: BitSel) -> (r: Self)
        requires
            self.wf(),
            sel.wf(),
            sel.spec_kind() == self.spec_kind(),
        ensures
            r.wf(),
            r.spec_kind() == self.spec_kind(),
            r.spec_value() == (self.spec_value() | sel.spec_value()),
    {
        proof {
            sel.lemma_fits();
            lemma_or_fits(self.kind, self.mask, sel.sel);
        }
        BitMask { kind: self.kind, mask: self.mask | sel.sel }
    }

    /// Intersects this mask with a raw register value.
    pub fn bitand(self, rhs: u64) -> (r: Self)
        requires
            self.wf(),
        ensures
            r.wf(),
            r.spec_kind() == self.spec_kind(),
            r.spec_value() == (self.spec_value() & rhs),
    {
        proof {
            lemma_and_le(self.mask, rhs);
        }
        BitMask { kind: self.kind, mask: self.mask & rhs }
    }

    /// Unions this mask with a raw register value.
    pub fn bitor(self, rhs: u64) -> (r: Self)
        requires
            self.wf(),
            self.spec_kind().fits(rhs),
        ensures
            r.wf(),
            r.spec_kind() == self.spec_kind(),
            r.spec_value() == (self.spec_value() | rhs),
    {
        proof {
            lemma_or_fits(self.kind, self.mask, rhs);
        }
        BitMask { kind: self.kind, mask: self.mask | rhs }
    }

    /// Inverts this mask within its register width: every bit of the width
    /// flips, and no bit outside it is set.
    pub fn not(self) -> (r: Self)
        requires
            self.wf(),
        ensures
            r.wf(),
            r.spec_kind() == self.spec_kind(),
            r.spec_value() == (!self.spec_value() & self.spec_kind().spec_all()),
    {
        proof {
            lemma_and_le(!self.mask, self.kind.spec_all());
            lemma_and_le_right(!self.mask, self.kind.spec_all());
        }
        BitMask { kind: self.kind, mask: !self.mask & self.kind.all() }
    }

    /// Accumulates a sequence of selectors into one mask, starting from the
    /// empty mask and combining each selection in turn.
    pub fn sum(kind: RegisterKind, sels: &Vec<BitSel>) -> (m: BitMask)
        requires
            forall|j: int|
                0 <= j < sels@.len() ==> (#[trigger] sels@[j]).wf() && sels@[j].spec_kind()
                    == kind,
        ensures
            m.wf(),
            m.spec_kind() == kind,
            m.spec_value() == or_values(sels@.map_values(|s: BitSel| s.spec_value())),
    {
        let ghost vs = sels@.map_values(|s: BitSel| s.spec_value());
        let mut m = BitMask::zero(kind);
        let mut i: usize = 0;
        while i < sels.len()
            invariant
                0 <= i <= sels@.len(),
                forall|j: int|
                    0 <= j < sels@.len() ==> (#[trigger] sels@[j]).wf() && sels@[j].spec_kind()
                        == kind,
                m.wf(),
                m.spec_kind() == kind,
                vs == sels@.map_values(|s: BitSel| s.spec_value()),
                m.spec_value() == or_values(vs.take(i as int)),
            decreases sels@.len() - i,
        {
            m = m.combine(sels[i]);
            proof {
                assert(vs.take(i + 1).drop_last() =~= vs.take(i as int));
            }
            i = i + 1;
        }
        proof {
            assert(vs.take(sels@.len() as int) =~= vs);
        }
        m
    }
}

/// The or-fold of a sequence of register values, combined from the left out
/// of an empty accumulator.
pub open spec fn or_values(s: Seq<u64>) -> u64
    decreases s.len(),
{
    if s.len() == 0 {
        0
    } else {
        or_values(s.drop_last()) | s.last()
    }
}

/// Folding the selectors of every position of a register into one mask fills
/// the register: the result is the all-ones mask value.
///
/// The sequence folded here is exactly what the full selector range yields,
/// one selector for each position in ascending order.
pub proof fn lemma_selectors_fill(kind: RegisterKind)
    ensures
        or_values(Seq::new(kind.spec_bits() as nat, |p: int| pow2(p as nat) as u64))
            == kind.spec_all(),
{
    kind.lemma_constants();
    lemma_selectors_fill_prefix(kind, kind.spec_bits() as nat);
}

/// Folding the selectors of the positions below `n` yields the low `n` bits
/// of the register, all set.
proof fn lemma_selectors_fill_prefix(kind: RegisterKind, n: nat)
    requires
        n <= kind.spec_bits(),
    ensures
        or_values(Seq::new(n, |p: int| pow2(p as nat) as u64)) == (pow2(n) - 1) as u64,
    decreases n,
{
    kind.lemma_constants();
    lemma2_to64();
    if n > 0 {
        lemma_selectors_fill_prefix(kind, (n - 1) as nat);
        let s = Seq::new(n, |p: int| pow2(p as nat) as u64);
        assert(s.drop_last() =~= Seq::new((n - 1) as nat, |p: int| pow2(p as nat) as u64));
        lemma_pow2_strictly_increases((n - 1) as nat, 64);
        lemma_u64_shl_is_mul(1, (n - 1) as u64);
        let k = (n - 1) as u64;
        assert((((1u64 << k) - 1) as u64 | (1u64 << k)) == ((2 * (1u64 << k) - 1) as u64))
            by (bit_vector)
            requires
                k < 64,
        ;
        lemma_pow2_unfold(n);
    }
}

/// Inverting the full mask of a register yields the empty mask.
pub proof fn lemma_not_all_is_zero(kind: RegisterKind)
    ensures
        (!kind.spec_all() & kind.spec_all()) == 0,
{
    let a = kind.spec_all();
    assert((!a & a) == 0) by (bit_vector);
}

/// What `span` computes, for a region of `len > 0` live bits that begins at
/// bit `head` of its first register: `count` registers hold live bits of the
/// region, and `tail` marks the first dead bit after it.
///
/// The count is the ceiling of `(head + len) / BITS`, which is the number of
/// registers holding at least one live bit. The tail is `(head + len) mod
/// BITS`, except that a region ending exactly on a register boundary keeps
/// the tail inside its last register, as the width itself. The third equation
/// restates the pair as a round trip: the counted registers hold `head` dead
/// bits in front, `len` live bits, and `BITS - tail` dead bits behind.
pub open spec fn spec_span(kind: RegisterKind, head: int, len: int, count: int, tail: int) -> bool {
    let bits = kind.spec_bits() as int;
    &&& count == (head + len + bits - 1) / bits
    &&& tail == (if (head + len) % bits == 0 { bits } else { (head + len) % bits })
    &&& count * bits == head + len + (bits - tail)
}

} // verus!

