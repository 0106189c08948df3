//! Register-width descriptors.
//!
//! A [`RegisterKind`] names one of the primitive unsigned integer widths that
//! serve as the unit of memory access. It exposes the width `BITS`, the
//! modulus mask `MASK = BITS - 1`, the shift distance `INDX = log2(BITS)`,
//! and the all-ones register value, together with the arithmetic facts that
//! relate them.
//!
//! Register values themselves are carried as `u64`, constrained to the low
//! `BITS` bits of the chosen width.

use vstd::prelude::*;
use vstd::arithmetic::power2::{
    pow2,
    lemma_pow2_pos,
    lemma_pow2_unfold,
    lemma2_to64,
};

verus! {

/// One of the primitive register widths over which the counters operate.
#[derive(Clone, Copy, PartialEq, Eq, Structural, Debug)]
pub enum RegisterKind {
    /// An 8-bit register.
    R8,
    /// A 16-bit register.
    R16,
    /// A 32-bit register.
    R32,
    /// A 64-bit register.
    R64,
}

impl RegisterKind {
    /// The width of the register, in bits.
    pub open spec fn spec_bits(self) -> u8 {
        match self {
            RegisterKind::R8 => 8,
            RegisterKind::R16 => 16,
            RegisterKind::R32 => 32,
            RegisterKind::R64 => 64,
        }
    }

    /// The width of the register, in bits.
    #[verifier::when_used_as_spec(spec_bits)]
    pub fn bits(self) -> (b: u8)
        ensures
            b == self.spec_bits(),
    {
        match self {
            RegisterKind::R8 => 8,
            RegisterKind::R16 => 16,
            RegisterKind::R32 => 32,
            RegisterKind::R64 => 64,
        }
    }

    /// The and-mask used to take a counter modulo the register width.
    pub open spec fn spec_mask(self) -> u8 {
        match self {
            RegisterKind::R8 => 7,
            RegisterKind::R16 => 15,
            RegisterKind::R32 => 31,
            RegisterKind::R64 => 63,
        }
    }

    /// The and-mask used to take a counter modulo the register width.
    #[verifier::when_used_as_spec(spec_mask)]
    pub fn mask(self) -> (m: u8)
        ensures
            m == self.spec_mask(),
    {
        match self {
            RegisterKind::R8 => 7,
            RegisterKind::R16 => 15,
            RegisterKind::R32 => 31,
            RegisterKind::R64 => 63,
        }
    }

    /// The base-2 logarithm of the width: the shift distance that divides a
    /// bit count by the register width.
    pub open spec fn spec_indx(self) -> u8 {
        match self {
            RegisterKind::R8 => 3,
            RegisterKind::R16 => 4,
            RegisterKind::R32 => 5,
            RegisterKind::R64 => 6,
        }
    }

    /// The base-2 logarithm of the width: the shift distance that divides a
    /// bit count by the register width.
    #[verifier::when_used_as_spec(spec_indx)]
    pub fn indx(self) -> (i: u8)
        ensures
            i == self.spec_indx(),
    {
        match self {
            RegisterKind::R8 => 3,
            RegisterKind::R16 => 4,
            RegisterKind::R32 => 5,
            RegisterKind::R64 => 6,
        }
    }

    /// The all-ones register value: every bit of the width set high.
    pub open spec fn spec_all(self) -> u64 {
        match self {
            RegisterKind::R8 => 0xFF,
            RegisterKind::R16 => 0xFFFF,
            RegisterKind::R32 => 0xFFFF_FFFF,
            RegisterKind::R64 => 0xFFFF_FFFF_FFFF_FFFF,
        }
    }

    /// The all-ones register value: every bit of the width set high.
    #[verifier::when_used_as_spec(spec_all)]
    pub fn all(self) -> (a: u64)
        ensures
            a == self.spec_all(),
    {
        match self {
            RegisterKind::R8 => 0xFF,
            RegisterKind::R16 => 0xFFFF,
            RegisterKind::R32 => 0xFFFF_FFFF,
            RegisterKind::R64 => 0xFFFF_FFFF_FFFF_FFFF,
        }
    }

    /// Whether a `u64` carries a valid register value of this width.
    pub open spec fn fits(self, value: u64) -> bool {
        value <= self.spec_all()
    }

    /// The arithmetic relations between the width constants: the mask is one
    /// less than the width, the width is two to the `INDX`, and the all-ones
    /// value is one less than two to the width.
    pub proof fn lemma_constants(self)
        ensures
            self.spec_mask() + 1 == self.spec_bits(),
            pow2(self.spec_indx() as nat) == self.spec_bits(),
            self.spec_all() + 1 == pow2(self.spec_bits() as nat),
            8 <= self.spec_bits() <= 64,
    {
        lemma2_to64();
    }
}

/// The number of bits set high in a register value, defined by splitting off
/// the lowest bit and halving.
pub open spec fn popcount(v: nat) -> nat
    decreases v,
{
    if v == 0 {
        0
    } else {
        v % 2 + popcount(v / 2)
    }
}

/// A value has no bits set exactly when it is zero.
pub proof fn lemma_popcount_zero(v: nat)
    ensures
        popcount(v) == 0 <==> v == 0,
    decreases v,
{
    if v > 0 {
        lemma_popcount_zero(v / 2);
    }
}

/// A register value has exactly one bit set exactly when it is a power of
/// two.
pub proof fn lemma_popcount_one(v: u64)
    ensures
        popcount(v as nat) == 1 <==> exists|i: nat| i < 64 && v == pow2(i),
    decreases v,
{
    if v == 0 {
        assert forall|i: nat| i < 64 implies v != pow2(i) by {
            lemma_pow2_pos(i);
        }
    } else if v % 2 == 1 {
        lemma_popcount_zero((v / 2) as nat);
        if v == 1 {
            lemma2_to64();
            assert(v == pow2(0));
        } else {
            assert forall|i: nat| i < 64 implies v != pow2(i) by {
                if i > 0 {
                    lemma_pow2_unfold(i);
                } else {
                    lemma2_to64();
                }
            }
        }
    } else {
        lemma_popcount_one((v / 2) as u64);
        if popcount(v as nat) == 1 {
            let j = choose|j: nat| j < 64 && (v / 2) as u64 == pow2(j);
            lemma_pow2_unfold(j + 1);
            if j + 1 >= 64 {
                lemma2_to64();
                lemma_pow2_unfold(64);
            }
            assert(v == pow2(j + 1));
        }
        if exists|i: nat| i < 64 && v == pow2(i) {
            let i = choose|i: nat| i < 64 && v == pow2(i);
            if i == 0 {
                lemma2_to64();
            } else {
                lemma_pow2_unfold(i);
                assert((v / 2) as u64 == pow2((i - 1) as nat));
            }
        }
    }
}

/// The test `v & (v - 1) == 0` on a nonzero register value decides whether
/// exactly one bit is set.
pub proof fn lemma_onehot_popcount(v: u64)
    requires
        v != 0,
    ensures
        (v & ((v - 1) as u64)) == 0 <==> popcount(v as nat) == 1,
    decreases v,
{
    if v % 2 == 1 {
        assert((v & ((v - 1) as u64)) == 0 <==> v == 1) by (bit_vector)
            requires
                v % 2 == 1,
        ;
        lemma_popcount_zero((v / 2) as nat);
    } else {
        assert((v & ((v - 1) as u64)) == 0 <==> ((v / 2) & ((v / 2 - 1) as u64)) == 0)
            by (bit_vector)
            requires
                v % 2 == 0 && v != 0,
        ;
        lemma_onehot_popcount(v / 2);
    }
}

/// An and of two register values has no bit that its left operand lacks, so
/// it cannot exceed it.
pub proof fn lemma_and_le(a: u64, b: u64)
    ensures
        (a & b) <= a,
{
    assert((a & b) <= a) by (bit_vector);
}

/// An and of two register values has no bit that its right operand lacks, so
/// it cannot exceed it.
pub proof fn lemma_and_le_right(a: u64, b: u64)
    ensures
        (a & b) <= b,
{
    assert((a & b) <= b) by (bit_vector);
}

/// An or of two values of a register width stays within that width.
pub proof fn lemma_or_fits(kind: RegisterKind, a: u64, b: u64)
    requires
        kind.fits(a),
        kind.fits(b),
    ensures
        kind.fits(a | b),
{
    match kind {
        RegisterKind::R8 => {
            assert(a <= 0xFF && b <= 0xFF ==> (a | b) <= 0xFF) by (bit_vector);
        },
        RegisterKind::R16 => {
            assert(a <= 0xFFFF && b <= 0xFFFF ==> (a | b) <= 0xFFFF) by (bit_vector);
        },
        RegisterKind::R32 => {
            assert(a <= 0xFFFF_FFFF && b <= 0xFFFF_FFFF ==> (a | b) <= 0xFFFF_FFFF)
                by (bit_vector);
        },
        RegisterKind::R64 => {},
    }
}

} // verus!
