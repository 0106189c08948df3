/*! Well-typed bit counters and register-span arithmetic.

This crate provides the index algebra of a bit-addressable container: a family
of counter types that locate one bit within a machine register, together with
the region arithmetic that turns an abstract bit coordinate into a register
address and a shift distance.

Every counter carries a [`RegisterKind`] naming the register width it governs,
and an invariant bounding its value by that width. Checked constructors reject
out-of-range values; the arithmetic operations (`next`, `prev`, `offset`,
`span`) preserve the invariants and carry exact contracts relating their
results to the inputs.

A semantic index ([`BitIdx`]) is translated to an electrical position
([`BitPos`]) through a [`BitOrder`] capability; positions produce one-hot
selectors ([`BitSel`]), and selectors accumulate into multi-bit masks
([`BitMask`]). A [`BitTail`] marks the dead bit one past the end of a region
and is the only counter allowed to hold the register width itself.

[`RegisterKind`]: crate::register::RegisterKind
[`BitIdx`]: crate::index::BitIdx
[`BitPos`]: crate::index::BitPos
[`BitOrder`]: crate::order::BitOrder
[`BitSel`]: crate::index::BitSel
[`BitMask`]: crate::index::BitMask
[`BitTail`]: crate::index::BitTail
!*/
pub mod index;
pub mod order;
pub mod range;
pub mod register;
pub mod render;

pub use index::{BitIdx, BitIdxErr, BitMask, BitPos, BitSel, BitTail};
pub use order::{BitOrder, Lsb0, Msb0};
pub use range::{BitIdxRange, BitPosRange, BitSelRange, BitTailRange};
pub use register::RegisterKind;
