//! Access-pattern hints for a mapped region.
//!
//! The hints are independent flags that can be combined by bitwise union.
//! They are advisory only: the operating system may ignore them, and they
//! never affect the contents of a mapping.

use vstd::prelude::*;

verus! {

/// Bit of the hint that the region will be needed soon.
pub const WILL_NEED_BIT: u32 = 0b001;

/// Bit of the hint that accesses will be sequential.
pub const SEQUENTIAL_BIT: u32 = 0b010;

/// Bit of the hint that accesses will be random.
pub const RANDOM_BIT: u32 = 0b100;

/// A combination of access-pattern hints for a mapped region.
#[derive(Debug, Clone, Copy, PartialEq, Eq, Structural)]
pub struct MemoryAdvice {
    /// The raw flag bits; only the three hint bits are ever set.
    pub bits: u32,
}

impl MemoryAdvice {
    /// The empty combination: no hint at all.
    pub fn none() -> (r: Self)
        ensures
            r.bits == 0,
    {
        MemoryAdvice { bits: 0 }
    }

    /// The hint that the region will be needed soon.
    pub fn will_need() -> (r: Self)
        ensures
            r.bits == WILL_NEED_BIT,
    {
        MemoryAdvice { bits: WILL_NEED_BIT }
    }

    /// The hint that accesses will be sequential, from lower to higher
    /// addresses.
    pub fn sequential() -> (r: Self)
        ensures
            r.bits == SEQUENTIAL_BIT,
    {
        MemoryAdvice { bits: SEQUENTIAL_BIT }
    }

    /// The hint that accesses will be random rather than sequential.
    pub fn random() -> (r: Self)
        ensures
            r.bits == RANDOM_BIT,
    {
        MemoryAdvice { bits: RANDOM_BIT }
    }

    /// The bitwise union of two hint combinations.
    pub fn union(self, other: Self) -> (r: Self)
        ensures
            r.bits == self.bits | other.bits,
    {
        MemoryAdvice { bits: self.bits | other.bits }
    }

    /// Whether every hint of `other` is also set in `self`.
    pub fn contains(self, other: Self) -> (r: bool)
        ensures
            r == (self.bits & other.bits == other.bits),
    {
        self.bits & other.bits == other.bits
    }

    /// Whether no hint at all is set.
    pub fn is_empty(self) -> (r: bool)
        ensures
            r == (self.bits == 0),
    {
        self.bits == 0
    }
}

/// The union contains each of its two operands.
pub proof fn lemma_union_contains_operands(a: MemoryAdvice, b: MemoryAdvice)
    ensures
        (a.bits | b.bits) & a.bits == a.bits,
        (a.bits | b.bits) & b.bits == b.bits,
{
    let x = a.bits;
    let y = b.bits;
    assert((x | y) & x == x) by (bit_vector);
    assert((x | y) & y == y) by (bit_vector);
}

} // verus!
