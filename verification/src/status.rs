//! The processor status register.

use vstd::prelude::*;

verus! {

/// Mask of the carry flag, bit 0.
pub const CARRY: u8 = 0b0000_0001;

/// Mask of the zero flag, bit 1.
pub const ZERO: u8 = 0b0000_0010;

/// Mask of the interrupt-disable flag, bit 2.
pub const INTERRUPT_DISABLE: u8 = 0b0000_0100;

/// Mask of the decimal-mode flag, bit 3.
pub const DECIMAL: u8 = 0b0000_1000;

/// Mask of the break flag, bit 4.
pub const BREAK: u8 = 0b0001_0000;

/// Mask of the overflow flag, bit 6.
pub const OVERFLOW: u8 = 0b0100_0000;

/// Mask of the negative flag, bit 7.
pub const NEGATIVE: u8 = 0b1000_0000;

/// Mask of bit 5. The hardware wires it to 1; it is no flag, and no value of
/// [`Status`] ever holds it.
pub const UNUSED: u8 = 0b0010_0000;

/// A set of processor flags, packed into one byte.
///
/// The model of a `Status` is its byte, [`Status::mask`]: a flag is in the set
/// exactly when its bit is 1 there.
#[derive(Clone, Copy, Debug, PartialEq, Eq, Structural)]
pub struct Status {
    bits: u8,
}

impl Status {
    /// Only the seven flag bits are ever set.
    #[verifier::type_invariant]
    spec fn only_flags(self) -> bool {
        self.bits & UNUSED == 0
    }

    /// The byte that stands for this set of flags.
    pub closed spec fn mask(self) -> u8 {
        self.bits
    }

    /// Whether every flag of `flags` is in this set.
    pub open spec fn has(self, flags: u8) -> bool {
        self.mask() & flags == flags
    }

    /// The set without any flag.
    pub fn empty() -> (s: Status)
        ensures
            s.mask() == 0,
    {
        assert(0u8 & UNUSED == 0) by (bit_vector);
        Status { bits: 0 }
    }

    /// The set that holds the carry flag alone.
    #[allow(non_snake_case)]
    pub fn C() -> (s: Status)
        ensures
            s.mask() == CARRY,
    {
        assert(CARRY & UNUSED == 0) by (bit_vector);
        Status { bits: CARRY }
    }

    /// The set that holds the zero flag alone.
    #[allow(non_snake_case)]
    pub fn Z() -> (s: Status)
        ensures
            s.mask() == ZERO,
    {
        assert(ZERO & UNUSED == 0) by (bit_vector);
        Status { bits: ZERO }
    }

    /// The set that holds the interrupt-disable flag alone.
    #[allow(non_snake_case)]
    pub fn I() -> (s: Status)
        ensures
            s.mask() == INTERRUPT_DISABLE,
    {
        assert(INTERRUPT_DISABLE & UNUSED == 0) by (bit_vector);
        Status { bits: INTERRUPT_DISABLE }
    }

    /// The set that holds the decimal-mode flag alone.
    #[allow(non_snake_case)]
    pub fn D() -> (s: Status)
        ensures
            s.mask() == DECIMAL,
    {
        assert(DECIMAL & UNUSED == 0) by (bit_vector);
        Status { bits: DECIMAL }
    }

    /// The set that holds the break flag alone.
    #[allow(non_snake_case)]
    pub fn B() -> (s: Status)
        ensures
            s.mask() == BREAK,
    {
        assert(BREAK & UNUSED == 0) by (bit_vector);
        Status { bits: BREAK }
    }

    /// The set that holds the overflow flag alone.
    #[allow(non_snake_case)]
    pub fn V() -> (s: Status)
        ensures
            s.mask() == OVERFLOW,
    {
        assert(OVERFLOW & UNUSED == 0) by (bit_vector);
        Status { bits: OVERFLOW }
    }

    /// The set that holds the negative flag alone.
    #[allow(non_snake_case)]
    pub fn N() -> (s: Status)
        ensures
            s.mask() == NEGATIVE,
    {
        assert(NEGATIVE & UNUSED == 0) by (bit_vector);
        Status { bits: NEGATIVE }
    }

    /// The byte of this set; bit 5 is 0 in it.
    pub fn bits(&self) -> (b: u8)
        ensures
            b == self.mask(),
            b & UNUSED == 0,
    {
        proof {
            use_type_invariant(self);
        }
        self.bits
    }

    /// Whether the set holds no flag.
    pub fn is_empty(&self) -> (b: bool)
        ensures
            b <==> self.mask() == 0,
    {
        self.bits == 0
    }

    /// Whether every flag of `other` is in this set.
    pub fn contains(&self, other: Status) -> (b: bool)
        ensures
            b <==> self.has(other.mask()),
    {
        self.bits & other.bits == other.bits
    }

    /// Adds the flags of `other` to this set.
    pub fn insert(&mut self, other: Status)
        ensures
            final(self).mask() == old(self).mask() | other.mask(),
    {
        proof {
            use_type_invariant(&*self);
            use_type_invariant(&other);
            let a = self.bits;
            let b = other.bits;
            assert((a | b) & UNUSED == 0) by (bit_vector)
                requires
                    a & UNUSED == 0,
                    b & UNUSED == 0,
            ;
        }
        self.bits = self.bits | other.bits;
    }

    /// Takes the flags of `other` out of this set.
    pub fn remove(&mut self, other: Status)
        ensures
            final(self).mask() == old(self).mask() & !other.mask(),
    {
        proof {
            use_type_invariant(&*self);
            let a = self.bits;
            let b = other.bits;
            assert((a & !b) & UNUSED == 0) by (bit_vector)
                requires
                    a & UNUSED == 0,
            ;
        }
        self.bits = self.bits & !other.bits;
    }

    /// Two sets with the same byte are the same set.
    pub proof fn lemma_mask_decides(self, other: Status)
        requires
            self.mask() == other.mask(),
        ensures
            self == other,
    {
    }
}

/// A flag that was put into a byte is in it, and one that was taken out is
/// not, whatever the byte held before.
pub proof fn lemma_set_then_test(mask: u8, flag: u8)
    ensures
        (mask | flag) & flag == flag,
        flag != 0 ==> (mask & !flag) & flag != flag,
{
    assert((mask | flag) & flag == flag) by (bit_vector);
    assert(flag != 0 ==> (mask & !flag) & flag != flag) by (bit_vector);
}

/// Putting `flag` into a byte, or taking it out, leaves every flag that
/// shares no bit with it as it was.
pub proof fn lemma_other_flags_keep(mask: u8, flag: u8, other: u8)
    requires
        flag & other == 0,
    ensures
        ((mask | flag) & other == other) <==> (mask & other == other),
        ((mask & !flag) & other == other) <==> (mask & other == other),
{
    assert(((mask | flag) & other == other) <==> (mask & other == other)) by (bit_vector)
        requires
            flag & other == 0,
    ;
    assert(((mask & !flag) & other == other) <==> (mask & other == other)) by (bit_vector)
        requires
            flag & other == 0,
    ;
}

} // verus!
