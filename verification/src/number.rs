//! Values whose native form is not a plain integer or string: floating-point numbers, kept as their
//! bits, and binary data.
use crate::chain::List;
use crate::label::Duplicate;
use vstd::prelude::*;

verus! {

/// A single-precision floating-point number, given by its IEEE 754 bits.
#[derive(Clone, Copy, Debug)]
pub struct Float32 {
    pub bits: u32,
}

/// A double-precision floating-point number, given by its IEEE 754 bits.
#[derive(Clone, Copy, Debug)]
pub struct Float64 {
    pub bits: u64,
}

impl Float32 {
    /// Whether the bits are those of a number, not of "not a number": the exponent has a zero bit, or
    /// the fraction has no one bit.
    pub open spec fn is_number(self) -> bool {
        self.bits % 0x8000_0000 <= 0x7f80_0000
    }

    /// Whether the bits are those of zero, of either sign.
    pub open spec fn is_zero(self) -> bool {
        self.bits % 0x8000_0000 == 0
    }

    /// IEEE 754 equality: no number equals "not a number", and both zeros are equal.
    pub open spec fn same_number(self, other: Float32) -> bool {
        &&& self.is_number()
        &&& other.is_number()
        &&& (self.bits == other.bits || self.is_zero() && other.is_zero())
    }

    /// IEEE 754 equality.
    pub fn equals_number(self, other: Float32) -> (equal: bool)
        ensures
            equal == self.same_number(other),
    {
        let one: u32 = self.bits % 0x8000_0000;
        let two: u32 = other.bits % 0x8000_0000;
        one <= 0x7f80_0000 && two <= 0x7f80_0000 && (self.bits == other.bits
            || one == 0 && two == 0)
    }
}

impl vstd::std_specs::cmp::PartialEqSpecImpl for Float32 {
    open spec fn obeys_eq_spec() -> bool {
        true
    }

    open spec fn eq_spec(&self, other: &Float32) -> bool {
        self.same_number(*other)
    }
}

impl PartialEq for Float32 {
    fn eq(&self, other: &Float32) -> (equal: bool) {
        self.equals_number(*other)
    }
}

impl Float64 {
    /// Whether the bits are those of a number, not of "not a number": the exponent has a zero bit, or
    /// the fraction has no one bit.
    pub open spec fn is_number(self) -> bool {
        self.bits % 0x8000_0000_0000_0000 <= 0x7ff0_0000_0000_0000
    }

    /// Whether the bits are those of zero, of either sign.
    pub open spec fn is_zero(self) -> bool {
        self.bits % 0x8000_0000_0000_0000 == 0
    }

    /// IEEE 754 equality: no number equals "not a number", and both zeros are equal.
    pub open spec fn same_number(self, other: Float64) -> bool {
        &&& self.is_number()
        &&& other.is_number()
        &&& (self.bits == other.bits || self.is_zero() && other.is_zero())
    }

    /// IEEE 754 equality.
    pub fn equals_number(self, other: Float64) -> (equal: bool)
        ensures
            equal == self.same_number(other),
    {
        let one: u64 = self.bits % 0x8000_0000_0000_0000;
        let two: u64 = other.bits % 0x8000_0000_0000_0000;
        one <= 0x7ff0_0000_0000_0000 && two <= 0x7ff0_0000_0000_0000 && (self.bits == other.bits
            || one == 0 && two == 0)
    }
}

impl vstd::std_specs::cmp::PartialEqSpecImpl for Float64 {
    open spec fn obeys_eq_spec() -> bool {
        true
    }

    open spec fn eq_spec(&self, other: &Float64) -> bool {
        self.same_number(*other)
    }
}

impl PartialEq for Float64 {
    fn eq(&self, other: &Float64) -> (equal: bool) {
        self.equals_number(*other)
    }
}

impl Duplicate for Float32 {
    fn duplicate(&self) -> (copy: Float32) {
        *self
    }
}

impl Duplicate for Float64 {
    fn duplicate(&self) -> (copy: Float64) {
        *self
    }
}

/// Binary data.
///
/// The bytes are a list rather than a vector because a value has to be copied exactly when it is
/// lowered: a copied vector is known to hold the same bytes, but not to be the same value.
pub struct Blob {
    pub bytes: List<u8>,
}

impl Blob {
    /// The data of a byte vector.
    pub fn from_vec(bytes: Vec<u8>) -> (blob: Blob)
        ensures
            blob.bytes.seq() == bytes@,
    {
        proof {
            crate::chain::lemma_of_seq(bytes@);
        }
        Blob { bytes: List::from_vec(bytes) }
    }

    /// The data of a byte slice.
    pub fn from_slice(bytes: &[u8]) -> (blob: Blob)
        ensures
            blob.bytes.seq() == bytes@,
    {
        let mut copy: Vec<u8> = Vec::new();
        let mut i: usize = 0;
        while i < bytes.len()
            invariant
                i <= bytes.len(),
                copy@ == bytes@.take(i as int),
            decreases bytes.len() - i,
        {
            copy.push(bytes[i]);
            i = i + 1;
            assert(bytes@.take(i as int) =~= bytes@.take(i - 1).push(bytes@[i - 1]));
        }
        assert(bytes@.take(i as int) =~= bytes@);
        Blob::from_vec(copy)
    }
}

impl Duplicate for Blob {
    fn duplicate(&self) -> (copy: Blob) {
        Blob { bytes: self.bytes.duplicate() }
    }
}

} // verus!
