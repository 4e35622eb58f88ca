//! The two real representations, as IEEE-754 bit patterns.

use vstd::prelude::*;
use crate::complexes::Complex32;
use crate::complexes::Complex64;
use crate::repr::Representation;
use crate::types::AssociatedComplex;
use crate::types::AssociatedReal;
use crate::types::Conjugate;
use crate::types::RandNormal;
use crate::types::RealScalar;
use crate::types::Represented;
use crate::types::Scalar;

verus! {

/// The sign bit of a 32-bit pattern.
pub const SIGN_BIT_32: u32 = 0x8000_0000;

/// The sign bit of a 64-bit pattern.
pub const SIGN_BIT_64: u64 = 0x8000_0000_0000_0000;

/// A 32-bit real value, held as its bit pattern.
#[derive(Clone, Copy, Debug, PartialEq, Eq, Structural)]
pub struct Real32 {
    pub bits: u32,
}

impl Real32 {
    /// The value with the given bit pattern.
    pub fn from_bits(bits: u32) -> (r: Self)
        ensures
            r.bits == bits,
            r.pattern() == bits,
    {
        Real32 { bits }
    }

    /// The bit pattern of the value.
    pub fn to_bits(self) -> (bits: u32)
        ensures
            bits == self.bits,
            bits == self.pattern(),
    {
        self.bits
    }
}

impl Represented for Real32 {
    open spec fn spec_representation() -> Representation {
        Representation::Real32
    }

    fn representation() -> (r: Representation) {
        Representation::Real32
    }
}

impl Conjugate for Real32 {
    open spec fn spec_conj(self) -> Self {
        self
    }

    fn conj(self) -> (c: Self) {
        self
    }

    proof fn lemma_conj_involution(self) {
    }
}

impl RealScalar for Real32 {
    open spec fn pattern(self) -> nat {
        self.bits as nat
    }

    open spec fn spec_negated(self) -> Self {
        Real32 { bits: self.bits ^ SIGN_BIT_32 }
    }

    open spec fn spec_abs(self) -> Self {
        Real32 { bits: self.bits & !SIGN_BIT_32 }
    }

    fn zero() -> (z: Self) {
        Real32 { bits: 0 }
    }

    fn negated(self) -> (n: Self) {
        proof {
            self.lemma_sign_patterns();
        }
        Real32 { bits: self.bits ^ SIGN_BIT_32 }
    }

    fn abs(self) -> (a: Self) {
        proof {
            self.lemma_sign_patterns();
        }
        Real32 { bits: self.bits & !SIGN_BIT_32 }
    }

    proof fn lemma_kind_is_real() {
    }

    proof fn lemma_pattern_determines(a: Self, b: Self) {
        vstd::arithmetic::power2::lemma2_to64();
    }

    proof fn lemma_sign_patterns(self) {
        vstd::arithmetic::power2::lemma2_to64();
        let b = self.bits;
        assert((b ^ 0x8000_0000u32) as int == if b < 0x8000_0000u32 {
            b + 0x8000_0000u32
        } else {
            b - 0x8000_0000u32
        }) by (bit_vector);
        assert(b & !0x8000_0000u32 == b % 0x8000_0000u32) by (bit_vector);
    }

    proof fn lemma_conj_identity(self) {
    }
}

impl AssociatedReal for Real32 {
    type Real = Real32;

    open spec fn spec_re(self) -> Real32 {
        self
    }

    open spec fn spec_im(self) -> Real32 {
        Real32 { bits: 0 }
    }

    fn inject_real(r: Real32) -> (x: Self) {
        r
    }

    fn re(self) -> (r: Real32) {
        self
    }

    fn im(self) -> (i: Real32) {
        Real32 { bits: 0 }
    }

    proof fn lemma_real_partner() {
    }

    proof fn lemma_determined_by_parts(a: Self, b: Self) {
    }

    proof fn lemma_real_has_no_imaginary_part(self) {
    }
}

impl AssociatedComplex for Real32 {
    type Complex = Complex32;

    fn inject_complex(x: Self) -> (c: Complex32) {
        Complex32 { re: x, im: Real32 { bits: 0 } }
    }

    proof fn lemma_complex_partner() {
    }
}

impl Scalar for Real32 {
    proof fn lemma_conj_parts(self) {
    }
}

impl RandNormal for Real32 {
    fn draws_needed() -> (n: usize) {
        1
    }

    fn randn(draws: &[Real32]) -> (x: Self) {
        draws[0]
    }
}

/// A 64-bit real value, held as its bit pattern.
#[derive(Clone, Copy, Debug, PartialEq, Eq, Structural)]
pub struct Real64 {
    pub bits: u64,
}

impl Real64 {
    /// The value with the given bit pattern.
    pub fn from_bits(bits: u64) -> (r: Self)
        ensures
            r.bits == bits,
            r.pattern() == bits,
    {
        Real64 { bits }
    }

    /// The bit pattern of the value.
    pub fn to_bits(self) -> (bits: u64)
        ensures
            bits == self.bits,
            bits == self.pattern(),
    {
        self.bits
    }
}

impl Represented for Real64 {
    open spec fn spec_representation() -> Representation {
        Representation::Real64
    }

    fn representation() -> (r: Representation) {
        Representation::Real64
    }
}

impl Conjugate for Real64 {
    open spec fn spec_conj(self) -> Self {
        self
    }

    fn conj(self) -> (c: Self) {
        self
    }

    proof fn lemma_conj_involution(self) {
    }
}

impl RealScalar for Real64 {
    open spec fn pattern(self) -> nat {
        self.bits as nat
    }

    open spec fn spec_negated(self) -> Self {
        Real64 { bits: self.bits ^ SIGN_BIT_64 }
    }

    open spec fn spec_abs(self) -> Self {
        Real64 { bits: self.bits & !SIGN_BIT_64 }
    }

    fn zero() -> (z: Self) {
        Real64 { bits: 0 }
    }

    fn negated(self) -> (n: Self) {
        proof {
            self.lemma_sign_patterns();
        }
        Real64 { bits: self.bits ^ SIGN_BIT_64 }
    }

    fn abs(self) -> (a: Self) {
        proof {
            self.lemma_sign_patterns();
        }
        Real64 { bits: self.bits & !SIGN_BIT_64 }
    }

    proof fn lemma_kind_is_real() {
    }

    proof fn lemma_pattern_determines(a: Self, b: Self) {
        vstd::arithmetic::power2::lemma2_to64();
    }

    proof fn lemma_sign_patterns(self) {
        vstd::arithmetic::power2::lemma2_to64_rest();
        let b = self.bits;
        assert((b ^ 0x8000_0000_0000_0000u64) as int == if b < 0x8000_0000_0000_0000u64 {
            b + 0x8000_0000_0000_0000u64
        } else {
            b - 0x8000_0000_0000_0000u64
        }) by (bit_vector);
        assert(b & !0x8000_0000_0000_0000u64 == b % 0x8000_0000_0000_0000u64) by (bit_vector);
    }

    proof fn lemma_conj_identity(self) {
    }
}

impl AssociatedReal for Real64 {
    type Real = Real64;

    open spec fn spec_re(self) -> Real64 {
        self
    }

    open spec fn spec_im(self) -> Real64 {
        Real64 { bits: 0 }
    }

    fn inject_real(r: Real64) -> (x: Self) {
        r
    }

    fn re(self) -> (r: Real64) {
        self
    }

    fn im(self) -> (i: Real64) {
        Real64 { bits: 0 }
    }

    proof fn lemma_real_partner() {
    }

    proof fn lemma_determined_by_parts(a: Self, b: Self) {
    }

    proof fn lemma_real_has_no_imaginary_part(self) {
    }
}

impl AssociatedComplex for Real64 {
    type Complex = Complex64;

    fn inject_complex(x: Self) -> (c: Complex64) {
        Complex64 { re: x, im: Real64 { bits: 0 } }
    }

    proof fn lemma_complex_partner() {
    }
}

impl Scalar for Real64 {
    proof fn lemma_conj_parts(self) {
    }
}

impl RandNormal for Real64 {
    fn draws_needed() -> (n: usize) {
        1
    }

    fn randn(draws: &[Real64]) -> (x: Self) {
        draws[0]
    }
}

} // verus!
