//! The two complex representations: a real and an imaginary part of the
//! real partner's width.

use vstd::prelude::*;
use crate::reals::Real32;
use crate::reals::Real64;
use crate::repr::Representation;
use crate::types::AssociatedComplex;
use crate::types::AssociatedReal;
use crate::types::lemma_negated_involution;
use crate::types::Conjugate;
use crate::types::RandNormal;
use crate::types::RealScalar;
use crate::types::Represented;
use crate::types::Scalar;

verus! {

/// A complex value with 32-bit parts.
#[derive(Clone, Copy, Debug, PartialEq, Eq, Structural)]
pub struct Complex32 {
    pub re: Real32,
    pub im: Real32,
}

impl Complex32 {
    /// The complex value with the given real and imaginary parts.
    pub fn new(re: Real32, im: Real32) -> (c: Self)
        ensures
            c.re == re,
            c.im == im,
    {
        Complex32 { re, im }
    }
}

impl Represented for Complex32 {
    open spec fn spec_representation() -> Representation {
        Representation::Complex32
    }

    fn representation() -> (r: Representation) {
        Representation::Complex32
    }
}

impl Conjugate for Complex32 {
    open spec fn spec_conj(self) -> Self {
        Complex32 { re: self.re, im: self.im.spec_negated() }
    }

    fn conj(self) -> (c: Self) {
        Complex32 { re: self.re, im: self.im.negated() }
    }

    proof fn lemma_conj_involution(self) {
        lemma_negated_involution(self.im);
    }
}

impl AssociatedReal for Complex32 {
    type Real = Real32;

    open spec fn spec_re(self) -> Real32 {
        self.re
    }

    open spec fn spec_im(self) -> Real32 {
        self.im
    }

    fn inject_real(r: Real32) -> (x: Self) {
        Complex32 { re: r, im: Real32 { bits: 0 } }
    }

    fn re(self) -> (r: Real32) {
        self.re
    }

    fn im(self) -> (i: Real32) {
        self.im
    }

    proof fn lemma_real_partner() {
    }

    proof fn lemma_determined_by_parts(a: Self, b: Self) {
    }

    proof fn lemma_real_has_no_imaginary_part(self) {
    }
}

impl AssociatedComplex for Complex32 {
    type Complex = Complex32;

    fn inject_complex(x: Self) -> (c: Complex32)
        ensures
            c == x,
    {
        x
    }

    proof fn lemma_complex_partner() {
    }
}

impl Scalar for Complex32 {
    proof fn lemma_conj_parts(self) {
    }
}

/// A complex value with 64-bit parts.
#[derive(Clone, Copy, Debug, PartialEq, Eq, Structural)]
pub struct Complex64 {
    pub re: Real64,
    pub im: Real64,
}

impl Complex64 {
    /// The complex value with the given real and imaginary parts.
    pub fn new(re: Real64, im: Real64) -> (c: Self)
        ensures
            c.re == re,
            c.im == im,
    {
        Complex64 { re, im }
    }
}

impl Represented for Complex64 {
    open spec fn spec_representation() -> Representation {
        Representation::Complex64
    }

    fn representation() -> (r: Representation) {
        Representation::Complex64
    }
}

impl Conjugate for Complex64 {
    open spec fn spec_conj(self) -> Self {
        Complex64 { re: self.re, im: self.im.spec_negated() }
    }

    fn conj(self) -> (c: Self) {
        Complex64 { re: self.re, im: self.im.negated() }
    }

    proof fn lemma_conj_involution(self) {
        lemma_negated_involution(self.im);
    }
}

impl AssociatedReal for Complex64 {
    type Real = Real64;

    open spec fn spec_re(self) -> Real64 {
        self.re
    }

    open spec fn spec_im(self) -> Real64 {
        self.im
    }

    fn inject_real(r: Real64) -> (x: Self) {
        Complex64 { re: r, im: Real64 { bits: 0 } }
    }

    fn re(self) -> (r: Real64) {
        self.re
    }

    fn im(self) -> (i: Real64) {
        self.im
    }

    proof fn lemma_real_partner() {
    }

    proof fn lemma_determined_by_parts(a: Self, b: Self) {
    }

    proof fn lemma_real_has_no_imaginary_part(self) {
    }
}

impl AssociatedComplex for Complex64 {
    type Complex = Complex64;

    fn inject_complex(x: Self) -> (c: Complex64)
        ensures
            c == x,
    {
        x
    }

    proof fn lemma_complex_partner() {
    }
}

impl Scalar for Complex64 {
    proof fn lemma_conj_parts(self) {
    }
}

impl RandNormal for Complex32 {
    fn draws_needed() -> (n: usize) {
        2
    }

    fn randn(draws: &[Real32]) -> (x: Self) {
        Complex32 { re: draws[0], im: draws[1] }
    }
}

impl RandNormal for Complex64 {
    fn draws_needed() -> (n: usize) {
        2
    }

    fn randn(draws: &[Real64]) -> (x: Self) {
        Complex64 { re: draws[0], im: draws[1] }
    }
}

} // verus!
