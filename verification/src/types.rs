//! The scalar capability traits: what generic numerical code may ask of a
//! representation, and the laws every implementation has to prove.
//!
//! A real value is modelled by its IEEE-754 bit pattern; a complex value by the
//! patterns of its real and imaginary parts. Negation flips the sign bit and
//! the absolute value clears it, for every pattern, so both are exact on this
//! model.

use vstd::prelude::*;
use vstd::arithmetic::power2::lemma2_to64;
use vstd::arithmetic::power2::lemma2_to64_rest;
use vstd::arithmetic::power2::pow2;
use crate::repr::Kind;
use crate::repr::Representation;

verus! {

/// A type that stands for one of the four representations.
pub trait Represented: Copy {
    /// The representation this type stands for.
    spec fn spec_representation() -> Representation;

    /// The representation this type stands for, as a value.
    fn representation() -> (r: Representation)
        ensures
            r == Self::spec_representation(),
    ;
}

/// Complex conjugate value.
pub trait Conjugate: Copy {
    /// The conjugate of `self`.
    spec fn spec_conj(self) -> Self;

    /// The complex conjugate: the value itself for a real number, the value
    /// with the sign of its imaginary part flipped for a complex one.
    fn conj(self) -> (c: Self)
        ensures
            c == self.spec_conj(),
    ;

    /// Conjugation is an involution: conjugating twice gives the value back.
    proof fn lemma_conj_involution(self)
        ensures
            self.spec_conj().spec_conj() == self,
    ;
}

/// The weight of the sign bit, the topmost one, in a pattern of `width` bits.
pub open spec fn sign_weight(width: nat) -> nat
    recommends
        width >= 1,
{
    pow2((width - 1) as nat)
}

/// The pattern that differs from `pattern` in the sign bit and nowhere else.
pub open spec fn flip_sign(pattern: nat, width: nat) -> nat {
    if pattern < sign_weight(width) {
        pattern + sign_weight(width)
    } else {
        (pattern - sign_weight(width)) as nat
    }
}

/// The pattern with the sign bit cleared and the other bits of `pattern`.
pub open spec fn clear_sign(pattern: nat, width: nat) -> nat {
    pattern % sign_weight(width)
}

/// A real representation: a sign bit above the bits of a magnitude.
///
/// Negating a value flips its sign bit and taking the absolute value clears
/// it; both leave every other bit alone, whatever the pattern encodes.
pub trait RealScalar: Represented + Conjugate {
    /// The bit pattern of the value, read as a number.
    spec fn pattern(self) -> nat;

    /// The value with its sign bit flipped.
    spec fn spec_negated(self) -> Self;

    /// The value with its sign bit cleared.
    spec fn spec_abs(self) -> Self;

    /// Positive zero: the all-zero pattern.
    fn zero() -> (z: Self)
        ensures
            z.pattern() == 0,
    ;

    /// The negation of a real number.
    fn negated(self) -> (n: Self)
        ensures
            n == self.spec_negated(),
            n.pattern() == flip_sign(self.pattern(), Self::spec_representation().spec_width()),
    ;

    /// The absolute value of a real number.
    fn abs(self) -> (a: Self)
        ensures
            a == self.spec_abs(),
            a.pattern() == clear_sign(self.pattern(), Self::spec_representation().spec_width()),
    ;

    /// The type stands for a representation of kind `Real`.
    proof fn lemma_kind_is_real()
        ensures
            Self::spec_representation().spec_kind() == Kind::Real,
    ;

    /// A pattern has as many bits as the representation is wide, and two
    /// values with the same pattern are the same value.
    proof fn lemma_pattern_determines(a: Self, b: Self)
        ensures
            a.pattern() < pow2(Self::spec_representation().spec_width()),
            a.pattern() == b.pattern() ==> a == b,
    ;

    /// What negation and the absolute value do to the pattern.
    proof fn lemma_sign_patterns(self)
        ensures
            self.spec_negated().pattern() == flip_sign(
                self.pattern(),
                Self::spec_representation().spec_width(),
            ),
            self.spec_abs().pattern() == clear_sign(
                self.pattern(),
                Self::spec_representation().spec_width(),
            ),
    ;

    /// The conjugate of a real value is that value, bit for bit.
    proof fn lemma_conj_identity(self)
        ensures
            self.spec_conj() == self,
    ;
}

/// The sign bit of a real representation is bit 31 or bit 63, and a pattern
/// of its width is below twice the sign bit's weight.
pub proof fn lemma_sign_weight<R: RealScalar>()
    ensures
        R::spec_representation().spec_width() == 32 || R::spec_representation().spec_width() == 64,
        R::spec_representation().spec_width() == 32 ==> sign_weight(32) == 0x8000_0000,
        R::spec_representation().spec_width() == 64 ==> sign_weight(64) == 0x8000_0000_0000_0000,
        pow2(R::spec_representation().spec_width()) == 2 * sign_weight(
            R::spec_representation().spec_width(),
        ),
{
    lemma2_to64();
    lemma2_to64_rest();
}

/// Clearing the top bit of a pattern below `2 * s` leaves it alone where it
/// is below `s` and takes `s` off it otherwise.
proof fn lemma_clear_sign(p: nat, s: nat)
    requires
        0 < s,
        p < 2 * s,
    ensures
        p % s == if p < s {
            p
        } else {
            (p - s) as nat
        },
{
    if p < s {
        vstd::arithmetic::div_mod::lemma_small_mod(p, s);
    } else {
        vstd::arithmetic::div_mod::lemma_small_mod((p - s) as nat, s);
        vstd::arithmetic::div_mod::lemma_mod_sub_multiples_vanish(p as int, s as int);
    }
}

/// Negating twice gives the value back, and negation always changes the value.
pub proof fn lemma_negated_involution<R: RealScalar>(x: R)
    ensures
        x.spec_negated().spec_negated() == x,
        x.spec_negated() != x,
{
    let n = x.spec_negated();
    lemma_sign_weight::<R>();
    x.lemma_sign_patterns();
    n.lemma_sign_patterns();
    R::lemma_pattern_determines(x, n);
    R::lemma_pattern_determines(n.spec_negated(), x);
}

/// The absolute value is one of `x` and its negation, namely the one whose
/// sign bit is clear; it does not depend on the sign of `x`, and taking it
/// twice changes nothing.
pub proof fn lemma_abs_drops_sign<R: RealScalar>(x: R)
    ensures
        x.spec_abs().pattern() < sign_weight(R::spec_representation().spec_width()),
        x.pattern() < sign_weight(R::spec_representation().spec_width()) ==> x.spec_abs() == x,
        x.pattern() >= sign_weight(R::spec_representation().spec_width()) ==> x.spec_abs()
            == x.spec_negated(),
        x.spec_negated().spec_abs() == x.spec_abs(),
        x.spec_abs().spec_abs() == x.spec_abs(),
{
    let n = x.spec_negated();
    let a = x.spec_abs();
    let s = sign_weight(R::spec_representation().spec_width());
    lemma_sign_weight::<R>();
    R::lemma_pattern_determines(n, x);
    assert forall|p: nat| p < 2 * s implies #[trigger] (p % s) == if p < s {
        p
    } else {
        (p - s) as nat
    } by {
        lemma_clear_sign(p, s);
    }
    x.lemma_sign_patterns();
    n.lemma_sign_patterns();
    a.lemma_sign_patterns();
    R::lemma_pattern_determines(x, n);
    R::lemma_pattern_determines(a, x);
    R::lemma_pattern_determines(a, n);
    R::lemma_pattern_determines(n.spec_abs(), a);
    R::lemma_pattern_determines(a.spec_abs(), a);
}

/// The real partner of a representation, and the passage from it.
pub trait AssociatedReal: Represented {
    /// The real partner of this representation.
    type Real: RealScalar;

    /// The real part of a value.
    spec fn spec_re(self) -> Self::Real;

    /// The imaginary part of a value; positive zero for a real one.
    spec fn spec_im(self) -> Self::Real;

    /// Lifts a real value into this representation, with an imaginary part
    /// of exactly positive zero.
    fn inject_real(r: Self::Real) -> (x: Self)
        ensures
            x.spec_re() == r,
            x.spec_im().pattern() == 0,
    ;

    /// The real part.
    fn re(self) -> (r: Self::Real)
        ensures
            r == self.spec_re(),
    ;

    /// The imaginary part; positive zero for a real value.
    fn im(self) -> (i: Self::Real)
        ensures
            i == self.spec_im(),
    ;

    /// The real partner is the real representation of the same width.
    proof fn lemma_real_partner()
        ensures
            <Self::Real as Represented>::spec_representation()
                == Self::spec_representation().spec_real_partner(),
    ;

    /// A value is its two parts and nothing else.
    proof fn lemma_determined_by_parts(a: Self, b: Self)
        requires
            a.spec_re() == b.spec_re(),
            a.spec_im() == b.spec_im(),
        ensures
            a == b,
    ;

    /// Every value of a real representation has the imaginary part positive zero.
    proof fn lemma_real_has_no_imaginary_part(self)
        ensures
            Self::spec_representation().spec_kind() == Kind::Real ==> self.spec_im().pattern() == 0,
    ;
}

/// The complex partner of a representation, and the passage to it.
pub trait AssociatedComplex: AssociatedReal {
    /// The complex partner of this representation.
    type Complex: AssociatedReal<Real = Self::Real>;

    /// Promotes a value to the complex partner, keeping both parts. On a
    /// complex representation this is the identity.
    fn inject_complex(x: Self) -> (c: Self::Complex)
        ensures
            c.spec_re() == x.spec_re(),
            c.spec_im() == x.spec_im(),
    ;

    /// The complex partner is the complex representation of the same width.
    proof fn lemma_complex_partner()
        ensures
            <Self::Complex as Represented>::spec_representation()
                == Self::spec_representation().spec_complex_partner(),
    ;
}

/// Scalars which can be initialized from Gaussian random numbers.
///
/// Drawing is the caller's business: it owns the generator, takes from it as
/// many standard-normal draws as `draws_needed` says, one after the other,
/// and hands them over in the order in which they came.
pub trait RandNormal: AssociatedReal {
    /// How many draws one value takes: one for each of its components.
    fn draws_needed() -> (n: usize)
        ensures
            n == Self::spec_representation().spec_kind().spec_components(),
    ;

    /// The value made of the given draws: the first is the real part, and
    /// for a complex representation the second is the imaginary part.
    fn randn(draws: &[Self::Real]) -> (x: Self)
        requires
            draws@.len() == Self::spec_representation().spec_kind().spec_components(),
        ensures
            x.spec_re() == draws@[0],
            Self::spec_representation().spec_kind() == Kind::Complex ==> x.spec_im() == draws@[1],
            Self::spec_representation().spec_kind() == Kind::Real ==> x.spec_im().pattern() == 0,
    ;
}

/// The one interface generic numerical code asks for: a real or complex
/// number with its partners, its conjugate and its assembly from random draws.
pub trait Scalar: AssociatedComplex + Conjugate + RandNormal {
    /// Conjugation keeps the real part; on a complex representation it
    /// negates the imaginary part, on a real one it changes nothing.
    proof fn lemma_conj_parts(self)
        ensures
            self.spec_conj().spec_re() == self.spec_re(),
            Self::spec_representation().spec_kind() == Kind::Complex
                ==> self.spec_conj().spec_im() == self.spec_im().spec_negated(),
            Self::spec_representation().spec_kind() == Kind::Real ==> self.spec_conj() == self,
    ;
}

/// Pairing is by width and kind for every scalar type: its real partner
/// stands for the real representation of its own width, its complex partner
/// for the complex one, and no pairing crosses widths.
pub proof fn lemma_partner_types<X: Scalar>()
    ensures
        <X::Real as Represented>::spec_representation().spec_width()
            == X::spec_representation().spec_width(),
        <X::Complex as Represented>::spec_representation().spec_width()
            == X::spec_representation().spec_width(),
        <X::Real as Represented>::spec_representation().spec_kind() == Kind::Real,
        <X::Complex as Represented>::spec_representation().spec_kind() == Kind::Complex,
        X::spec_representation().spec_kind() == Kind::Real ==> <X::Real as Represented>::spec_representation()
            == X::spec_representation(),
        X::spec_representation().spec_kind() == Kind::Complex ==> <X::Complex as Represented>::spec_representation()
            == X::spec_representation(),
{
    X::lemma_real_partner();
    X::lemma_complex_partner();
}

/// Lifting a real value and taking the real part again gives the value
/// back, whatever the representation lifted into; so two real values that
/// lift to the same value are the same.
pub proof fn lemma_inject_real_is_injective<X: AssociatedReal>(a: X, b: X, r: X::Real, s: X::Real)
    requires
        a.spec_re() == r,
        a.spec_im().pattern() == 0,
        b.spec_re() == s,
        b.spec_im().pattern() == 0,
    ensures
        a == b <==> r == s,
{
    if r == s {
        X::Real::lemma_pattern_determines(a.spec_im(), b.spec_im());
        X::lemma_determined_by_parts(a, b);
    }
}

/// Bit for bit, conjugation leaves a value unchanged exactly where the
/// representation is real: a complex value always has an imaginary sign bit
/// to flip, also where its imaginary part is a zero.
pub proof fn lemma_conj_fixes_only_reals<X: Scalar>(v: X)
    ensures
        v.spec_conj() == v <==> X::spec_representation().spec_kind() == Kind::Real,
{
    v.lemma_conj_parts();
    if X::spec_representation().spec_kind() == Kind::Complex {
        lemma_negated_involution::<X::Real>(v.spec_im());
    }
}

} // verus!
