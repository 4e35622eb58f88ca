use linalg_scalar::complexes::{Complex32, Complex64};
use linalg_scalar::reals::{Real32, Real64, SIGN_BIT_32, SIGN_BIT_64};
use linalg_scalar::types::{AssociatedComplex, AssociatedReal, Conjugate, RandNormal, RealScalar};
use num_complex::Complex;

fn r64(x: f64) -> Real64 {
    Real64::from_bits(x.to_bits())
}

fn r32(x: f32) -> Real32 {
    Real32::from_bits(x.to_bits())
}

fn c64(re: f64, im: f64) -> Complex64 {
    Complex64::new(r64(re), r64(im))
}

fn c32(re: f32, im: f32) -> Complex32 {
    Complex32::new(r32(re), r32(im))
}

const SAMPLES_64: [f64; 12] = [
    0.0,
    -0.0,
    1.0,
    -1.0,
    2.5,
    -4.0,
    1e-320,
    -1e308,
    f64::INFINITY,
    f64::NEG_INFINITY,
    f64::NAN,
    f64::MIN_POSITIVE,
];

const SAMPLES_32: [f32; 11] = [
    0.0,
    -0.0,
    1.0,
    -1.0,
    2.5,
    -4.0,
    1e-40,
    -3e38,
    f32::INFINITY,
    f32::NEG_INFINITY,
    f32::NAN,
];

#[test]
fn bits_round_trip() {
    assert_eq!(Real64::from_bits(0x4008_0000_0000_0000).to_bits(), 0x4008_0000_0000_0000);
    assert_eq!(Real32::from_bits(0x4040_0000).to_bits(), 0x4040_0000);
    assert_eq!(f64::from_bits(r64(3.0).to_bits()), 3.0);
    assert_eq!(f32::from_bits(r32(2.0).to_bits()), 2.0f32);
}

#[test]
fn sign_bit_constants() {
    assert_eq!(SIGN_BIT_32, (-0.0f32).to_bits());
    assert_eq!(SIGN_BIT_64, (-0.0f64).to_bits());
}

#[test]
fn conj_of_three_plus_four_i() {
    let c = c64(3.0, 4.0).conj();
    assert_eq!(c, c64(3.0, -4.0));
    assert_eq!(f64::from_bits(c.re.to_bits()), 3.0);
    assert_eq!(f64::from_bits(c.im.to_bits()), -4.0);
}

#[test]
fn conj_of_three_plus_four_i_32() {
    assert_eq!(c32(3.0, 4.0).conj(), c32(3.0, -4.0));
}

#[test]
fn conj_twice_is_identity() {
    for &re in SAMPLES_64.iter() {
        for &im in SAMPLES_64.iter() {
            let v = c64(re, im);
            assert_eq!(v.conj().conj(), v);
        }
        assert_eq!(r64(re).conj().conj(), r64(re));
    }
    for &re in SAMPLES_32.iter() {
        for &im in SAMPLES_32.iter() {
            let v = c32(re, im);
            assert_eq!(v.conj().conj(), v);
        }
        assert_eq!(r32(re).conj().conj(), r32(re));
    }
}

#[test]
fn conj_of_real_is_identity() {
    for &x in SAMPLES_64.iter() {
        assert_eq!(r64(x).conj(), r64(x));
    }
    for &x in SAMPLES_32.iter() {
        assert_eq!(r32(x).conj(), r32(x));
    }
}

#[test]
fn conj_changes_every_complex_value() {
    for &re in SAMPLES_64.iter() {
        for &im in SAMPLES_64.iter() {
            let v = c64(re, im);
            assert_ne!(v.conj(), v);
            assert_eq!(v.conj().re, v.re);
        }
    }
}

#[test]
fn conj_agrees_with_num_complex() {
    for &re in SAMPLES_64.iter() {
        for &im in SAMPLES_64.iter() {
            let theirs = Complex::new(re, im).conj();
            let ours = c64(re, im).conj();
            assert_eq!(ours.re.to_bits(), theirs.re.to_bits());
            assert_eq!(ours.im.to_bits(), theirs.im.to_bits());
        }
    }
    for &re in SAMPLES_32.iter() {
        for &im in SAMPLES_32.iter() {
            let theirs = Complex::new(re, im).conj();
            let ours = c32(re, im).conj();
            assert_eq!(ours.re.to_bits(), theirs.re.to_bits());
            assert_eq!(ours.im.to_bits(), theirs.im.to_bits());
        }
    }
}

#[test]
fn negated_agrees_with_float_negation() {
    for &x in SAMPLES_64.iter() {
        assert_eq!(r64(x).negated().to_bits(), (-x).to_bits());
        assert_eq!(r64(x).negated().negated(), r64(x));
    }
    for &x in SAMPLES_32.iter() {
        assert_eq!(r32(x).negated().to_bits(), (-x).to_bits());
        assert_eq!(r32(x).negated().negated(), r32(x));
    }
}

#[test]
fn negated_exact_value() {
    assert_eq!(r64(2.0).negated().to_bits(), 0xC000_0000_0000_0000);
    assert_eq!(r32(2.0).negated().to_bits(), 0xC000_0000);
    assert_eq!(r64(0.0).negated().to_bits(), SIGN_BIT_64);
}

#[test]
fn abs_agrees_with_float_abs() {
    for &x in SAMPLES_64.iter() {
        assert_eq!(r64(x).abs().to_bits(), x.abs().to_bits());
    }
    for &x in SAMPLES_32.iter() {
        assert_eq!(r32(x).abs().to_bits(), x.abs().to_bits());
    }
}

#[test]
fn abs_exact_values() {
    assert_eq!(r64(-2.5).abs(), r64(2.5));
    assert_eq!(r64(2.5).abs(), r64(2.5));
    assert_eq!(r64(-0.0).abs().to_bits(), 0);
    assert_eq!(r32(-5.0).abs(), r32(5.0));
    assert_eq!(r64(f64::NEG_INFINITY).abs(), r64(f64::INFINITY));
}

#[test]
fn abs_ignores_sign_and_is_idempotent() {
    for &x in SAMPLES_64.iter() {
        let v = r64(x);
        assert_eq!(v.negated().abs(), v.abs());
        assert_eq!(v.abs().abs(), v.abs());
    }
}

#[test]
fn abs_clears_exactly_the_sign_bit() {
    for &x in SAMPLES_64.iter() {
        let v = r64(x);
        assert_eq!(v.abs().to_bits(), v.to_bits() % SIGN_BIT_64);
        assert!(v.abs().to_bits() < SIGN_BIT_64);
        assert_eq!(f64::from_bits(v.abs().to_bits()).is_sign_negative(), false);
    }
    for &x in SAMPLES_32.iter() {
        let v = r32(x);
        assert_eq!(v.abs().to_bits(), v.to_bits() % SIGN_BIT_32);
        assert!(v.abs().to_bits() < SIGN_BIT_32);
    }
}

#[test]
fn negated_flips_exactly_the_sign_bit() {
    for &x in SAMPLES_64.iter() {
        let v = r64(x);
        let expected = if v.to_bits() < SIGN_BIT_64 {
            v.to_bits() + SIGN_BIT_64
        } else {
            v.to_bits() - SIGN_BIT_64
        };
        assert_eq!(v.negated().to_bits(), expected);
        assert_ne!(v.negated(), v);
    }
    for &x in SAMPLES_32.iter() {
        let v = r32(x);
        let expected = if v.to_bits() < SIGN_BIT_32 {
            v.to_bits() + SIGN_BIT_32
        } else {
            v.to_bits() - SIGN_BIT_32
        };
        assert_eq!(v.negated().to_bits(), expected);
    }
}

#[test]
fn zero_is_positive_zero() {
    assert_eq!(<Real64 as RealScalar>::zero().to_bits(), 0.0f64.to_bits());
    assert_eq!(<Real32 as RealScalar>::zero().to_bits(), 0.0f32.to_bits());
}

#[test]
fn inject_real_into_complex_has_zero_imaginary_part() {
    for &x in SAMPLES_64.iter() {
        let c = <Complex64 as AssociatedReal>::inject_real(r64(x));
        assert_eq!(c.im().to_bits(), 0);
        assert_eq!(c.re(), r64(x));
    }
    for &x in SAMPLES_32.iter() {
        let c = <Complex32 as AssociatedReal>::inject_real(r32(x));
        assert_eq!(c.im().to_bits(), 0);
        assert_eq!(c.re(), r32(x));
    }
}

#[test]
fn inject_real_into_real_is_identity() {
    for &x in SAMPLES_64.iter() {
        let r = <Real64 as AssociatedReal>::inject_real(r64(x));
        assert_eq!(r, r64(x));
        assert_eq!(AssociatedReal::re(r), r64(x));
        assert_eq!(AssociatedReal::im(r).to_bits(), 0);
    }
    let r = <Real32 as AssociatedReal>::inject_real(r32(1.5));
    assert_eq!(r, r32(1.5));
}

#[test]
fn inject_real_exact_value() {
    let c = <Complex64 as AssociatedReal>::inject_real(r64(2.0));
    assert_eq!(c, c64(2.0, 0.0));
    assert_ne!(c, c64(2.0, -0.0));
}

#[test]
fn inject_complex_promotes_a_real() {
    let c = <Real64 as AssociatedComplex>::inject_complex(r64(-7.25));
    assert_eq!(c, c64(-7.25, 0.0));
    let c = <Real32 as AssociatedComplex>::inject_complex(r32(0.5));
    assert_eq!(c, c32(0.5, 0.0));
}

#[test]
fn inject_complex_is_identity_on_complex() {
    for &re in SAMPLES_64.iter() {
        for &im in SAMPLES_64.iter() {
            let v = c64(re, im);
            assert_eq!(<Complex64 as AssociatedComplex>::inject_complex(v), v);
        }
    }
    let v = c32(1.0, -2.0);
    assert_eq!(<Complex32 as AssociatedComplex>::inject_complex(v), v);
}

#[test]
fn parts_of_a_complex_value() {
    let v = c64(3.0, 4.0);
    assert_eq!(v.re(), r64(3.0));
    assert_eq!(v.im(), r64(4.0));
    let v = Complex32::new(r32(1.0), r32(-1.0));
    assert_eq!(v.re, r32(1.0));
    assert_eq!(v.im, r32(-1.0));
}

#[test]
fn randn_real_takes_the_one_draw() {
    assert_eq!(<Real64 as RandNormal>::randn(&[r64(0.75)]), r64(0.75));
    assert_eq!(<Real32 as RandNormal>::randn(&[r32(-0.25)]), r32(-0.25));
}

#[test]
fn randn_complex_takes_real_part_first() {
    let z = <Complex64 as RandNormal>::randn(&[r64(0.75), r64(-1.5)]);
    assert_eq!(z, c64(0.75, -1.5));
    assert_ne!(z, c64(-1.5, 0.75));
    let z = <Complex32 as RandNormal>::randn(&[r32(1.0), r32(2.0)]);
    assert_eq!(z, c32(1.0, 2.0));
}

fn conj_twice<T: linalg_scalar::types::Scalar + PartialEq + std::fmt::Debug>(v: T) {
    assert_eq!(v.conj().conj(), v);
}

fn lift_and_recover<T>(r: T::Real)
where
    T: linalg_scalar::types::Scalar,
    T::Real: PartialEq + std::fmt::Debug,
{
    let x = T::inject_real(r);
    assert_eq!(x.re(), r);
    assert_eq!(x.im(), <T::Real as RealScalar>::zero());
}

#[test]
fn generic_code_over_all_four_types() {
    conj_twice(r32(1.5));
    conj_twice(r64(-1.5));
    conj_twice(c32(1.5, -2.0));
    conj_twice(c64(-0.0, f64::NAN));
    lift_and_recover::<Real32>(r32(9.0));
    lift_and_recover::<Real64>(r64(-9.0));
    lift_and_recover::<Complex32>(r32(f32::INFINITY));
    lift_and_recover::<Complex64>(r64(1e-300));
}

#[test]
fn promotion_keeps_both_parts() {
    let r = r64(-3.5);
    let c = <Real64 as AssociatedComplex>::inject_complex(r);
    assert_eq!(c.re(), AssociatedReal::re(r));
    assert_eq!(c.im(), AssociatedReal::im(r));
}
