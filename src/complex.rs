//! Complex scalars: num-complex's `Complex<T>` over `i32` and `i64`.
use num::complex::Complex;
use vstd::prelude::*;

use crate::scalar::{Conjugate, Scalar, Widen};

verus! {

/// num-complex's complex number, with its public `re` and `im` fields visible.
#[verifier::external_type_specification]
#[verifier::reject_recursive_types(T)]
pub struct ExComplex<T>(Complex<T>);

/// Relies on num-complex's `Complex::conj`: the real part is kept and the
/// imaginary part negated, `-im` on `i32`.
#[verifier::external_body]
fn conj_c32(c: &Complex<i32>) -> (r: Complex<i32>)
    requires
        c.im != i32::MIN,
    ensures
        r.re == c.re,
        r.im == -c.im,
{
    Complex::<i32>::conj(c)
}

/// Relies on num-complex's `Add` for `Complex<T>`: the parts are added one by
/// one, with `i32`'s `+`.
#[verifier::external_body]
fn add_c32(a: Complex<i32>, b: Complex<i32>) -> (r: Complex<i32>)
    requires
        i32::MIN <= a.re + b.re <= i32::MAX,
        i32::MIN <= a.im + b.im <= i32::MAX,
    ensures
        r.re == a.re + b.re,
        r.im == a.im + b.im,
{
    a + b
}

/// Relies on num-complex's `From<T>` for `Complex<T>`: the value becomes the
/// real part, with a zero imaginary part.
#[verifier::external_body]
fn from_real_c32(x: i32) -> (r: Complex<i32>)
    ensures
        r.re == x,
        r.im == 0,
{
    Complex::<i32>::from(x)
}

impl Conjugate for Complex<i32> {
    open spec fn conj_spec(self) -> Self {
        Complex { re: self.re, im: (-self.im) as i32 }
    }

    open spec fn conj_defined(self) -> bool {
        self.im != i32::MIN
    }

    fn conj(self) -> (r: Self) {
        conj_c32(&self)
    }
}

impl Scalar for Complex<i32> {
    open spec fn add_spec(self, other: Self) -> Self {
        Complex { re: (self.re + other.re) as i32, im: (self.im + other.im) as i32 }
    }

    open spec fn add_defined(self, other: Self) -> bool {
        &&& i32::MIN <= self.re + other.re <= i32::MAX
        &&& i32::MIN <= self.im + other.im <= i32::MAX
    }

    fn plus(self, other: Self) -> (r: Self) {
        add_c32(self, other)
    }
}

impl Widen<i32> for Complex<i32> {
    open spec fn widen_spec(x: i32) -> Self {
        Complex { re: x, im: 0 }
    }

    fn widen(x: i32) -> (r: Self) {
        from_real_c32(x)
    }
}

impl Widen<Complex<i32>> for Complex<i32> {
    open spec fn widen_spec(x: Complex<i32>) -> Self {
        x
    }

    fn widen(x: Complex<i32>) -> (r: Self) {
        x
    }
}

/// Relies on num-complex's `Complex::conj`: the real part is kept and the
/// imaginary part negated, `-im` on `i64`.
#[verifier::external_body]
fn conj_c64(c: &Complex<i64>) -> (r: Complex<i64>)
    requires
        c.im != i64::MIN,
    ensures
        r.re == c.re,
        r.im == -c.im,
{
    Complex::<i64>::conj(c)
}

/// Relies on num-complex's `Add` for `Complex<T>`: the parts are added one by
/// one, with `i64`'s `+`.
#[verifier::external_body]
fn add_c64(a: Complex<i64>, b: Complex<i64>) -> (r: Complex<i64>)
    requires
        i64::MIN <= a.re + b.re <= i64::MAX,
        i64::MIN <= a.im + b.im <= i64::MAX,
    ensures
        r.re == a.re + b.re,
        r.im == a.im + b.im,
{
    a + b
}

/// Relies on num-complex's `From<T>` for `Complex<T>`: the value becomes the
/// real part, with a zero imaginary part.
#[verifier::external_body]
fn from_real_c64(x: i64) -> (r: Complex<i64>)
    ensures
        r.re == x,
        r.im == 0,
{
    Complex::<i64>::from(x)
}

impl Conjugate for Complex<i64> {
    open spec fn conj_spec(self) -> Self {
        Complex { re: self.re, im: (-self.im) as i64 }
    }

    open spec fn conj_defined(self) -> bool {
        self.im != i64::MIN
    }

    fn conj(self) -> (r: Self) {
        conj_c64(&self)
    }
}

impl Scalar for Complex<i64> {
    open spec fn add_spec(self, other: Self) -> Self {
        Complex { re: (self.re + other.re) as i64, im: (self.im + other.im) as i64 }
    }

    open spec fn add_defined(self, other: Self) -> bool {
        &&& i64::MIN <= self.re + other.re <= i64::MAX
        &&& i64::MIN <= self.im + other.im <= i64::MAX
    }

    fn plus(self, other: Self) -> (r: Self) {
        add_c64(self, other)
    }
}

impl Widen<i64> for Complex<i64> {
    open spec fn widen_spec(x: i64) -> Self {
        Complex { re: x, im: 0 }
    }

    fn widen(x: i64) -> (r: Self) {
        from_real_c64(x)
    }
}

impl Widen<Complex<i64>> for Complex<i64> {
    open spec fn widen_spec(x: Complex<i64>) -> Self {
        x
    }

    fn widen(x: Complex<i64>) -> (r: Self) {
        x
    }
}

} // verus!
