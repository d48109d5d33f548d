use vstd::prelude::*;

verus! {

/// A complex number with unbounded integer parts: the mathematical model of
/// every complex value of the library.
pub struct GaussInt {
    pub re: int,
    pub im: int,
}

pub open spec fn gi(re: int, im: int) -> GaussInt {
    GaussInt { re, im }
}

pub open spec fn c_add(x: GaussInt, y: GaussInt) -> GaussInt {
    gi(x.re + y.re, x.im + y.im)
}

pub open spec fn c_sub(x: GaussInt, y: GaussInt) -> GaussInt {
    gi(x.re - y.re, x.im - y.im)
}

pub open spec fn c_mul(x: GaussInt, y: GaussInt) -> GaussInt {
    gi(x.re * y.re - x.im * y.im, x.re * y.im + x.im * y.re)
}

/// `k * x` for an integer `k`.
pub open spec fn c_scale(k: int, x: GaussInt) -> GaussInt {
    gi(k * x.re, k * x.im)
}

pub open spec fn fits_i64(v: int) -> bool {
    i64::MIN <= v <= i64::MAX
}

pub open spec fn fits_i128(v: int) -> bool {
    i128::MIN <= v <= i128::MAX
}

pub open spec fn c_fits_i64(x: GaussInt) -> bool {
    fits_i64(x.re) && fits_i64(x.im)
}

pub open spec fn c_fits_i128(x: GaussInt) -> bool {
    fits_i128(x.re) && fits_i128(x.im)
}

/// A complex number with 64-bit integer parts, in whatever unit the caller
/// has chosen for the quantity it holds.
#[derive(Clone, Copy, Debug, PartialEq, Eq, Structural)]
pub struct Complex {
    pub re: i64,
    pub im: i64,
}

/// A complex number with 128-bit integer parts.
#[derive(Clone, Copy, Debug, PartialEq, Eq, Structural)]
pub struct WideComplex {
    pub re: i128,
    pub im: i128,
}

impl View for Complex {
    type V = GaussInt;

    open spec fn view(&self) -> GaussInt {
        gi(self.re as int, self.im as int)
    }
}

impl View for WideComplex {
    type V = GaussInt;

    open spec fn view(&self) -> GaussInt {
        gi(self.re as int, self.im as int)
    }
}

impl Complex {
    pub fn new(re: i64, im: i64) -> (r: Complex)
        ensures
            r@ == gi(re as int, im as int),
    {
        Complex { re, im }
    }

    pub fn zero() -> (r: Complex)
        ensures
            r@ == gi(0, 0),
    {
        Complex { re: 0, im: 0 }
    }

    pub fn one() -> (r: Complex)
        ensures
            r@ == gi(1, 0),
    {
        Complex { re: 1, im: 0 }
    }

    pub fn widen(&self) -> (r: WideComplex)
        ensures
            r@ == self@,
    {
        WideComplex { re: self.re as i128, im: self.im as i128 }
    }
}

impl WideComplex {
    pub fn is_zero(&self) -> (r: bool)
        ensures
            r == (self@ == gi(0, 0)),
    {
        self.re == 0 && self.im == 0
    }

    pub fn checked_add(&self, rhs: &WideComplex) -> (r: Option<WideComplex>)
        ensures
            r is Some <==> c_fits_i128(c_add(self@, rhs@)),
            r is Some ==> r->0@ == c_add(self@, rhs@),
    {
        match (self.re.checked_add(rhs.re), self.im.checked_add(rhs.im)) {
            (Some(re), Some(im)) => Some(WideComplex { re, im }),
            _ => None,
        }
    }

    pub fn checked_sub(&self, rhs: &WideComplex) -> (r: Option<WideComplex>)
        ensures
            r is Some <==> c_fits_i128(c_sub(self@, rhs@)),
            r is Some ==> r->0@ == c_sub(self@, rhs@),
    {
        match (self.re.checked_sub(rhs.re), self.im.checked_sub(rhs.im)) {
            (Some(re), Some(im)) => Some(WideComplex { re, im }),
            _ => None,
        }
    }

    /// `k * self`, when it fits.
    pub fn checked_scale(&self, k: i128) -> (r: Option<WideComplex>)
        ensures
            r is Some <==> c_fits_i128(c_scale(k as int, self@)),
            r is Some ==> r->0@ == c_scale(k as int, self@),
    {
        match (k.checked_mul(self.re), k.checked_mul(self.im)) {
            (Some(re), Some(im)) => Some(WideComplex { re, im }),
            _ => None,
        }
    }
}

/// The exact product `x * y`, when it fits in 128-bit parts.
pub fn checked_wide_mul(x: Complex, y: Complex) -> (r: Option<WideComplex>)
    ensures
        r is Some <==> c_fits_i128(c_mul(x@, y@)),
        r is Some ==> r->0@ == c_mul(x@, y@),
{
    let p1 = wide_mul(x.re, y.re);
    let p2 = wide_mul(x.im, y.im);
    let p3 = wide_mul(x.re, y.im);
    let p4 = wide_mul(x.im, y.re);
    proof {
        lemma_i64_product_bounds(x.re as int, y.re as int);
        lemma_i64_product_bounds(x.im as int, y.im as int);
    }
    let re = p1 - p2;
    match p3.checked_add(p4) {
        Some(im) => Some(WideComplex { re, im }),
        None => None,
    }
}

pub proof fn lemma_i64_product_bounds(a: int, b: int)
    requires
        fits_i64(a),
        fits_i64(b),
    ensures
        -0x4000_0000_0000_0000_0000_0000_0000_0000 + 0x8000_0000_0000_0000 <= a * b
            <= 0x4000_0000_0000_0000_0000_0000_0000_0000,
{
    assert(-0x4000_0000_0000_0000_0000_0000_0000_0000 + 0x8000_0000_0000_0000 <= a * b
        <= 0x4000_0000_0000_0000_0000_0000_0000_0000) by (nonlinear_arith)
        requires
            -0x8000_0000_0000_0000 <= a <= 0x7fff_ffff_ffff_ffff,
            -0x8000_0000_0000_0000 <= b <= 0x7fff_ffff_ffff_ffff,
    ;
}

/// With a positive first factor the product stays clear of the top of the
/// `i128` range, so that two such products can be added.
pub proof fn lemma_positive_i64_product_bounds(a: int, b: int)
    requires
        0 < a,
        fits_i64(a),
        fits_i64(b),
    ensures
        -0x4000_0000_0000_0000_0000_0000_0000_0000 + 0x8000_0000_0000_0000 <= a * b
            <= 0x3fff_ffff_ffff_ffff_0000_0000_0000_0001,
{
    assert(-0x4000_0000_0000_0000_0000_0000_0000_0000 + 0x8000_0000_0000_0000 <= a * b
        <= 0x3fff_ffff_ffff_ffff_0000_0000_0000_0001) by (nonlinear_arith)
        requires
            0 < a <= 0x7fff_ffff_ffff_ffff,
            -0x8000_0000_0000_0000 <= b <= 0x7fff_ffff_ffff_ffff,
    ;
}

pub fn wide_mul(a: i64, b: i64) -> (r: i128)
    ensures
        r == a * b,
{
    proof {
        lemma_i64_product_bounds(a as int, b as int);
    }
    (a as i128) * (b as i128)
}

fn narrow(v: Option<i128>) -> (r: Option<i64>)
    ensures
        r is Some <==> (v is Some && fits_i64(v->0 as int)),
        r is Some ==> r->0 == v->0,
{
    match v {
        Some(t) => {
            if i64::MIN as i128 <= t && t <= i64::MAX as i128 {
                Some(t as i64)
            } else {
                None
            }
        },
        None => None,
    }
}

/// `a*b - c*d + e*f - g*h`, exactly, when it fits in `i64`.
fn alt_sum4(a: i64, b: i64, c: i64, d: i64, e: i64, f: i64, g: i64, h: i64) -> (r: Option<i64>)
    ensures
        r is Some <==> fits_i64(a * b - c * d + e * f - g * h),
        r is Some ==> r->0 == a * b - c * d + e * f - g * h,
{
    let p1 = wide_mul(a, b);
    let p2 = wide_mul(c, d);
    let p3 = wide_mul(e, f);
    let p4 = wide_mul(g, h);
    proof {
        lemma_i64_product_bounds(a as int, b as int);
        lemma_i64_product_bounds(c as int, d as int);
        lemma_i64_product_bounds(e as int, f as int);
        lemma_i64_product_bounds(g as int, h as int);
    }
    let s1 = p1 - p2;
    let s2 = p3 - p4;
    narrow(s1.checked_add(s2))
}

/// `a*b + c*d + e*f + g*h`, exactly, when it fits in `i64`.
fn sum4(a: i64, b: i64, c: i64, d: i64, e: i64, f: i64, g: i64, h: i64) -> (r: Option<i64>)
    ensures
        r is Some <==> fits_i64(a * b + c * d + e * f + g * h),
        r is Some ==> r->0 == a * b + c * d + e * f + g * h,
{
    let p1 = wide_mul(a, b);
    let p2 = wide_mul(c, d);
    let p3 = wide_mul(e, f);
    let p4 = wide_mul(g, h);
    proof {
        lemma_i64_product_bounds(a as int, b as int);
        lemma_i64_product_bounds(c as int, d as int);
        lemma_i64_product_bounds(e as int, f as int);
        lemma_i64_product_bounds(g as int, h as int);
    }
    // A partial sum of two products leaves i128 only upwards, and then the
    // whole sum is already past i64::MAX.
    match p1.checked_add(p2) {
        None => None,
        Some(s1) => match p3.checked_add(p4) {
            None => None,
            Some(s2) => narrow(s1.checked_add(s2)),
        },
    }
}

/// `x*y + z*w`, exactly, when both of its parts fit in `i64`.
pub fn checked_dot2(x: Complex, y: Complex, z: Complex, w: Complex) -> (r: Option<Complex>)
    ensures
        r is Some <==> c_fits_i64(c_add(c_mul(x@, y@), c_mul(z@, w@))),
        r is Some ==> r->0@ == c_add(c_mul(x@, y@), c_mul(z@, w@)),
{
    let re = alt_sum4(x.re, y.re, x.im, y.im, z.re, w.re, z.im, w.im);
    let im = sum4(x.re, y.im, x.im, y.re, z.re, w.im, z.im, w.re);
    match (re, im) {
        (Some(re), Some(im)) => Some(Complex { re, im }),
        _ => None,
    }
}

} // verus!
