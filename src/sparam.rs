use crate::abcd::{AbcdMatrix, Mat2};
use crate::complex::{
    c_add, c_fits_i128, c_mul, c_scale, c_sub, checked_wide_mul, gi, wide_mul, GaussInt,
    WideComplex,
};
use crate::error::NetworkError;
use vstd::prelude::*;

verus! {

/// The model of a scattering matrix held as exact fractions: each entry
/// `Sij` is `sij / den`.
pub struct SFractions {
    pub s11: GaussInt,
    pub s12: GaussInt,
    pub s21: GaussInt,
    pub s22: GaussInt,
    pub den: GaussInt,
}

/// `z0 * A`
pub open spec fn term_a(m: Mat2, z0: int) -> GaussInt {
    c_scale(z0, m.a)
}

/// `z0 * D`
pub open spec fn term_d(m: Mat2, z0: int) -> GaussInt {
    c_scale(z0, m.d)
}

/// `z0^2 * C`
pub open spec fn term_c(m: Mat2, z0: int) -> GaussInt {
    c_scale(z0 * z0, m.c)
}

/// `A*D - B*C`
pub open spec fn det(m: Mat2) -> GaussInt {
    c_sub(c_mul(m.a, m.d), c_mul(m.b, m.c))
}

/// The ABCD-to-S conversion for a real reference impedance `z0`, with the
/// numerators and the common denominator all multiplied by `z0`:
///   den = z0*A + B + z0^2*C + z0*D
///   s11 = z0*A + B - z0^2*C - z0*D
///   s12 = 2*z0*(A*D - B*C)
///   s21 = 2*z0
///   s22 = -z0*A + B - z0^2*C + z0*D
pub open spec fn s_fractions(m: Mat2, z0: int) -> SFractions {
    let za = term_a(m, z0);
    let zd = term_d(m, z0);
    let zc = term_c(m, z0);
    SFractions {
        den: c_add(c_add(za, zd), c_add(m.b, zc)),
        s11: c_add(c_sub(za, zd), c_sub(m.b, zc)),
        s12: c_scale(2 * z0, det(m)),
        s21: gi(2 * z0, 0),
        s22: c_sub(c_sub(m.b, zc), c_sub(za, zd)),
    }
}

/// Every quantity of the conversion, the partial ones included, fits in
/// 128-bit parts.
pub open spec fn s_fits(m: Mat2, z0: int) -> bool {
    let f = s_fractions(m, z0);
    &&& c_fits_i128(term_c(m, z0))
    &&& c_fits_i128(c_add(m.b, term_c(m, z0)))
    &&& c_fits_i128(c_sub(m.b, term_c(m, z0)))
    &&& c_fits_i128(c_mul(m.a, m.d))
    &&& c_fits_i128(c_mul(m.b, m.c))
    &&& c_fits_i128(det(m))
    &&& c_fits_i128(f.den)
    &&& c_fits_i128(f.s11)
    &&& c_fits_i128(f.s12)
    &&& c_fits_i128(f.s22)
}

/// The outcome of the conversion: an invalid reference impedance first, then
/// a value too large for the machine integers, then a zero denominator.
pub open spec fn s_result(m: Mat2, z0: int) -> Result<SFractions, NetworkError> {
    if z0 <= 0 {
        Err(NetworkError::InvalidReferenceImpedance { z0: z0 as i64 })
    } else if !s_fits(m, z0) {
        Err(NetworkError::Overflow)
    } else if s_fractions(m, z0).den == gi(0, 0) {
        Err(NetworkError::SingularNetwork)
    } else {
        Ok(s_fractions(m, z0))
    }
}

/// A scattering matrix as exact fractions over one common denominator:
/// `S11 = s11 / den`, and so on.
#[derive(Clone, Copy, Debug, PartialEq, Eq, Structural)]
pub struct SParamMatrix {
    pub s11: WideComplex,
    pub s12: WideComplex,
    pub s21: WideComplex,
    pub s22: WideComplex,
    pub den: WideComplex,
}

impl View for SParamMatrix {
    type V = SFractions;

    open spec fn view(&self) -> SFractions {
        SFractions {
            s11: self.s11@,
            s12: self.s12@,
            s21: self.s21@,
            s22: self.s22@,
            den: self.den@,
        }
    }
}

/// Converts a network's ABCD matrix to its S-parameters against the real
/// reference impedance `z0`, in the same unit as the matrix's `B` entry.
pub fn to_s_parameters(abcd: &AbcdMatrix, z0: i64) -> (r: Result<SParamMatrix, NetworkError>)
    ensures
        match (r, s_result(abcd@, z0 as int)) {
            (Ok(s), Ok(f)) => s@ == f,
            (Err(e), Err(g)) => e == g,
            _ => false,
        },
{
    if z0 <= 0 {
        return Err(NetworkError::InvalidReferenceImpedance { z0 });
    }
    let ghost m = abcd@;
    let zz = wide_mul(z0, z0);
    let za = WideComplex { re: wide_mul(z0, abcd.a.re), im: wide_mul(z0, abcd.a.im) };
    let zd = WideComplex { re: wide_mul(z0, abcd.d.re), im: wide_mul(z0, abcd.d.im) };
    let b = abcd.b.widen();
    let two_z0 = 2 * (z0 as i128);
    proof {
        crate::complex::lemma_positive_i64_product_bounds(z0 as int, abcd.a.re as int);
        crate::complex::lemma_positive_i64_product_bounds(z0 as int, abcd.a.im as int);
        crate::complex::lemma_positive_i64_product_bounds(z0 as int, abcd.d.re as int);
        crate::complex::lemma_positive_i64_product_bounds(z0 as int, abcd.d.im as int);
        assert(za@ == term_a(m, z0 as int));
        assert(zd@ == term_d(m, z0 as int));
    }
    // za + zd and za - zd are within 2 * 2^126 in size: no check needed.
    let sum_ad = WideComplex { re: za.re + zd.re, im: za.im + zd.im };
    let diff_ad = WideComplex { re: za.re - zd.re, im: za.im - zd.im };
    let zc = match abcd.c.widen().checked_scale(zz) {
        Some(v) => v,
        None => return Err(NetworkError::Overflow),
    };
    let b_plus = match b.checked_add(&zc) {
        Some(v) => v,
        None => return Err(NetworkError::Overflow),
    };
    let b_minus = match b.checked_sub(&zc) {
        Some(v) => v,
        None => return Err(NetworkError::Overflow),
    };
    let ad = match checked_wide_mul(abcd.a, abcd.d) {
        Some(v) => v,
        None => return Err(NetworkError::Overflow),
    };
    let bc = match checked_wide_mul(abcd.b, abcd.c) {
        Some(v) => v,
        None => return Err(NetworkError::Overflow),
    };
    let dt = match ad.checked_sub(&bc) {
        Some(v) => v,
        None => return Err(NetworkError::Overflow),
    };
    let den = match sum_ad.checked_add(&b_plus) {
        Some(v) => v,
        None => return Err(NetworkError::Overflow),
    };
    let s11 = match diff_ad.checked_add(&b_minus) {
        Some(v) => v,
        None => return Err(NetworkError::Overflow),
    };
    let s12 = match dt.checked_scale(two_z0) {
        Some(v) => v,
        None => return Err(NetworkError::Overflow),
    };
    let s22 = match b_minus.checked_sub(&diff_ad) {
        Some(v) => v,
        None => return Err(NetworkError::Overflow),
    };
    if den.is_zero() {
        return Err(NetworkError::SingularNetwork);
    }
    let s21 = WideComplex { re: two_z0, im: 0 };
    Ok(SParamMatrix { s11, s12, s21, s22, den })
}

} // verus!
