use crate::complex::{c_add, c_fits_i64, c_mul, checked_dot2, gi, Complex, GaussInt};
use crate::error::NetworkError;
use vstd::prelude::*;

verus! {

/// The model of a 2x2 transmission matrix `[A B; C D]`.
pub struct Mat2 {
    pub a: GaussInt,
    pub b: GaussInt,
    pub c: GaussInt,
    pub d: GaussInt,
}

pub open spec fn mat_mul(x: Mat2, y: Mat2) -> Mat2 {
    Mat2 {
        a: c_add(c_mul(x.a, y.a), c_mul(x.b, y.c)),
        b: c_add(c_mul(x.a, y.b), c_mul(x.b, y.d)),
        c: c_add(c_mul(x.c, y.a), c_mul(x.d, y.c)),
        d: c_add(c_mul(x.c, y.b), c_mul(x.d, y.d)),
    }
}

pub open spec fn mat_identity() -> Mat2 {
    Mat2 { a: gi(1, 0), b: gi(0, 0), c: gi(0, 0), d: gi(1, 0) }
}

/// The transmission matrix of one series impedance `z`: `[1 z; 0 1]`.
pub open spec fn series(z: GaussInt) -> Mat2 {
    Mat2 { a: gi(1, 0), b: z, c: gi(0, 0), d: gi(1, 0) }
}

pub open spec fn mat_fits_i64(m: Mat2) -> bool {
    c_fits_i64(m.a) && c_fits_i64(m.b) && c_fits_i64(m.c) && c_fits_i64(m.d)
}

/// The product `M1 * M2 * ... * Mn`, in signal-flow order; the identity when
/// there is no matrix.
pub open spec fn cascade_spec(ms: Seq<Mat2>) -> Mat2
    decreases ms.len(),
{
    if ms.len() == 0 {
        mat_identity()
    } else {
        mat_mul(cascade_spec(ms.drop_last()), ms.last())
    }
}

/// Every partial product `M1 * ... * Mk`, `k >= 1`, fits in 64-bit parts.
pub open spec fn cascade_fits(ms: Seq<Mat2>) -> bool {
    forall|k: int| 1 <= k <= ms.len() ==> #[trigger] mat_fits_i64(cascade_spec(ms.take(k)))
}

/// A two-port transmission (ABCD) matrix, relating `[V1; I1]` to `[V2; I2]`.
#[derive(Clone, Copy, Debug, PartialEq, Eq, Structural)]
pub struct AbcdMatrix {
    pub a: Complex,
    pub b: Complex,
    pub c: Complex,
    pub d: Complex,
}

impl View for AbcdMatrix {
    type V = Mat2;

    open spec fn view(&self) -> Mat2 {
        Mat2 { a: self.a@, b: self.b@, c: self.c@, d: self.d@ }
    }
}

pub open spec fn views(ms: Seq<AbcdMatrix>) -> Seq<Mat2> {
    ms.map_values(|m: AbcdMatrix| m@)
}

impl AbcdMatrix {
    pub fn new(a: Complex, b: Complex, c: Complex, d: Complex) -> (r: AbcdMatrix)
        ensures
            r@ == (Mat2 { a: a@, b: b@, c: c@, d: d@ }),
    {
        AbcdMatrix { a, b, c, d }
    }

    /// The product `self * rhs`, when each of its entries fits in 64-bit parts.
    pub fn checked_mul(&self, rhs: &AbcdMatrix) -> (r: Option<AbcdMatrix>)
        ensures
            r is Some <==> mat_fits_i64(mat_mul(self@, rhs@)),
            r is Some ==> r->0@ == mat_mul(self@, rhs@),
    {
        let a = checked_dot2(self.a, rhs.a, self.b, rhs.c);
        let b = checked_dot2(self.a, rhs.b, self.b, rhs.d);
        let c = checked_dot2(self.c, rhs.a, self.d, rhs.c);
        let d = checked_dot2(self.c, rhs.b, self.d, rhs.d);
        match (a, b, c, d) {
            (Some(a), Some(b), Some(c), Some(d)) => Some(AbcdMatrix { a, b, c, d }),
            _ => None,
        }
    }
}

/// The transmission matrix of a single series impedance: `[1 z; 0 1]`.
pub fn to_abcd(z: Complex) -> (r: AbcdMatrix)
    ensures
        r@ == series(z@),
{
    AbcdMatrix { a: Complex::one(), b: z, c: Complex::zero(), d: Complex::one() }
}

proof fn lemma_c_mul_one(x: GaussInt)
    ensures
        c_mul(gi(1, 0), x) == x,
        c_mul(x, gi(1, 0)) == x,
        c_mul(gi(0, 0), x) == gi(0, 0),
        c_mul(x, gi(0, 0)) == gi(0, 0),
{
    assert(1 * x.re == x.re && 0 * x.re == 0 && x.re * 1 == x.re && x.re * 0 == 0);
    assert(1 * x.im == x.im && 0 * x.im == 0 && x.im * 1 == x.im && x.im * 0 == 0);
}

pub proof fn lemma_identity_left(m: Mat2)
    ensures
        mat_mul(mat_identity(), m) == m,
{
    lemma_c_mul_one(m.a);
    lemma_c_mul_one(m.b);
    lemma_c_mul_one(m.c);
    lemma_c_mul_one(m.d);
}

pub proof fn lemma_identity_right(m: Mat2)
    ensures
        mat_mul(m, mat_identity()) == m,
{
    lemma_c_mul_one(m.a);
    lemma_c_mul_one(m.b);
    lemma_c_mul_one(m.c);
    lemma_c_mul_one(m.d);
}

proof fn lemma_int_distrib(a: int, b: int, c: int)
    ensures
        (a + b) * c == a * c + b * c,
        c * (a + b) == c * a + c * b,
        (a - b) * c == a * c - b * c,
        c * (a - b) == c * a - c * b,
{
    assert((a + b) * c == a * c + b * c) by (nonlinear_arith);
    assert(c * (a + b) == c * a + c * b) by (nonlinear_arith);
    assert((a - b) * c == a * c - b * c) by (nonlinear_arith);
    assert(c * (a - b) == c * a - c * b) by (nonlinear_arith);
}

proof fn lemma_int_assoc(a: int, b: int, c: int)
    ensures
        (a * b) * c == a * (b * c),
{
    assert((a * b) * c == a * (b * c)) by (nonlinear_arith);
}

proof fn lemma_c_mul_assoc(x: GaussInt, y: GaussInt, z: GaussInt)
    ensures
        c_mul(c_mul(x, y), z) == c_mul(x, c_mul(y, z)),
{
    let (a, b, c, d, e, f) = (x.re, x.im, y.re, y.im, z.re, z.im);
    lemma_int_distrib(a * c, b * d, e);
    lemma_int_distrib(a * d, b * c, f);
    lemma_int_distrib(a * c, b * d, f);
    lemma_int_distrib(a * d, b * c, e);
    lemma_int_distrib(c * e, d * f, a);
    lemma_int_distrib(c * f, d * e, b);
    lemma_int_distrib(c * f, d * e, a);
    lemma_int_distrib(c * e, d * f, b);
    lemma_int_assoc(a, c, e);
    lemma_int_assoc(b, d, e);
    lemma_int_assoc(a, d, f);
    lemma_int_assoc(b, c, f);
    lemma_int_assoc(a, c, f);
    lemma_int_assoc(b, d, f);
    lemma_int_assoc(a, d, e);
    lemma_int_assoc(b, c, e);
}

proof fn lemma_c_mul_distrib(x: GaussInt, y: GaussInt, z: GaussInt)
    ensures
        c_mul(c_add(x, y), z) == c_add(c_mul(x, z), c_mul(y, z)),
        c_mul(z, c_add(x, y)) == c_add(c_mul(z, x), c_mul(z, y)),
{
    lemma_int_distrib(x.re, y.re, z.re);
    lemma_int_distrib(x.im, y.im, z.im);
    lemma_int_distrib(x.re, y.re, z.im);
    lemma_int_distrib(x.im, y.im, z.re);
}

/// `(p*q + r*s)*u + (p*t + r*w)*v == p*(q*u + t*v) + r*(s*u + w*v)`: one entry
/// of a triple matrix product, grouped either way.
proof fn lemma_entry_regroup(
    p: GaussInt,
    r: GaussInt,
    q: GaussInt,
    s: GaussInt,
    t: GaussInt,
    w: GaussInt,
    u: GaussInt,
    v: GaussInt,
)
    ensures
        c_add(c_mul(c_add(c_mul(p, q), c_mul(r, s)), u), c_mul(c_add(c_mul(p, t), c_mul(r, w)), v))
            == c_add(c_mul(p, c_add(c_mul(q, u), c_mul(t, v))), c_mul(r, c_add(c_mul(s, u), c_mul(w, v)))),
{
    lemma_c_mul_distrib(c_mul(p, q), c_mul(r, s), u);
    lemma_c_mul_distrib(c_mul(p, t), c_mul(r, w), v);
    lemma_c_mul_distrib(c_mul(q, u), c_mul(t, v), p);
    lemma_c_mul_distrib(c_mul(s, u), c_mul(w, v), r);
    lemma_c_mul_assoc(p, q, u);
    lemma_c_mul_assoc(r, s, u);
    lemma_c_mul_assoc(p, t, v);
    lemma_c_mul_assoc(r, w, v);
}

/// Matrix multiplication over the exact model is associative.
pub proof fn lemma_mat_mul_assoc(x: Mat2, y: Mat2, z: Mat2)
    ensures
        mat_mul(mat_mul(x, y), z) == mat_mul(x, mat_mul(y, z)),
{
    lemma_entry_regroup(x.a, x.b, y.a, y.c, y.b, y.d, z.a, z.c);
    lemma_entry_regroup(x.a, x.b, y.a, y.c, y.b, y.d, z.b, z.d);
    lemma_entry_regroup(x.c, x.d, y.a, y.c, y.b, y.d, z.a, z.c);
    lemma_entry_regroup(x.c, x.d, y.a, y.c, y.b, y.d, z.b, z.d);
}

/// Cascading two non-empty sub-networks one after the other gives the
/// product of their cascades.
pub proof fn lemma_cascade_append(s: Seq<Mat2>, t: Seq<Mat2>)
    ensures
        cascade_spec(s + t) == mat_mul(cascade_spec(s), cascade_spec(t)),
    decreases t.len(),
{
    if t.len() == 0 {
        assert(s + t =~= s);
        lemma_identity_right(cascade_spec(s));
    } else {
        let t0 = t.drop_last();
        assert((s + t).drop_last() =~= s + t0);
        assert((s + t).last() == t.last());
        lemma_cascade_append(s, t0);
        lemma_mat_mul_assoc(cascade_spec(s), cascade_spec(t0), t.last());
    }
}

/// Cascade is associative: cascading three matrices directly, or first
/// cascading the leading two (or the trailing two), gives the same matrix;
/// and where the direct cascade stays within 64-bit parts, so does the one
/// that cascades the leading two first.
pub proof fn lemma_cascade_associative(m1: Mat2, m2: Mat2, m3: Mat2)
    ensures
        cascade_spec(seq![m1, m2, m3]) == cascade_spec(seq![cascade_spec(seq![m1, m2]), m3]),
        cascade_spec(seq![m1, m2, m3]) == cascade_spec(seq![m1, cascade_spec(seq![m2, m3])]),
        cascade_fits(seq![m1, m2, m3]) ==> cascade_fits(
            seq![cascade_spec(seq![m1, m2]), m3],
        ),
{
    let m12 = cascade_spec(seq![m1, m2]);
    let flat = seq![m1, m2, m3];
    let nested = seq![m12, m3];
    lemma_cascade_single(m1);
    lemma_cascade_single(m2);
    lemma_cascade_single(m12);
    assert(seq![m1, m2].drop_last() =~= seq![m1]);
    assert(seq![m2, m3].drop_last() =~= seq![m2]);
    assert(flat.drop_last() =~= seq![m1, m2]);
    assert(nested.drop_last() =~= seq![m12]);
    assert(seq![m1, cascade_spec(seq![m2, m3])].drop_last() =~= seq![m1]);
    lemma_mat_mul_assoc(m1, m2, m3);
    if cascade_fits(flat) {
        assert(flat.take(2) =~= seq![m1, m2]);
        assert(flat.take(3) =~= flat);
        assert(nested.take(1) =~= seq![m12]);
        assert(nested.take(2) =~= nested);
        assert(mat_fits_i64(cascade_spec(flat.take(2))));
        assert(mat_fits_i64(cascade_spec(flat.take(3))));
        assert forall|k: int| 1 <= k <= nested.len() implies #[trigger] mat_fits_i64(
            cascade_spec(nested.take(k)),
        ) by {}
    }
}

pub proof fn lemma_cascade_single(m: Mat2)
    ensures
        cascade_spec(seq![m]) == m,
{
    let s = seq![m];
    assert(s.drop_last() =~= Seq::<Mat2>::empty());
    assert(s.len() == 1 && s.last() == m);
    assert(cascade_spec(s.drop_last()) == mat_identity());
    lemma_identity_left(m);
}

/// The network matrix of a cascade of components, in signal-flow order.
///
/// An empty sequence is refused; otherwise the result is `M1 * ... * Mn`
/// whenever every partial product fits in 64-bit parts.
pub fn cascade(ms: &Vec<AbcdMatrix>) -> (r: Result<AbcdMatrix, NetworkError>)
    ensures
        ms@.len() == 0 ==> r == Err::<AbcdMatrix, NetworkError>(NetworkError::EmptyNetwork),
        ms@.len() > 0 && !cascade_fits(views(ms@)) ==> r == Err::<AbcdMatrix, NetworkError>(
            NetworkError::Overflow,
        ),
        r is Ok <==> ms@.len() > 0 && cascade_fits(views(ms@)),
        r is Ok ==> r->Ok_0@ == cascade_spec(views(ms@)),
{
    if ms.len() == 0 {
        return Err(NetworkError::EmptyNetwork);
    }
    let ghost vs = views(ms@);
    let mut acc = ms[0];
    proof {
        assert(vs.take(1) =~= seq![vs[0]]);
        lemma_cascade_single(vs[0]);
    }
    let mut i: usize = 1;
    while i < ms.len()
        invariant
            1 <= i <= ms@.len(),
            vs == views(ms@),
            acc@ == cascade_spec(vs.take(i as int)),
            forall|k: int| 1 <= k <= i ==> #[trigger] mat_fits_i64(cascade_spec(vs.take(k))),
        decreases ms@.len() - i,
    {
        proof {
            assert(vs.take(i as int + 1).drop_last() =~= vs.take(i as int));
        }
        match acc.checked_mul(&ms[i]) {
            Some(next) => {
                acc = next;
                i = i + 1;
            },
            None => {
                assert(!mat_fits_i64(cascade_spec(vs.take(i as int + 1))));
                return Err(NetworkError::Overflow);
            },
        }
    }
    assert(vs.take(ms@.len() as int) =~= vs);
    Ok(acc)
}

} // verus!
