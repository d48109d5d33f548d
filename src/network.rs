use crate::abcd::{
    cascade, cascade_fits, cascade_spec, lemma_cascade_single, mat_mul, series, to_abcd, views,
    AbcdMatrix, Mat2,
};
use crate::complex::{c_add, gi, Complex, GaussInt};
use crate::error::NetworkError;
use crate::sparam::{det, s_fractions, s_result, to_s_parameters, SFractions, SParamMatrix};
use vstd::prelude::*;

verus! {

/// The per-component matrices of a chain of series impedances.
pub open spec fn series_chain(zs: Seq<GaussInt>) -> Seq<Mat2> {
    zs.map_values(|z: GaussInt| series(z))
}

/// The sum of a sequence of impedances.
pub open spec fn c_sum(zs: Seq<GaussInt>) -> GaussInt
    decreases zs.len(),
{
    if zs.len() == 0 {
        gi(0, 0)
    } else {
        c_add(c_sum(zs.drop_last()), zs.last())
    }
}

/// The outcome of analysing a chain of series impedances against `z0`.
pub open spec fn analyze_result(zs: Seq<GaussInt>, z0: int) -> Result<SFractions, NetworkError> {
    if zs.len() == 0 {
        Err(NetworkError::EmptyNetwork)
    } else if !cascade_fits(series_chain(zs)) {
        Err(NetworkError::Overflow)
    } else {
        s_result(cascade_spec(series_chain(zs)), z0)
    }
}

pub open spec fn impedance_views(zs: Seq<Complex>) -> Seq<GaussInt> {
    zs.map_values(|z: Complex| z@)
}

proof fn lemma_series_mul(x: GaussInt, y: GaussInt)
    ensures
        mat_mul(series(x), series(y)) == series(c_add(x, y)),
{
}

/// A chain of series impedances behaves as one series impedance, their sum.
pub proof fn lemma_series_chain(zs: Seq<GaussInt>)
    requires
        zs.len() > 0,
    ensures
        cascade_spec(series_chain(zs)) == series(c_sum(zs)),
    decreases zs.len(),
{
    let ms = series_chain(zs);
    if zs.len() == 1 {
        assert(ms =~= seq![series(zs[0])]);
        lemma_cascade_single(series(zs[0]));
        assert(zs.drop_last() =~= Seq::<GaussInt>::empty());
        assert(c_sum(zs.drop_last()) == gi(0, 0));
        assert(zs.last() == zs[0]);
        let s = c_add(gi(0, 0), zs[0]);
        assert(s.re == zs[0].re && s.im == zs[0].im);
        assert(c_sum(zs) == zs[0]);
    } else {
        let z0 = zs.drop_last();
        assert(ms.drop_last() =~= series_chain(z0));
        lemma_series_chain(z0);
        lemma_series_mul(c_sum(z0), zs.last());
    }
}

/// A single series resistor `r` against `z0`: `S11 = S22 = r / (r + 2*z0)`,
/// and `S12 = S21 = 2*z0 / (r + 2*z0)`.
pub proof fn lemma_single_resistor(r: int, z0: int)
    ensures
        s_fractions(series(gi(r, 0)), z0).s11 == gi(r, 0),
        s_fractions(series(gi(r, 0)), z0).s22 == gi(r, 0),
        s_fractions(series(gi(r, 0)), z0).s12 == gi(2 * z0, 0),
        s_fractions(series(gi(r, 0)), z0).s21 == gi(2 * z0, 0),
        s_fractions(series(gi(r, 0)), z0).den == gi(r + 2 * z0, 0),
{
    assert(z0 * z0 * 0 == 0) by (nonlinear_arith);
    assert(2 * z0 * 1 == 2 * z0 && 2 * z0 * 0 == 0) by (nonlinear_arith);
}

/// Any chain of series impedances is reciprocal: `S12 == S21`.
pub proof fn lemma_series_reciprocal(zs: Seq<GaussInt>, z0: int)
    requires
        zs.len() > 0,
    ensures
        s_fractions(cascade_spec(series_chain(zs)), z0).s12 == s_fractions(
            cascade_spec(series_chain(zs)),
            z0,
        ).s21,
{
    lemma_series_chain(zs);
    let m = series(c_sum(zs));
    assert(det(m) == gi(1, 0));
    assert(2 * z0 * 1 == 2 * z0 && 2 * z0 * 0 == 0) by (nonlinear_arith);
}

/// The S-parameters of a chain of series impedances, in signal-flow order,
/// against the real reference impedance `z0`. Impedances and `z0` share one
/// unit, of the caller's choosing.
pub fn analyze(impedances: &Vec<Complex>, z0: i64) -> (r: Result<SParamMatrix, NetworkError>)
    ensures
        match (r, analyze_result(impedance_views(impedances@), z0 as int)) {
            (Ok(s), Ok(f)) => s@ == f,
            (Err(e), Err(g)) => e == g,
            _ => false,
        },
        r is Ok ==> r->Ok_0@.s12 == r->Ok_0@.s21,
{
    let ghost zs = impedance_views(impedances@);
    let mut ms: Vec<AbcdMatrix> = Vec::new();
    let mut i: usize = 0;
    while i < impedances.len()
        invariant
            i <= impedances@.len(),
            zs == impedance_views(impedances@),
            views(ms@) =~= series_chain(zs.take(i as int)),
        decreases impedances@.len() - i,
    {
        let m = to_abcd(impedances[i]);
        let ghost old_ms = ms@;
        ms.push(m);
        proof {
            assert(ms@ =~= old_ms.push(m));
            assert(views(ms@) =~= views(old_ms).push(m@));
            assert(zs.take(i as int + 1) =~= zs.take(i as int).push(zs[i as int]));
            assert(series_chain(zs.take(i as int + 1)) =~= series_chain(zs.take(i as int)).push(
                series(zs[i as int]),
            ));
        }
        i = i + 1;
    }
    assert(zs.take(impedances@.len() as int) =~= zs);
    let m = cascade(&ms)?;
    proof {
        lemma_series_reciprocal(zs, z0 as int);
    }
    to_s_parameters(&m, z0)
}

} // verus!
