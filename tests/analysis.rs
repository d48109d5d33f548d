use rlc::abcd::{cascade, to_abcd, AbcdMatrix};
use rlc::complex::{Complex, WideComplex};
use rlc::error::NetworkError;
use rlc::network::analyze;
use rlc::sparam::to_s_parameters;

fn c(re: i64, im: i64) -> Complex {
    Complex::new(re, im)
}

fn ratio(num: WideComplex, den: WideComplex) -> (f64, f64) {
    let (a, b) = (num.re as f64, num.im as f64);
    let (x, y) = (den.re as f64, den.im as f64);
    let d = x * x + y * y;
    ((a * x + b * y) / d, (b * x - a * y) / d)
}

#[test]
fn series_element_matrix() {
    let m = to_abcd(c(3, -4));
    assert_eq!(m, AbcdMatrix::new(c(1, 0), c(3, -4), c(0, 0), c(1, 0)));
}

#[test]
fn single_resistor_closed_form() {
    let s = to_s_parameters(&to_abcd(c(75, 0)), 50).unwrap();
    assert_eq!(s.s11, WideComplex { re: 75, im: 0 });
    assert_eq!(s.s22, WideComplex { re: 75, im: 0 });
    assert_eq!(s.s21, WideComplex { re: 100, im: 0 });
    assert_eq!(s.s12, WideComplex { re: 100, im: 0 });
    assert_eq!(s.den, WideComplex { re: 175, im: 0 });
    let (re, im) = ratio(s.s11, s.den);
    assert!((re - 75.0 / 175.0).abs() < 1e-15);
    assert_eq!(im, 0.0);
}

#[test]
fn cascade_associative() {
    let m1 = AbcdMatrix::new(c(1, 2), c(-3, 4), c(5, 0), c(0, -6));
    let m2 = AbcdMatrix::new(c(7, -1), c(2, 2), c(-1, 3), c(4, 5));
    let m3 = to_abcd(c(11, -13));
    let flat = cascade(&vec![m1, m2, m3]).unwrap();
    let left = cascade(&vec![cascade(&vec![m1, m2]).unwrap(), m3]).unwrap();
    let right = cascade(&vec![m1, cascade(&vec![m2, m3]).unwrap()]).unwrap();
    assert_eq!(flat, left);
    assert_eq!(flat, right);
}

#[test]
fn cascade_product_value() {
    let m1 = AbcdMatrix::new(c(1, 1), c(2, 0), c(0, 1), c(1, 0));
    let m2 = AbcdMatrix::new(c(0, 1), c(1, 0), c(1, 0), c(0, -1));
    let p = cascade(&vec![m1, m2]).unwrap();
    // a = (1+i)i + 2*1 = 1+i, b = (1+i)*1 + 2*(-i) = 1-i
    // c = i*i + 1*1 = 0, d = i*1 + 1*(-i) = 0
    assert_eq!(p, AbcdMatrix::new(c(1, 1), c(1, -1), c(0, 0), c(0, 0)));
}

#[test]
fn cascade_of_one_is_itself() {
    let m = AbcdMatrix::new(c(1, 2), c(3, 4), c(5, 6), c(7, 8));
    assert_eq!(cascade(&vec![m]), Ok(m));
}

#[test]
fn cascade_empty_is_refused() {
    assert_eq!(cascade(&vec![]), Err(NetworkError::EmptyNetwork));
    assert_eq!(analyze(&vec![], 50), Err(NetworkError::EmptyNetwork));
}

#[test]
fn cascade_overflow() {
    let big = to_abcd(c(i64::MAX, 0));
    assert_eq!(cascade(&vec![big, big]), Err(NetworkError::Overflow));
    let m = AbcdMatrix::new(c(i64::MIN, 0), c(0, 0), c(0, 0), c(1, 0));
    assert_eq!(cascade(&vec![m, m]), Err(NetworkError::Overflow));
}

#[test]
fn series_chain_is_reciprocal() {
    let s = analyze(&vec![c(75, 0), c(0, 63), c(0, -80), c(12, 5)], 50).unwrap();
    assert_eq!(s.s12, s.s21);
    // The chain acts as one impedance of 87 + 12j ohms.
    assert_eq!(s.den, WideComplex { re: 187, im: -12 });
    assert_eq!(s.s11, WideComplex { re: 87, im: -12 });
}

#[test]
fn corrected_laws_regression() {
    // R1 = 75 ohm, L1 = 5 nH and C1 = 1 pF at 2 GHz, z0 = 50 ohm, with the
    // inductor as j*w*L and the capacitor as -j/(w*C); unit: one nano-ohm.
    let w = 2.0 * std::f64::consts::PI * 2e9;
    let nano = |ohms: f64| (ohms * 1e9).round() as i64;
    let zs = vec![c(nano(75.0), 0), c(0, nano(w * 5e-9)), c(0, nano(-1.0 / (w * 1e-12)))];
    let s = analyze(&zs, nano(50.0)).unwrap();
    let (re, im) = ratio(s.s21, s.den);
    let (want_re, want_im) = (0.5662437984432737_f64, 0.05418344349763183_f64);
    let err = ((re - want_re).powi(2) + (im - want_im).powi(2)).sqrt();
    let size = (want_re * want_re + want_im * want_im).sqrt();
    assert!(err / size < 1e-9, "S21 = {} + {}j", re, im);
    assert_eq!(s.s12, s.s21);
}

#[test]
fn singular_network_detected() {
    let m = AbcdMatrix::new(c(1, 0), c(0, 0), c(0, 0), c(-1, 0));
    assert_eq!(to_s_parameters(&m, 50), Err(NetworkError::SingularNetwork));
    let m = AbcdMatrix::new(c(1, 0), c(-50, 0), c(0, 0), c(0, 0));
    assert_eq!(to_s_parameters(&m, 50), Err(NetworkError::SingularNetwork));
}

#[test]
fn reference_impedance_must_be_positive() {
    let m = to_abcd(c(75, 0));
    assert_eq!(
        to_s_parameters(&m, 0),
        Err(NetworkError::InvalidReferenceImpedance { z0: 0 })
    );
    assert_eq!(
        to_s_parameters(&m, -50),
        Err(NetworkError::InvalidReferenceImpedance { z0: -50 })
    );
    assert_eq!(
        analyze(&vec![c(75, 0)], -50),
        Err(NetworkError::InvalidReferenceImpedance { z0: -50 })
    );
}

#[test]
fn conversion_overflow() {
    let m = AbcdMatrix::new(c(1, 0), c(0, 0), c(i64::MAX, 0), c(1, 0));
    assert_eq!(to_s_parameters(&m, i64::MAX), Err(NetworkError::Overflow));
}

#[test]
fn general_matrix_conversion() {
    // A = 1, B = 2, C = 3, D = 4 against z0 = 5:
    // den = 5 + 20 + 2 + 75 = 102, s11 = 5 - 20 + 2 - 75 = -88,
    // s12 = 10 * (4 - 6) = -20, s21 = 10, s22 = -5 + 20 + 2 - 75 = -58.
    let m = AbcdMatrix::new(c(1, 0), c(2, 0), c(3, 0), c(4, 0));
    let s = to_s_parameters(&m, 5).unwrap();
    assert_eq!(s.den, WideComplex { re: 102, im: 0 });
    assert_eq!(s.s11, WideComplex { re: -88, im: 0 });
    assert_eq!(s.s12, WideComplex { re: -20, im: 0 });
    assert_eq!(s.s21, WideComplex { re: 10, im: 0 });
    assert_eq!(s.s22, WideComplex { re: -58, im: 0 });
}
