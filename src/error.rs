use vstd::prelude::*;

verus! {

/// Why an analysis step produced no result.
#[derive(Clone, Copy, Debug, PartialEq, Eq, Structural)]
pub enum NetworkError {
    /// A cascade was asked of zero components.
    EmptyNetwork,
    /// The reference impedance was zero or negative; it is carried back.
    InvalidReferenceImpedance { z0: i64 },
    /// The ABCD-to-S denominator is zero: the S-parameters are undefined.
    SingularNetwork,
    /// An exact intermediate value does not fit in the machine integers.
    Overflow,
}

} // verus!
