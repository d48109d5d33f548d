// S-parameters of a cascade of series two-port elements, computed exactly.
//
// Complex values have integer parts: impedances and the reference impedance
// are whole multiples of one unit that the caller picks, and the resulting
// scattering matrix is returned as exact fractions over a common
// denominator.

pub mod abcd;
pub mod complex;
pub mod error;
pub mod network;
pub mod sparam;
