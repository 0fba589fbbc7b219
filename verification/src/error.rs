//! The failures that the library reports.

use vstd::prelude::*;

verus! {

/// Why a hyperparameter tuple `(m, r, s, v)` is not admissible.
#[derive(Clone, Copy, PartialEq, Eq, Structural, Debug)]
pub enum ParameterFault {
    /// `m` is infinite or NaN.
    MNotFinite,
    /// `r` is infinite or NaN.
    RNotFinite,
    /// `s` is infinite or NaN.
    SNotFinite,
    /// `v` is infinite or NaN.
    VNotFinite,
    /// `r` is zero or negative.
    RTooLow,
    /// `s` is zero or negative.
    STooLow,
    /// `v` is zero or negative.
    VTooLow,
}

/// A failure, detected before any computation proceeds.
#[derive(Clone, Copy, PartialEq, Eq, Structural, Debug)]
pub enum Error {
    /// A hyperparameter was rejected when a detector was constructed.
    InvalidParameter(ParameterFault),
    /// An inference was asked for on no rows, or with a sample count of zero.
    EmptyInput,
}

} // verus!
