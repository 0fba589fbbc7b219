//! The decision that precedes a retrospective changepoint inference.
//!
//! An inference walks a run-length matrix (one row per observation) from its
//! last row back to its first, once for every Monte Carlo draw. With no row
//! there is nowhere to start, and with no draw there is nothing to average:
//! both are refused before any sampling is done.

use vstd::prelude::*;
use crate::error::Error;

verus! {

/// Whether an inference over `rows` rows with `sample_size` draws is refused.
pub open spec fn is_empty_input(rows: nat, sample_size: nat) -> bool {
    rows == 0 || sample_size == 0
}

/// Decides whether a Monte Carlo inference may run, and with how many draws.
///
/// `rows` is the number of rows of the run-length matrix and `sample_size`
/// the number of draws asked for. The inference is refused with
/// [`Error::EmptyInput`] exactly when either is zero; otherwise the number of
/// draws is returned as it was given.
pub fn sample_count(rows: usize, sample_size: u32) -> (res: Result<usize, Error>)
    ensures
        res is Err <==> is_empty_input(rows as nat, sample_size as nat),
        res matches Err(e) ==> e == Error::EmptyInput,
        res matches Ok(draws) ==> draws == sample_size,
{
    if rows == 0 || sample_size == 0 {
        Err(Error::EmptyInput)
    } else {
        Ok(sample_size as usize)
    }
}

} // verus!
