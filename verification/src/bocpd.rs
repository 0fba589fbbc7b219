//! The run-length bookkeeping of a Bayesian online changepoint detector.
//!
//! A detector is either fresh (nothing observed since it was made or last
//! reset) or streaming. Each observation adds one run-length hypothesis, so
//! the run-length distribution that the `n`-th observation yields has `n`
//! entries. The distribution itself is computed outside this crate; what is
//! kept here is the configuration and the count.

use vstd::prelude::*;
use crate::double::Double;
use crate::error::Error;
use crate::prior::{admissible, fault_of, NormalGammaPrior};

verus! {

/// What a detector is, as far as this crate decides it.
pub struct DetectorState {
    /// The expected run length; a changepoint has prior probability
    /// `1 / lambda` at every step.
    pub lambda: Double,
    /// The prior that every new run starts from.
    pub prior: NormalGammaPrior,
    /// The number of observations since construction or the last reset.
    pub observed: nat,
}

impl DetectorState {
    /// The state before any observation.
    pub open spec fn fresh(lambda: Double, prior: NormalGammaPrior) -> DetectorState {
        DetectorState { lambda, prior, observed: 0 }
    }

    /// The state after one more observation.
    pub open spec fn step(self) -> DetectorState {
        DetectorState { observed: self.observed + 1, ..self }
    }

    /// The state after `n` more observations.
    pub open spec fn steps(self, n: nat) -> DetectorState
        decreases n,
    {
        if n == 0 {
            self
        } else {
            self.steps((n - 1) as nat).step()
        }
    }

    /// The state after a reset.
    pub open spec fn reset(self) -> DetectorState {
        DetectorState::fresh(self.lambda, self.prior)
    }

    /// The length of the run-length distribution that the latest observation
    /// yielded.
    pub open spec fn row_len(self) -> nat {
        self.observed
    }
}

/// Row lengths grow by exactly one with each observation: the `n`-th
/// observation after a fresh start yields a run-length distribution of `n`
/// entries. The configuration stays as it was.
pub proof fn lemma_row_len_after_steps(lambda: Double, prior: NormalGammaPrior, n: nat)
    ensures
        DetectorState::fresh(lambda, prior).steps(n).row_len() == n,
        DetectorState::fresh(lambda, prior).steps(n).step().row_len() == n + 1,
        DetectorState::fresh(lambda, prior).steps(n).lambda == lambda,
        DetectorState::fresh(lambda, prior).steps(n).prior == prior,
    decreases n,
{
    if n > 0 {
        lemma_row_len_after_steps(lambda, prior, (n - 1) as nat);
    }
}

/// A reset after any number of observations gives the state of a detector
/// just made with the same configuration, so whatever is observed after it
/// is counted as for a new detector.
pub proof fn lemma_reset_is_fresh(lambda: Double, prior: NormalGammaPrior, before: nat, after: nat)
    ensures
        DetectorState::fresh(lambda, prior).steps(before).reset() == DetectorState::fresh(
            lambda,
            prior,
        ),
        DetectorState::fresh(lambda, prior).steps(before).reset().steps(after)
            == DetectorState::fresh(lambda, prior).steps(after),
{
    lemma_row_len_after_steps(lambda, prior, before);
}

/// Bookkeeping of an online Bayesian changepoint detector with a
/// Normal-Gamma prior with parameters `m`, `r`, `s` and `v`.
#[derive(Clone, Copy, Debug)]
pub struct BocpdNg {
    lambda: Double,
    prior: NormalGammaPrior,
    observed: usize,
}

impl View for BocpdNg {
    type V = DetectorState;

    closed spec fn view(&self) -> DetectorState {
        DetectorState { lambda: self.lambda, prior: self.prior, observed: self.observed as nat }
    }
}

impl BocpdNg {
    /// Makes a detector with expected run length `lambda` and the prior
    /// `(m, r, s, v)`.
    ///
    /// Succeeds exactly when the prior is admissible, and then gives a fresh
    /// detector with this configuration. Otherwise nothing is made and the
    /// first fault of the prior is reported. `lambda` is taken as it is.
    pub fn new(lambda: Double, m: Double, r: Double, s: Double, v: Double) -> (res: Result<
        BocpdNg,
        Error,
    >)
        ensures
            res is Ok <==> admissible(m, r, s, v),
            res matches Ok(cpd) ==> cpd@ == DetectorState::fresh(lambda, cpd@.prior)
                && cpd@.prior.wf() && cpd@.prior.spec_m() == m && cpd@.prior.spec_r() == r
                && cpd@.prior.spec_s() == s && cpd@.prior.spec_v() == v,
            res matches Err(e) ==> (fault_of(m, r, s, v) matches Some(fault) && e
                == Error::InvalidParameter(fault)),
    {
        match NormalGammaPrior::new(m, r, s, v) {
            Ok(prior) => Ok(BocpdNg { lambda, prior, observed: 0 }),
            Err(e) => Err(e),
        }
    }

    /// Forgets every observation: the detector is fresh again, with the
    /// configuration it was made with.
    pub fn reset(&mut self)
        ensures
            final(self)@ == old(self)@.reset(),
    {
        self.observed = 0;
    }

    /// Counts one observation and returns the length of the run-length
    /// distribution that this observation yields.
    pub fn step(&mut self) -> (row_len: usize)
        requires
            old(self)@.observed < usize::MAX,
        ensures
            final(self)@ == old(self)@.step(),
            row_len == final(self)@.row_len(),
    {
        self.observed = self.observed + 1;
        self.observed
    }

    /// The number of observations since construction or the last reset.
    pub fn observed(&self) -> (n: usize)
        ensures
            n == self@.observed,
    {
        self.observed
    }

    /// The expected run length that the detector was made with.
    pub fn lambda(&self) -> (lambda: Double)
        ensures
            lambda == self@.lambda,
    {
        self.lambda
    }

    /// The prior that the detector was made with.
    pub fn prior(&self) -> (prior: NormalGammaPrior)
        ensures
            prior == self@.prior,
    {
        self.prior
    }
}

} // verus!
