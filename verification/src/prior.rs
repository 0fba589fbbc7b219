//! Hyperparameters of the Normal-Gamma prior over a Gaussian likelihood.
//!
//! Given `x ~ N(mu, sigma)`, the prior says `mu ~ N(m, 1 / (r * rho))` and
//! `rho ~ Gamma(v / 2, s / 2)`. A tuple is admissible when all four numbers
//! are finite and `r`, `s` and `v` are greater than zero.

use vstd::prelude::*;
use crate::double::{Double, ONE, ZERO};
use crate::error::{Error, ParameterFault};

verus! {

/// The first reason, if any, for which `(m, r, s, v)` is rejected.
///
/// Finiteness is examined first, for `m`, `r`, `s` and `v` in this order; the
/// signs of `r`, `s` and `v` are examined after that.
pub open spec fn fault_of(m: Double, r: Double, s: Double, v: Double) -> Option<ParameterFault> {
    if !m.is_finite() {
        Some(ParameterFault::MNotFinite)
    } else if !r.is_finite() {
        Some(ParameterFault::RNotFinite)
    } else if !s.is_finite() {
        Some(ParameterFault::SNotFinite)
    } else if !v.is_finite() {
        Some(ParameterFault::VNotFinite)
    } else if r.is_non_positive() {
        Some(ParameterFault::RTooLow)
    } else if s.is_non_positive() {
        Some(ParameterFault::STooLow)
    } else if v.is_non_positive() {
        Some(ParameterFault::VTooLow)
    } else {
        None
    }
}

/// All four numbers are finite, and `r`, `s` and `v` are greater than zero.
pub open spec fn admissible(m: Double, r: Double, s: Double, v: Double) -> bool {
    &&& m.is_finite()
    &&& r.is_finite() && r.is_positive()
    &&& s.is_finite() && s.is_positive()
    &&& v.is_finite() && v.is_positive()
}

/// A tuple has a fault exactly when it is not admissible. In particular a
/// zero among `r`, `s` and `v` is always a fault, and finite numbers with
/// `r`, `s` and `v` greater than zero never have one, whatever `m` is.
pub proof fn lemma_fault_iff_not_admissible(m: Double, r: Double, s: Double, v: Double)
    ensures
        fault_of(m, r, s, v) is None <==> admissible(m, r, s, v),
        r.is_zero() || s.is_zero() || v.is_zero() ==> fault_of(m, r, s, v) is Some,
        m.is_finite() && r.is_finite() && s.is_finite() && v.is_finite() && r.is_positive()
            && s.is_positive() && v.is_positive() ==> fault_of(m, r, s, v) is None,
{
}

/// The numbers zero and one are finite, and one is greater than zero.
proof fn lemma_one_is_finite_and_positive()
    ensures
        (Double { bits: ZERO }).is_finite(),
        (Double { bits: ONE }).is_finite(),
        (Double { bits: ONE }).is_positive(),
{
    assert((0x3FF0_0000_0000_0000u64 / 0x10_0000_0000_0000) % 0x800 == 0x3FF) by (bit_vector);
    assert(0x3FF0_0000_0000_0000u64 / 0x8000_0000_0000_0000 == 0) by (bit_vector);
    assert(0x3FF0_0000_0000_0000u64 % 0x10_0000_0000_0000 == 0) by (bit_vector);
}

/// An admissible hyperparameter tuple.
#[derive(Clone, Copy, PartialEq, Eq, Structural, Debug)]
pub struct NormalGammaPrior {
    m: Double,
    r: Double,
    s: Double,
    v: Double,
}

impl NormalGammaPrior {
    /// The prior mean.
    pub closed spec fn spec_m(self) -> Double {
        self.m
    }

    /// The relative precision of the mean versus the data.
    pub closed spec fn spec_r(self) -> Double {
        self.r
    }

    /// The scale: the mean of the precision is `v / s`.
    pub closed spec fn spec_s(self) -> Double {
        self.s
    }

    /// The degrees of freedom of the precision.
    pub closed spec fn spec_v(self) -> Double {
        self.v
    }

    /// The invariant of the type: the tuple is admissible.
    pub open spec fn wf(self) -> bool {
        admissible(self.spec_m(), self.spec_r(), self.spec_s(), self.spec_v())
    }

    /// Validates a hyperparameter tuple.
    ///
    /// Succeeds exactly on the admissible tuples and keeps the four numbers
    /// as given; otherwise fails with [`Error::InvalidParameter`] and the
    /// first fault of the tuple.
    pub fn new(m: Double, r: Double, s: Double, v: Double) -> (res: Result<NormalGammaPrior, Error>)
        ensures
            res is Ok <==> admissible(m, r, s, v),
            res matches Ok(p) ==> p.wf() && p.spec_m() == m && p.spec_r() == r && p.spec_s() == s
                && p.spec_v() == v,
            res matches Err(e) ==> (fault_of(m, r, s, v) matches Some(fault) && e
                == Error::InvalidParameter(fault)),
    {
        if !m.is_finite() {
            Err(Error::InvalidParameter(ParameterFault::MNotFinite))
        } else if !r.is_finite() {
            Err(Error::InvalidParameter(ParameterFault::RNotFinite))
        } else if !s.is_finite() {
            Err(Error::InvalidParameter(ParameterFault::SNotFinite))
        } else if !v.is_finite() {
            Err(Error::InvalidParameter(ParameterFault::VNotFinite))
        } else if r.is_non_positive() {
            Err(Error::InvalidParameter(ParameterFault::RTooLow))
        } else if s.is_non_positive() {
            Err(Error::InvalidParameter(ParameterFault::STooLow))
        } else if v.is_non_positive() {
            Err(Error::InvalidParameter(ParameterFault::VTooLow))
        } else {
            Ok(NormalGammaPrior { m, r, s, v })
        }
    }

    /// The prior used where none is given: mean `0`, with `r`, `s` and `v`
    /// all `1`.
    pub fn standard() -> (p: NormalGammaPrior)
        ensures
            p.wf(),
            p.spec_m().bits == ZERO,
            p.spec_r().bits == ONE,
            p.spec_s().bits == ONE,
            p.spec_v().bits == ONE,
    {
        proof {
            lemma_one_is_finite_and_positive();
        }
        NormalGammaPrior {
            m: Double::from_bits(ZERO),
            r: Double::from_bits(ONE),
            s: Double::from_bits(ONE),
            v: Double::from_bits(ONE),
        }
    }

    /// The prior mean.
    pub fn m(&self) -> (d: Double)
        ensures
            d == self.spec_m(),
    {
        self.m
    }

    /// The relative precision of the mean versus the data.
    pub fn r(&self) -> (d: Double)
        ensures
            d == self.spec_r(),
    {
        self.r
    }

    /// The scale.
    pub fn s(&self) -> (d: Double)
        ensures
            d == self.spec_s(),
    {
        self.s
    }

    /// The degrees of freedom.
    pub fn v(&self) -> (d: Double)
        ensures
            d == self.spec_v(),
    {
        self.v
    }
}

} // verus!
