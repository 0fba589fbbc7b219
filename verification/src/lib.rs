//! Verified decisions of a Bayesian online changepoint detector with a
//! Normal-Gamma prior.
//!
//! The numerical work of the detector (predictive densities, posterior
//! updates, Monte Carlo sampling) is floating-point arithmetic and lives
//! outside this crate. What is decided on integers lives here: whether a set
//! of hyperparameters is admissible, how the detector's run-length bookkeeping
//! evolves, and whether a retrospective inference may run at all.
//!
//! Real numbers cross the boundary as IEEE-754 binary64 bit patterns, see
//! [`double::Double`].

pub mod double;
pub mod error;
pub mod prior;
pub mod bocpd;
pub mod inference;
