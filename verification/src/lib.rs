//! A generational evolutionary optimiser over a bounded two-dimensional
//! search space, with strict elitism and a mutation magnitude that adapts to
//! stagnation.
//!
//! The crate holds every decision of the optimiser: ordering and clamping of
//! coordinates, which individuals are replaced, which record is the best, and
//! when and in which direction the mutation magnitude moves. Numbers are
//! carried as IEEE 754 binary64 bit patterns; the arithmetic on them (the
//! objective function, averaging of parents, random perturbation, scaling by
//! the change rate) is done by the caller, who is told by [`Action`] what to
//! compute and hands the results back.

pub mod best;
pub mod binary64;
pub mod controller;
pub mod evolution;
pub mod individual;
pub mod laws;

pub use crate::best::BestRecord;
pub use crate::binary64::Binary64;
pub use crate::controller::MutationController;
pub use crate::evolution::{
    validate_configuration, Action, EvolutionLoop, InvalidConfiguration, Phase, Report, StepError,
};
pub use crate::individual::{clamp, Individual};
pub use crate::laws::Event;
