//! Failure taxonomy of the engine.
//!
//! Every failure is raised synchronously at the point of detection and
//! surfaced to the caller; nothing is retried or silently extrapolated.

use vstd::prelude::*;

verus! {

/// The ways a calculation can be refused.
#[derive(Clone, Copy, Debug, PartialEq, Eq, Structural)]
pub enum CalculationError {
    /// A fluid-property lookup or correlation received an input outside its
    /// documented validity range.
    OutOfRange,
    /// A whole-network step was requested while some entity still has an
    /// unset inlet or outlet neighbor.
    UnconnectedEntity,
    /// An input that is physically impossible, such as a log-mean
    /// temperature difference where a hot-fluid sample is not warmer than
    /// its paired cold-fluid sample.
    PhysicallyInvalidInput,
}

impl CalculationError {
    /// Short human-readable description of the error.
    pub fn describe(&self) -> (r: String)
        ensures
            r@.len() > 0,
    {
        match self {
            CalculationError::OutOfRange => {
                let s: String = "input outside the valid correlation range".to_string();
                proof {
                    reveal_strlit("input outside the valid correlation range");
                }
                s
            },
            CalculationError::UnconnectedEntity => {
                let s: String = "an entity has an unset neighbor".to_string();
                proof {
                    reveal_strlit("an entity has an unset neighbor");
                }
                s
            },
            CalculationError::PhysicallyInvalidInput => {
                let s: String = "physically invalid input".to_string();
                proof {
                    reveal_strlit("physically invalid input");
                }
                s
            },
        }
    }
}

} // verus!
