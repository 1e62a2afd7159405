//! Errors of the frequency-drift forecast models.
use vstd::prelude::*;

use crate::text::{decimal, decimal_text};

verus! {

/// Why a forecast model could not fit or predict.
#[derive(Clone, Copy, Debug, PartialEq, Eq, Structural)]
pub enum ModelError {
    /// The history is shorter than the model needs.
    InsufficientData { required: usize, got: usize },
    /// `predict` was called before a successful `fit`.
    NotFitted,
    /// The fit met a degenerate history (zero time span or an unusable curve).
    NumericalInstability,
}

/// The message of a model error.
pub open spec fn model_error_text(e: ModelError) -> Seq<char> {
    match e {
        ModelError::InsufficientData { required, got } => "Need "@ + decimal_text(required as nat)
            + " observations, got "@ + decimal_text(got as nat),
        ModelError::NotFitted => "Model not fitted yet"@,
        ModelError::NumericalInstability => "Numerical instability in fit"@,
    }
}

impl ModelError {
    /// The message of this error (see [`model_error_text`]).
    pub fn display_text(&self) -> (s: String)
        ensures
            s@ == model_error_text(*self),
    {
        match self {
            ModelError::InsufficientData { required, got } => {
                let mut s = String::from_str("Need ");
                s.append(decimal(*required as u64).as_str());
                s.append(" observations, got ");
                s.append(decimal(*got as u64).as_str());
                s
            },
            ModelError::NotFitted => String::from_str("Model not fitted yet"),
            ModelError::NumericalInstability => String::from_str("Numerical instability in fit"),
        }
    }
}

} // verus!
