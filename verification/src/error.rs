//! The library's error type. Failures that close a single session are not
//! errors of this type; they are close reasons owned by the session module.

use vstd::prelude::*;

verus! {

/// An error of the service itself, scoped to startup and the edges:
/// a missing environment value, a failed read of a secret, a failed
/// serialization, or a rejected configuration value.
#[derive(Debug)]
pub enum AppError {
    Environment(String),
    Io(String),
    Json(String),
    Config(String),
}

/// The human-readable text carried by an error.
pub open spec fn spec_message(e: AppError) -> Seq<char> {
    match e {
        AppError::Environment(m) => m@,
        AppError::Io(m) => m@,
        AppError::Json(m) => m@,
        AppError::Config(m) => m@,
    }
}

impl AppError {
    /// The text carried by this error.
    pub fn message(&self) -> (s: String)
        ensures
            s@ == spec_message(*self),
    {
        match self {
            AppError::Environment(m) => m.clone(),
            AppError::Io(m) => m.clone(),
            AppError::Json(m) => m.clone(),
            AppError::Config(m) => m.clone(),
        }
    }
}

} // verus!
