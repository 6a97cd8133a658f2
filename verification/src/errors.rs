//! The tool's error: the description of what went wrong.

use vstd::prelude::*;

verus! {

/// An error of the tool, known by its description.
#[derive(Debug)]
pub struct CrefError {
    pub description: String,
}

/// A result whose error is a [`CrefError`].
pub type CrefResult<T> = Result<T, CrefError>;

impl CrefError {
    /// The error with the description of an underlying error.
    pub fn from_error(description: String) -> (e: CrefError)
        ensures
            e.description@ == description@,
    {
        CrefError { description }
    }

    /// What went wrong.
    pub fn description(&self) -> (d: &str)
        ensures
            d@ == self.description@,
    {
        self.description.as_str()
    }
}

} // verus!
