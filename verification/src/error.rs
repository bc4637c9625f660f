//! The ways in which a request to the task list is turned down.

use vstd::prelude::*;

verus! {

/// Why a request was not carried out.
#[derive(Clone, Copy, Debug, PartialEq, Eq, Structural)]
pub enum Error {
    /// The user's data directory cannot be determined.
    Config,
    /// The task holds a newline character.
    Validation,
    /// A task and the clear flag were given together.
    Usage,
}

/// An answer as a mathematical value: what was returned, by its view, or
/// the error.
pub open spec fn outcome<T: View>(answer: Result<T, Error>) -> Result<T::V, Error> {
    match answer {
        Ok(value) => Ok(value@),
        Err(error) => Err(error),
    }
}

impl Error {
    /// The message shown for this error.
    pub open spec fn text(self) -> Seq<char> {
        match self {
            Error::Config => "Data directory is not available or OS is unknown."@,
            Error::Validation => "task body should be single-line."@,
            Error::Usage => "Cannot clear and print tasks simultaneously."@,
        }
    }

    /// Whether the error is reported to the user and the run still ends
    /// well. The others end the run with a failure.
    pub open spec fn soft(self) -> bool {
        self != Error::Config
    }

    /// The message shown for this error.
    pub fn message(&self) -> (out: &'static str)
        ensures
            out@ == self.text(),
    {
        match self {
            Error::Config => "Data directory is not available or OS is unknown.",
            Error::Validation => "task body should be single-line.",
            Error::Usage => "Cannot clear and print tasks simultaneously.",
        }
    }

    /// Tells whether the error is soft.
    pub fn is_soft(&self) -> (out: bool)
        ensures
            out == self.soft(),
    {
        match self {
            Error::Config => false,
            Error::Validation => true,
            Error::Usage => true,
        }
    }
}

} // verus!
