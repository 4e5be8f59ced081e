//! The errors of the supervisor.

use vstd::prelude::*;
use vstd::string::*;

verus! {

/// What can go wrong while a service is supervised.
#[derive(Debug, PartialEq, Eq)]
pub enum SmError {
    /// A pipe or process operation failed; holds the system's description.
    Io(String),
    /// The child could not be spawned; holds the system's description.
    FailedToStartChild(String),
    /// The lock around a run state was poisoned.
    MutexPoisoned,
    /// The output channel did not take the description of a failed spawn.
    FailedToSendStdio,
    /// Something that the supervisor's own invariants rule out has happened.
    Bug(&'static str),
}

pub type SmResult = Result<(), SmError>;

impl SmError {
    /// The text shown for the error.
    pub open spec fn message(self) -> Seq<char> {
        match self {
            SmError::Io(description) => description@,
            SmError::FailedToStartChild(description) => "Failed to start child process: "@
                + description@,
            SmError::MutexPoisoned => "Mutex was poisoned. This is a bug."@,
            SmError::FailedToSendStdio => "Failed to send stdio to display thread. This is a bug."@,
            SmError::Bug(what) => what@ + ". This is a bug."@,
        }
    }

    /// The error as text.
    pub fn to_string(&self) -> (text: String)
        ensures
            text@ == self.message(),
    {
        match self {
            SmError::Io(description) => description.clone(),
            SmError::FailedToStartChild(description) => String::from_str(
                "Failed to start child process: ",
            ).concat(description.as_str()),
            SmError::MutexPoisoned => String::from_str("Mutex was poisoned. This is a bug."),
            SmError::FailedToSendStdio => String::from_str(
                "Failed to send stdio to display thread. This is a bug.",
            ),
            SmError::Bug(what) => String::from_str(what).concat(". This is a bug."),
        }
    }
}

} // verus!
