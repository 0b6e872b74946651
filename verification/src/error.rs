//! The ways in which a token list can be rejected.

use vstd::prelude::*;

verus! {

/// Why a token list could not be turned into a configuration.
#[derive(Clone, Copy, Debug, PartialEq, Eq, Structural)]
pub enum ConfigError {
    /// The list held fewer tokens than a program name, a query and a file path.
    InsufficientArguments,
}

impl ConfigError {
    /// The text that `message` returns for this error.
    pub open spec fn spec_message(self) -> Seq<char> {
        match self {
            ConfigError::InsufficientArguments => "not enough arguments"@,
        }
    }

    /// A fixed, human-readable line that describes the error.
    pub fn message(&self) -> (text: &'static str)
        ensures
            text@ == self.spec_message(),
    {
        match self {
            ConfigError::InsufficientArguments => "not enough arguments",
        }
    }
}

} // verus!
