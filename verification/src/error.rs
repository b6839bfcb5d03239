//! What can go wrong inside the generator.

use vstd::prelude::*;
use vstd::string::StringExecFns;

verus! {

/// The failures of the library's own functions.
#[derive(Debug, Clone, Copy, PartialEq, Eq, Structural)]
pub enum GeneratorError {
    /// A seed or a public key was not exactly 32 bytes long.
    InvalidLength,
    /// A search used up its whole budget of candidates without a match.
    SearchExhausted,
    /// The operating system could not supply random bytes for a key.
    RandomSource,
    /// The search was told to stop before it found a match.
    Stopped,
}

impl GeneratorError {
    /// A line of text for logs.
    pub fn message(&self) -> (text: String)
        ensures
            text@ == match *self {
                GeneratorError::InvalidLength => "key must be 32 bytes"@,
                GeneratorError::SearchExhausted => "no candidate matched any prefix"@,
                GeneratorError::RandomSource => "the system supplied no random bytes"@,
                GeneratorError::Stopped => "the search was stopped"@,
            },
    {
        match self {
            GeneratorError::InvalidLength => String::from_str("key must be 32 bytes"),
            GeneratorError::SearchExhausted => String::from_str("no candidate matched any prefix"),
            GeneratorError::RandomSource => String::from_str("the system supplied no random bytes"),
            GeneratorError::Stopped => String::from_str("the search was stopped"),
        }
    }
}

} // verus!
