//! The error taxonomy of the backend.
//!
//! Every failure is returned to the immediate caller; nothing is retried
//! or recovered locally.

use vstd::prelude::*;

verus! {

/// One failure of the backend, surfaced verbatim to the caller.
#[derive(Debug, Clone, PartialEq, Eq)]
pub enum Error {
    /// The HTTP fetch collaborator could not complete.
    TransportFailure(String),
    /// A registry record failed to decode as the expected shape; the whole
    /// listing operation aborts and nothing is cached.
    DecodeFailure(String),
    /// The constructed registry URL is not well-formed.
    MalformedLocator,
    /// A git-sourced install received a version string matching none of the
    /// recognized forms; the payload names the offending version string.
    InvalidVersionSpec(String),
    /// The backend was invoked without the experimental-feature flag.
    ExperimentalFeatureDisabled,
    /// The delegated external tool exited nonzero; the payload is its
    /// captured diagnostic output.
    ExecutionFailure(String),
}

impl Error {
    /// The description of each failure: the invalid-version error carries a
    /// remediation hint enumerating the accepted forms (`rev:`, `branch:`,
    /// `tag:`, the literal `HEAD`).
    pub open spec fn description_chars(&self) -> Seq<char> {
        match self {
            Error::TransportFailure(_) => "the registry fetch could not complete"@,
            Error::DecodeFailure(_) => "a registry record failed to decode"@,
            Error::MalformedLocator => "the constructed registry URL is not well-formed"@,
            Error::InvalidVersionSpec(_) =>
                "invalid git version: specify \"rev:\", \"branch:\", or \"tag:\", or \"HEAD\""@,
            Error::ExperimentalFeatureDisabled => "the cargo backend requires experimental mode"@,
            Error::ExecutionFailure(_) => "the external package manager exited nonzero"@,
        }
    }

    /// A short human-readable description, for callers that report failures.
    pub fn describe(&self) -> (r: String)
        ensures
            r@ == self.description_chars(),
            r@.len() > 0,
    {
        let msg: &str = match self {
            Error::TransportFailure(_) => "the registry fetch could not complete",
            Error::DecodeFailure(_) => "a registry record failed to decode",
            Error::MalformedLocator => "the constructed registry URL is not well-formed",
            Error::InvalidVersionSpec(_) => {
                "invalid git version: specify \"rev:\", \"branch:\", or \"tag:\", or \"HEAD\""
            },
            Error::ExperimentalFeatureDisabled => "the cargo backend requires experimental mode",
            Error::ExecutionFailure(_) => "the external package manager exited nonzero",
        };
        proof {
            reveal_strlit("the registry fetch could not complete");
            reveal_strlit("a registry record failed to decode");
            reveal_strlit("the constructed registry URL is not well-formed");
            reveal_strlit("invalid git version: specify \"rev:\", \"branch:\", or \"tag:\", or \"HEAD\"");
            reveal_strlit("the cargo backend requires experimental mode");
            reveal_strlit("the external package manager exited nonzero");
        }
        msg.to_owned()
    }
}

} // verus!
