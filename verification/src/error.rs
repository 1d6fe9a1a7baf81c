//! Typed failures, one enum per layer.
//!
//! Every layer reports its own kind of failure: malformed user input
//! (`ParseError`), a deficient local repository (`StateError`), a forge that
//! cannot serve the request (`ForgeError`), and policy violations found while
//! composing the two (`OrchestrationError`). The orchestrator never swallows a
//! lower-layer failure; it only wraps it to say which step failed.

use vstd::prelude::*;

verus! {

/// A malformed target specification: user input error, reported immediately.
#[derive(Debug, Clone, Copy, PartialEq, Eq, Structural)]
pub enum ParseError {
    /// The string has no separator and is not one of the bare kind words.
    InvalidFormat,
    /// The segment before the separator is not a recognized kind word.
    UnknownKind,
}

/// A deficient local repository: environment error, fatal to the invocation.
#[derive(Debug, Clone, Copy, PartialEq, Eq, Structural)]
pub enum StateError {
    /// No git repository is rooted at the current working directory.
    NotAGitRepository,
    /// No configured remote URL could be parsed as a forge URL.
    UnresolvableRemote,
    /// HEAD is unborn or otherwise unresolvable.
    UnresolvableHead,
}

/// A forge that cannot serve the request: external-dependency error.
#[derive(Debug, PartialEq, Eq)]
pub enum ForgeError {
    /// No credential is available for the selected provider.
    NoAuthToken,
    /// The provider is unknown; no operation is ever attempted for it.
    UnsupportedProvider,
    /// The provider is declared but has no implementation yet.
    NotImplemented,
    /// An identifier that must be a decimal number is not one.
    InvalidIdentifier,
    /// The forge reported no pull request associated with the commit.
    NoAssociatedPr,
    /// The network request itself failed; the details come from the caller
    /// that performed it.
    Transport(String),
}

/// A composition-level policy violation, or a wrapped lower-layer failure.
#[derive(Debug, PartialEq, Eq)]
pub enum OrchestrationError {
    /// The remote URL names no owner, which every forge operation needs.
    MissingOwner,
    /// An issue target with an empty identifier: there is no well-defined
    /// "current issue", so no resolution is attempted.
    NoImplicitIssue,
    /// Reading the local repository failed.
    State(StateError),
    /// The forge layer failed.
    Forge(ForgeError),
}

impl ParseError {
    /// What `describe` returns, as a sequence of characters.
    pub open spec fn describe_spec(&self) -> Seq<char> {
        match self {
            ParseError::InvalidFormat => "Invalid format"@,
            ParseError::UnknownKind => "Unknown target"@,
        }
    }

    /// A human-readable description of the failure.
    pub fn describe(&self) -> (r: String)
        ensures
            r@ == self.describe_spec(),
    {
        match self {
            ParseError::InvalidFormat => String::from_str("Invalid format"),
            ParseError::UnknownKind => String::from_str("Unknown target"),
        }
    }
}

impl StateError {
    /// What `describe` returns, as a sequence of characters.
    pub open spec fn describe_spec(&self) -> Seq<char> {
        match self {
            StateError::NotAGitRepository => "No git repository at the current directory"@,
            StateError::UnresolvableRemote => "Couldn't determine git remote"@,
            StateError::UnresolvableHead => "Couldn't determine HEAD sha"@,
        }
    }

    /// A human-readable description of the failure.
    pub fn describe(&self) -> (r: String)
        ensures
            r@ == self.describe_spec(),
    {
        match self {
            StateError::NotAGitRepository => String::from_str(
                "No git repository at the current directory",
            ),
            StateError::UnresolvableRemote => String::from_str("Couldn't determine git remote"),
            StateError::UnresolvableHead => String::from_str("Couldn't determine HEAD sha"),
        }
    }
}

impl ForgeError {
    /// What `describe` returns, as a sequence of characters. Transport
    /// details are reported as handed in by the caller that performed the
    /// request.
    pub open spec fn describe_spec(&self) -> Seq<char> {
        match self {
            ForgeError::NoAuthToken => "No Token Detected."@,
            ForgeError::UnsupportedProvider => "No supported forge provider was selected."@,
            ForgeError::NotImplemented => "This feature has not been implemented yet."@,
            ForgeError::InvalidIdentifier => "The identifier is not a decimal number."@,
            ForgeError::NoAssociatedPr => "No pull request is associated with the commit."@,
            ForgeError::Transport(d) => d@,
        }
    }

    /// A human-readable description of the failure.
    pub fn describe(&self) -> (r: String)
        ensures
            r@ == self.describe_spec(),
    {
        match self {
            ForgeError::NoAuthToken => String::from_str("No Token Detected."),
            ForgeError::UnsupportedProvider => String::from_str(
                "No supported forge provider was selected.",
            ),
            ForgeError::NotImplemented => String::from_str(
                "This feature has not been implemented yet.",
            ),
            ForgeError::InvalidIdentifier => String::from_str(
                "The identifier is not a decimal number.",
            ),
            ForgeError::NoAssociatedPr => String::from_str(
                "No pull request is associated with the commit.",
            ),
            ForgeError::Transport(d) => d.clone(),
        }
    }
}

impl OrchestrationError {
    /// What `describe` returns, as a sequence of characters.
    pub open spec fn describe_spec(&self) -> Seq<char> {
        match self {
            OrchestrationError::MissingOwner => "The git remote names no owner"@,
            OrchestrationError::NoImplicitIssue => "An issue target needs an explicit identifier"@,
            OrchestrationError::State(e) => "While reading the repository: "@ + e.describe_spec(),
            OrchestrationError::Forge(e) => "While talking to the forge: "@ + e.describe_spec(),
        }
    }

    /// A human-readable description of the failure, naming the step at which
    /// a wrapped lower-layer failure arose.
    pub fn describe(&self) -> (r: String)
        ensures
            r@ == self.describe_spec(),
    {
        match self {
            OrchestrationError::MissingOwner => String::from_str("The git remote names no owner"),
            OrchestrationError::NoImplicitIssue => String::from_str(
                "An issue target needs an explicit identifier",
            ),
            OrchestrationError::State(e) => {
                let mut out = String::from_str("While reading the repository: ");
                let tail = e.describe();
                out.append(tail.as_str());
                out
            },
            OrchestrationError::Forge(e) => {
                let mut out = String::from_str("While talking to the forge: ");
                let tail = e.describe();
                out.append(tail.as_str());
                out
            },
        }
    }
}

} // verus!
