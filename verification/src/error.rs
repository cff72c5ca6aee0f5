//! The error taxonomy shared by all components.

use vstd::prelude::*;

verus! {

/// What can go wrong, by origin. Each variant carries the text that the
/// failing component reported.
#[derive(Debug)]
pub enum Error {
    /// The configuration could not be loaded, parsed or validated.
    Config(String),
    /// A caller handed in something unusable.
    InvalidInput(String),
    /// No repository with that name is registered.
    RepoNotFound(String),
    /// No job with that identifier exists.
    JobNotFound(u128),
    /// The text names no known prover.
    InvalidProver(String),
    /// The platform lacks the capability.
    Unsupported(String),
    /// A network request failed.
    Http(String),
    /// The durable store failed.
    Sqlx(String),
    /// Local input or output failed.
    Io(String),
    /// Bitbucket's API answered with an error; status and body.
    Bitbucket(String),
    /// GitLab's API answered with an error; status and body.
    GitLab(String),
    /// GitHub's API answered with an error; status and body.
    GitHub(String),
    /// The verification service answered with an error.
    Echidna(String),
    /// An internal invariant was broken.
    Internal(String),
}

impl Error {
    /// The text that the error carries; for `JobNotFound`, the empty text.
    pub open spec fn text(self) -> Seq<char> {
        match self {
            Error::Config(m) => m@,
            Error::InvalidInput(m) => m@,
            Error::RepoNotFound(m) => m@,
            Error::JobNotFound(_) => Seq::empty(),
            Error::InvalidProver(m) => m@,
            Error::Unsupported(m) => m@,
            Error::Http(m) => m@,
            Error::Sqlx(m) => m@,
            Error::Io(m) => m@,
            Error::Bitbucket(m) => m@,
            Error::GitLab(m) => m@,
            Error::GitHub(m) => m@,
            Error::Echidna(m) => m@,
            Error::Internal(m) => m@,
        }
    }

    /// The text that the error carries.
    pub fn message(&self) -> (r: String)
        ensures
            r@ == self.text(),
    {
        match self {
            Error::Config(m) => m.clone(),
            Error::InvalidInput(m) => m.clone(),
            Error::RepoNotFound(m) => m.clone(),
            Error::JobNotFound(_) => String::new(),
            Error::InvalidProver(m) => m.clone(),
            Error::Unsupported(m) => m.clone(),
            Error::Http(m) => m.clone(),
            Error::Sqlx(m) => m.clone(),
            Error::Io(m) => m.clone(),
            Error::Bitbucket(m) => m.clone(),
            Error::GitLab(m) => m.clone(),
            Error::GitHub(m) => m.clone(),
            Error::Echidna(m) => m.clone(),
            Error::Internal(m) => m.clone(),
        }
    }
}

} // verus!
