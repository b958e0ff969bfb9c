use vstd::prelude::*;

pub mod table;
pub mod user;

verus! {

/// The kinds of repository failure that the services tell apart.
#[derive(PartialEq, Eq, Structural, Clone, Copy, Debug)]
pub enum RepoErrorKind {
    /// A uniqueness constraint refused a row: the email or the id is taken.
    ConstraintViolation,
    /// Anything else: a lost connection, a failed query.
    Unavailable,
}

/// A failure of the repository.
#[derive(Debug)]
pub struct RepoError {
    pub kind: RepoErrorKind,
    /// What the repository said, for the log.
    pub detail: String,
}

} // verus!
