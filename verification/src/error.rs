//! Why a negotiation step produced no credential.

use vstd::prelude::*;

verus! {

/// `git2::Error` is the error type of libgit2: a code, a class and a
/// message. Nothing inside it is visible to the proofs.
#[verifier::external_type_specification]
#[verifier::external_body]
pub struct ExGitError(git2::Error);

/// The error that `git2::Error::from_str` builds from `message`. It has no
/// definition: it only gives that error a name.
pub uninterp spec fn git_error_with_message(message: Seq<char>) -> git2::Error;

/// Assumed of `git2::Error::from_str`: the error it returns depends on the
/// message alone. The function fills in the generic code, no class, and the
/// message as given.
pub assume_specification[ git2::Error::from_str ](s: &str) -> (e: git2::Error)
    ensures
        e == git_error_with_message(s@),
;

/// A negotiation step that ended without a credential.
///
/// Every variant is final for the call that returned it: the handler never
/// retries by itself. The transport may call again with other kinds.
#[derive(Debug, PartialEq)]
pub enum AuthError {
    /// A user name was asked for and the queue of user names is empty.
    UsernamesExhausted,
    /// An SSH trial was asked for and the queue of SSH methods is empty.
    SshExhausted,
    /// The SSH agent was to be tried but the transport gave no user name.
    MissingUsername,
    /// The SSH method at the front of the queue cannot produce credentials.
    UnimplementedSshMethod,
    /// None of the allowed kinds matches a strategy that is still available.
    Exhausted,
    /// The credential provider itself failed; its error is kept as it came.
    Collaborator(git2::Error),
}

impl AuthError {
    /// The message of each error that the handler raises by itself.
    pub open spec fn message(self) -> Seq<char>
        recommends
            !(self is Collaborator),
    {
        match self {
            AuthError::UsernamesExhausted => "tried all possible usernames for the callback"@,
            AuthError::SshExhausted => "no ssh handler present for authentication"@,
            AuthError::MissingUsername => "username must be provided with SSH_KEY callback"@,
            AuthError::UnimplementedSshMethod => "ssh trial method is not implemented"@,
            AuthError::Exhausted => "tried all possible credential kinds for authentication"@,
            AuthError::Collaborator(_) => Seq::empty(),
        }
    }

    /// The `git2::Error` that reports `self`.
    pub open spec fn git_error(self) -> git2::Error {
        match self {
            AuthError::Collaborator(e) => e,
            _ => git_error_with_message(self.message()),
        }
    }

    /// Turns the error into the one that the transport expects from a
    /// credential callback. A provider's error passes through unchanged, so
    /// that the transport can tell "out of options" from "the mechanism
    /// failed".
    pub fn into_git_error(self) -> (e: git2::Error)
        ensures
            e == self.git_error(),
    {
        match self {
            AuthError::UsernamesExhausted => git2::Error::from_str(
                "tried all possible usernames for the callback",
            ),
            AuthError::SshExhausted => git2::Error::from_str(
                "no ssh handler present for authentication",
            ),
            AuthError::MissingUsername => git2::Error::from_str(
                "username must be provided with SSH_KEY callback",
            ),
            AuthError::UnimplementedSshMethod => git2::Error::from_str(
                "ssh trial method is not implemented",
            ),
            AuthError::Exhausted => git2::Error::from_str(
                "tried all possible credential kinds for authentication",
            ),
            AuthError::Collaborator(e) => e,
        }
    }
}

} // verus!
