//! Credential kinds, and the set of kinds a remote accepts.

use vstd::prelude::*;

verus! {

/// A mechanism by which a remote can be asked to authenticate a session.
#[derive(Clone, Copy, Debug, PartialEq, Eq, Hash, Structural)]
pub enum CredentialKind {
    /// Only a user name, sent when the URL carried none.
    Username,
    /// An SSH key.
    SshKey,
    /// A user name and a password in plain text.
    UserPassPlaintext,
    /// The negotiated default of the transport, such as NTLM or Kerberos.
    Default,
}

/// `git2::CredentialType` is a set of flags, one per credential kind.
/// Nothing inside it is visible to the proofs.
#[verifier::external_type_specification]
#[verifier::external_body]
pub struct ExCredentialType(git2::CredentialType);

/// The credential kinds whose flags are set in `allowed`.
///
/// It has no definition. What the proofs know of it is what the four flag
/// tests below are assumed to tell.
pub uninterp spec fn allowed_kinds(allowed: git2::CredentialType) -> Set<CredentialKind>;

/// Assumed of `git2::CredentialType::is_username`: it tells whether the
/// `USERNAME` flag is set.
pub assume_specification[ git2::CredentialType::is_username ](
    allowed: &git2::CredentialType,
) -> (b: bool)
    ensures
        b == allowed_kinds(*allowed).contains(CredentialKind::Username),
;

/// Assumed of `git2::CredentialType::is_ssh_key`: it tells whether the
/// `SSH_KEY` flag is set.
pub assume_specification[ git2::CredentialType::is_ssh_key ](
    allowed: &git2::CredentialType,
) -> (b: bool)
    ensures
        b == allowed_kinds(*allowed).contains(CredentialKind::SshKey),
;

/// Assumed of `git2::CredentialType::is_user_pass_plaintext`: it tells
/// whether the `USER_PASS_PLAINTEXT` flag is set.
pub assume_specification[ git2::CredentialType::is_user_pass_plaintext ](
    allowed: &git2::CredentialType,
) -> (b: bool)
    ensures
        b == allowed_kinds(*allowed).contains(CredentialKind::UserPassPlaintext),
;

/// Assumed of `git2::CredentialType::is_default`: it tells whether the
/// `DEFAULT` flag is set.
pub assume_specification[ git2::CredentialType::is_default ](
    allowed: &git2::CredentialType,
) -> (b: bool)
    ensures
        b == allowed_kinds(*allowed).contains(CredentialKind::Default),
;

} // verus!
