//! What the handler asks of the credential providers, and what comes back.

use crate::error::AuthError;
use crate::kinds::CredentialKind;
use vstd::prelude::*;

verus! {

/// `git2::Cred` owns a credential object of libgit2. Nothing inside it is
/// visible to the proofs.
#[verifier::external_type_specification]
#[verifier::external_body]
pub struct ExCred(git2::Cred);

/// `git2::Config` is a handle on git configuration. The handler only keeps
/// it for whoever runs the credential helper, and nothing inside it is
/// visible to the proofs.
#[verifier::external_type_specification]
#[verifier::external_body]
pub struct ExConfig(git2::Config);

/// The kind of the credential object that a `git2::Cred` owns.
///
/// It has no definition. What the proofs know of it is what the
/// constructors below are assumed to tell of the credentials they make.
pub uninterp spec fn cred_kind(cred: git2::Cred) -> CredentialKind;

/// Assumed of `git2::Cred::username`: it fails on a name that holds a NUL
/// character and on no other, and the credential it makes is of the user
/// name kind.
///
/// The function turns the name into a C string, which fails exactly on such
/// a character, and then lets libgit2 allocate the credential and set its
/// type. The allocator running out of memory is left aside.
pub assume_specification[ git2::Cred::username ](username: &str) -> (r: Result<
    git2::Cred,
    git2::Error,
>)
    ensures
        username@.contains('\0') <==> r is Err,
        r matches Ok(cred) ==> cred_kind(cred) == CredentialKind::Username,
;

/// Assumed of `git2::Cred::ssh_key_from_agent`: it fails on a name that
/// holds a NUL character, and a credential it makes is of the SSH key kind.
///
/// The function turns the name into a C string, which fails on such a
/// character, and then lets libgit2 allocate a credential that will query
/// the SSH agent, and set its type. Whether a well-formed name yields a
/// credential is left open.
pub assume_specification[ git2::Cred::ssh_key_from_agent ](username: &str) -> (r: Result<
    git2::Cred,
    git2::Error,
>)
    ensures
        username@.contains('\0') ==> r is Err,
        r matches Ok(cred) ==> cred_kind(cred) == CredentialKind::SshKey,
;

/// Assumed of `git2::Cred::default`: a credential it makes is of the
/// default kind. The function lets libgit2 allocate the credential and set
/// its type. Whether it yields one is left open.
pub assume_specification[ git2::Cred::default ]() -> (r: Result<git2::Cred, git2::Error>)
    ensures
        r matches Ok(cred) ==> cred_kind(cred) == CredentialKind::Default,
;

/// One request to a credential provider, with everything that is handed to
/// it except the configuration.
#[derive(Clone, Debug, PartialEq, Eq, Hash)]
pub enum CredentialRequest {
    /// A credential that only names the user.
    Username { name: String },
    /// A credential that lets the SSH agent sign for the user.
    SshAgent { username: String },
    /// Whatever the configured credential helper yields for the URL.
    PlaintextHelper { url: String, hint: Option<String> },
    /// The default credential of the transport.
    Default,
}

/// The mathematical value of a [`CredentialRequest`].
pub enum CredentialRequestView {
    Username { name: Seq<char> },
    SshAgent { username: Seq<char> },
    PlaintextHelper { url: Seq<char>, hint: Option<Seq<char>> },
    Default,
}

impl CredentialRequestView {
    /// The credential kind that the request answers.
    pub open spec fn kind(self) -> CredentialKind {
        match self {
            CredentialRequestView::Username { .. } => CredentialKind::Username,
            CredentialRequestView::SshAgent { .. } => CredentialKind::SshKey,
            CredentialRequestView::PlaintextHelper { .. } => CredentialKind::UserPassPlaintext,
            CredentialRequestView::Default => CredentialKind::Default,
        }
    }

    /// The user name that the provider must turn into a C string, if the
    /// request names one.
    pub open spec fn c_string_argument(self) -> Option<Seq<char>> {
        match self {
            CredentialRequestView::Username { name } => Some(name),
            CredentialRequestView::SshAgent { username } => Some(username),
            _ => None,
        }
    }

    /// A request that no provider can serve: its user name holds a NUL
    /// character.
    pub open spec fn is_malformed(self) -> bool {
        match self.c_string_argument() {
            Some(name) => name.contains('\0'),
            None => false,
        }
    }

    /// A request whose provider cannot fail: a user name credential for a
    /// well-formed name only needs to be put together.
    pub open spec fn is_always_served(self) -> bool {
        self is Username && !self.is_malformed()
    }
}

impl View for CredentialRequest {
    type V = CredentialRequestView;

    open spec fn view(&self) -> CredentialRequestView {
        match *self {
            CredentialRequest::Username { name } => CredentialRequestView::Username { name: name@ },
            CredentialRequest::SshAgent { username } => CredentialRequestView::SshAgent {
                username: username@,
            },
            CredentialRequest::PlaintextHelper { url, hint } => {
                CredentialRequestView::PlaintextHelper { url: url@, hint: hint.deep_view() }
            },
            CredentialRequest::Default => CredentialRequestView::Default,
        }
    }
}

/// A credential together with the request that produced it.
pub struct Credential {
    /// What was asked of the provider.
    pub request: CredentialRequest,
    /// What the provider returned.
    pub cred: git2::Cred,
}

impl Credential {
    /// What a request yields, given what its provider returned: the
    /// credential labelled with the request, or the provider's error as it
    /// came.
    pub fn from_outcome(
        request: CredentialRequest,
        provided: Result<git2::Cred, git2::Error>,
    ) -> (r: Result<Credential, AuthError>)
        ensures
            r == (match provided {
                Ok(cred) => Ok(Credential { request, cred }),
                Err(e) => Err(AuthError::Collaborator(e)),
            }),
    {
        match provided {
            Ok(cred) => Ok(Credential { request, cred }),
            Err(e) => Err(AuthError::Collaborator(e)),
        }
    }

    /// The kind of the credential.
    pub fn kind(&self) -> (kind: CredentialKind)
        ensures
            kind == self.request@.kind(),
    {
        self.request.kind()
    }

    /// Gives up the label and hands out the credential for the transport.
    pub fn into_cred(self) -> (cred: git2::Cred)
        ensures
            cred == self.cred,
    {
        self.cred
    }
}

impl CredentialRequest {
    /// The credential kind that the request answers.
    pub fn kind(&self) -> (kind: CredentialKind)
        ensures
            kind == self@.kind(),
    {
        match self {
            CredentialRequest::Username { .. } => CredentialKind::Username,
            CredentialRequest::SshAgent { .. } => CredentialKind::SshKey,
            CredentialRequest::PlaintextHelper { .. } => CredentialKind::UserPassPlaintext,
            CredentialRequest::Default => CredentialKind::Default,
        }
    }
}

} // verus!
