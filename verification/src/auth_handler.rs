//! The handler that answers the credential callbacks of one session.

use crate::credential::{cred_kind, Credential, CredentialRequest, CredentialRequestView};
use crate::error::AuthError;
use crate::kinds::{allowed_kinds, CredentialKind};
use crate::negotiation::{Callback, Decision, HandlerState, SshTrialMethodView};
use std::collections::VecDeque;
use vstd::prelude::*;

verus! {

/// The user name tried first: some remotes accept the empty one.
pub const USERNAME_EMPTY: &'static str = "";

/// The user name tried second, the conventional account of hosted git.
pub const USERNAME_GIT: &'static str = "git";

/// A way of producing SSH credentials.
#[derive(Clone, Debug, PartialEq, Eq, Hash)]
pub enum SSHTrialMethod {
    /// Ask the SSH agent, on behalf of the user that the transport names.
    Agent,
    /// Derive the key from the remote's URL. Not available yet.
    HostDerived { url: String },
    /// Try key files in order, unlocked with one passphrase. Not available
    /// yet.
    KeyFiles { paths: Vec<String>, passphrase: String },
}

impl View for SSHTrialMethod {
    type V = SshTrialMethodView;

    open spec fn view(&self) -> SshTrialMethodView {
        match *self {
            SSHTrialMethod::Agent => SshTrialMethodView::Agent,
            SSHTrialMethod::HostDerived { url } => SshTrialMethodView::HostDerived { url: url@ },
            SSHTrialMethod::KeyFiles { paths, passphrase } => SshTrialMethodView::KeyFiles {
                paths: paths.deep_view(),
                passphrase: passphrase@,
            },
        }
    }
}

impl DeepView for SSHTrialMethod {
    type V = SshTrialMethodView;

    open spec fn deep_view(&self) -> SshTrialMethodView {
        self.view()
    }
}

impl SSHTrialMethod {
    /// Tries this method with the user name that the transport supplied.
    ///
    /// The agent needs a user name and fails with `MissingUsername` without
    /// one; with one, the agent credential for that user is requested. The
    /// other methods fail with `UnimplementedSshMethod`.
    pub fn handle_callback(&self, callback_username: Option<&String>) -> (r: Result<
        Credential,
        AuthError,
    >)
        ensures
            self@.trial(callback_username.deep_view()).admits(r),
    {
        match self {
            SSHTrialMethod::Agent => match callback_username {
                Some(username) => {
                    let provided = git2::Cred::ssh_key_from_agent(username.as_str());
                    Credential::from_outcome(
                        CredentialRequest::SshAgent { username: username.clone() },
                        provided,
                    )
                },
                None => Err(AuthError::MissingUsername),
            },
            _ => Err(AuthError::UnimplementedSshMethod),
        }
    }
}

/// What the handler says to one callback.
///
/// The handler makes the credentials that only need to be put together. The
/// credential helper is another matter: it reads configuration files and
/// starts the programs they name. That is left to the caller, who gets the
/// request to make and labels what comes back with
/// [`Credential::from_outcome`].
pub enum Answer {
    /// The callback is answered: a credential, or the reason for none.
    Done(Result<Credential, AuthError>),
    /// The credential helper is to be asked, with the URL and the user name
    /// of this request and the configuration of the handler.
    AskHelper(CredentialRequest),
}

impl Answer {
    /// Whether this is an answer that the handler may give where the state
    /// machine takes `decision`.
    ///
    /// A request to the credential helper is handed over as it is, and
    /// nothing else is. Every other decision is carried out, with a result
    /// that the decision admits.
    pub open spec fn answers(self, decision: Decision) -> bool {
        match self {
            Answer::AskHelper(request) => {
                &&& request@ is PlaintextHelper
                &&& decision == Decision::Request(request@)
            },
            Answer::Done(r) => {
                &&& !(decision matches Decision::Request(
                    CredentialRequestView::PlaintextHelper { .. },
                ))
                &&& decision.admits(r)
            },
        }
    }
}

/// The callback that the transport makes with these arguments, as the state
/// machine sees it.
pub open spec fn callback_of(
    url: &str,
    username: Option<&str>,
    allowed: git2::CredentialType,
) -> Callback {
    Callback { url: url@, username: username.deep_view(), allowed: allowed_kinds(allowed) }
}

/// A copy of the user name that the transport supplied, for the handler to
/// keep.
fn owned_username(username: Option<&str>) -> (owned: Option<String>)
    ensures
        owned.deep_view() == username.deep_view(),
{
    match username {
        Some(name) => Some(name.to_owned()),
        None => None,
    }
}

/// The state of one authentication session: what is still to be tried and
/// what the transport said last.
pub struct AuthHandler {
    config: git2::Config,
    /// User names to try when the transport cannot tell one from the URL.
    usernames: VecDeque<String>,
    /// Methods to try when the remote accepts an SSH key.
    ssh_trial_methods: VecDeque<SSHTrialMethod>,
    /// Set once the default credential has been offered, so that a remote
    /// that keeps asking for it does not make the session loop.
    tried_default_credential: bool,
    /// The user name supplied by the latest callback.
    pub callback_username: Option<String>,
    /// The URL supplied by the latest callback.
    callback_url: Option<String>,
}

impl View for AuthHandler {
    type V = HandlerState;

    closed spec fn view(&self) -> HandlerState {
        HandlerState {
            usernames: self.usernames.deep_view(),
            ssh_trial_methods: self.ssh_trial_methods.deep_view(),
            tried_default_credential: self.tried_default_credential,
            callback_username: self.callback_username.deep_view(),
            callback_url: self.callback_url.deep_view(),
        }
    }
}

impl AuthHandler {
    /// The configuration handle that the handler keeps for the credential
    /// helper.
    pub closed spec fn config(&self) -> git2::Config {
        self.config
    }

    /// The configuration to run the credential helper with.
    pub fn credential_helper_config(&self) -> (config: &git2::Config)
        ensures
            *config == self.config(),
    {
        &self.config
    }

    /// A handler with the given queues and flag, which has heard of no URL
    /// yet.
    pub fn new(
        config: git2::Config,
        usernames: VecDeque<String>,
        ssh_trial_methods: VecDeque<SSHTrialMethod>,
        tried_default_credential: bool,
        callback_username: Option<String>,
    ) -> (handler: Self)
        ensures
            handler.config() == config,
            handler@ == (HandlerState {
                usernames: usernames.deep_view(),
                ssh_trial_methods: ssh_trial_methods.deep_view(),
                tried_default_credential,
                callback_username: callback_username.deep_view(),
                callback_url: None,
            }),
    {
        Self {
            config,
            usernames,
            ssh_trial_methods,
            tried_default_credential,
            callback_username,
            callback_url: None,
        }
    }

    /// A handler with the default seeding. The user names to try are the
    /// empty one, then `git`, then `login_name` if the caller could resolve
    /// one; the only SSH method is the agent.
    pub fn default_with_config(config: git2::Config, login_name: Option<String>) -> (handler: Self)
        ensures
            handler.config() == config,
            handler@ == HandlerState::default_seeding(login_name.deep_view()),
    {
        let mut usernames: VecDeque<String> = VecDeque::with_capacity(3);
        usernames.push_back(USERNAME_EMPTY.to_owned());
        usernames.push_back(USERNAME_GIT.to_owned());
        if let Some(name) = login_name {
            usernames.push_back(name);
        }
        let mut ssh_trial_methods: VecDeque<SSHTrialMethod> = VecDeque::new();
        ssh_trial_methods.push_back(SSHTrialMethod::Agent);
        let handler = Self::new(config, usernames, ssh_trial_methods, false, None);
        proof {
            assert(handler@.usernames =~= HandlerState::default_seeding(
                login_name.deep_view(),
            ).usernames);
            assert(handler@.ssh_trial_methods =~= seq![SshTrialMethodView::Agent]);
        }
        handler
    }

    /// The user names that are still to be tried, the next one first.
    pub fn usernames(&self) -> (queue: &VecDeque<String>)
        ensures
            queue.deep_view() == self@.usernames,
    {
        &self.usernames
    }

    /// The SSH methods that are still to be tried, the next one first.
    pub fn ssh_trial_methods(&self) -> (queue: &VecDeque<SSHTrialMethod>)
        ensures
            queue.deep_view() == self@.ssh_trial_methods,
    {
        &self.ssh_trial_methods
    }

    /// Whether the default credential has been offered in this session.
    pub fn tried_default_credential(&self) -> (tried: bool)
        ensures
            tried == self@.tried_default_credential,
    {
        self.tried_default_credential
    }

    /// The user name supplied by the latest callback, if it supplied one.
    pub fn callback_username(&self) -> (name: Option<&String>)
        ensures
            name.deep_view() == self@.callback_username,
    {
        self.callback_username.as_ref()
    }

    /// The URL supplied by the latest callback, if there has been one.
    pub fn callback_url(&self) -> (url: Option<&String>)
        ensures
            url.deep_view() == self@.callback_url,
    {
        self.callback_url.as_ref()
    }

    /// Removes and returns the next user name to try.
    pub fn get_next_username(&mut self) -> (next: Option<String>)
        ensures
            final(self).config() == old(self).config(),
            match next {
                Some(name) => {
                    &&& old(self)@.usernames.len() > 0
                    &&& name@ == old(self)@.usernames[0]
                    &&& final(self)@ == (HandlerState {
                        usernames: old(self)@.usernames.drop_first(),
                        ..old(self)@
                    })
                },
                None => {
                    &&& old(self)@.usernames.len() == 0
                    &&& final(self)@ == old(self)@
                },
            },
    {
        let next = self.usernames.pop_front();
        proof {
            if next is Some {
                assert(self.usernames.deep_view() =~= old(self).usernames.deep_view().drop_first());
            } else {
                assert(self.usernames.deep_view() =~= old(self).usernames.deep_view());
            }
        }
        next
    }

    /// Removes and returns the next SSH method to try.
    pub fn get_next_ssh_trial_method(&mut self) -> (next: Option<SSHTrialMethod>)
        ensures
            final(self).config() == old(self).config(),
            match next {
                Some(method) => {
                    &&& old(self)@.ssh_trial_methods.len() > 0
                    &&& method@ == old(self)@.ssh_trial_methods[0]
                    &&& final(self)@ == (HandlerState {
                        ssh_trial_methods: old(self)@.ssh_trial_methods.drop_first(),
                        ..old(self)@
                    })
                },
                None => {
                    &&& old(self)@.ssh_trial_methods.len() == 0
                    &&& final(self)@ == old(self)@
                },
            },
    {
        let next = self.ssh_trial_methods.pop_front();
        proof {
            if next is Some {
                assert(self.ssh_trial_methods.deep_view() =~= old(
                    self,
                ).ssh_trial_methods.deep_view().drop_first());
            } else {
                assert(self.ssh_trial_methods.deep_view() =~= old(
                    self,
                ).ssh_trial_methods.deep_view());
            }
        }
        next
    }

    /// Answers a callback that asks for a user name: offers the next one in
    /// the queue, or fails with `UsernamesExhausted` when none is left.
    ///
    /// The transport asks for one when it cannot tell the user name from
    /// the URL.
    pub fn handle_username_callback(&mut self) -> (r: Result<Credential, AuthError>)
        ensures
            final(self).config() == old(self).config(),
            final(self)@ == old(self)@.username_trial().0,
            old(self)@.username_trial().1.admits(r),
    {
        match self.get_next_username() {
            Some(name) => {
                let provided = git2::Cred::username(name.as_str());
                Credential::from_outcome(CredentialRequest::Username { name }, provided)
            },
            None => Err(AuthError::UsernamesExhausted),
        }
    }

    /// Answers a callback that accepts an SSH key: tries the next method in
    /// the queue with the user name on record, or fails with `SshExhausted`
    /// when none is left.
    pub fn handle_ssh_callback(&mut self) -> (r: Result<Credential, AuthError>)
        ensures
            final(self).config() == old(self).config(),
            final(self)@ == old(self)@.ssh_trial().0,
            old(self)@.ssh_trial().1.admits(r),
    {
        match self.get_next_ssh_trial_method() {
            Some(method) => method.handle_callback(self.callback_username.as_ref()),
            None => Err(AuthError::SshExhausted),
        }
    }

    /// Answers one credential callback of the transport.
    ///
    /// The URL and the user name are put on record first. Then the first
    /// branch that applies is taken, in this order: a user name trial if
    /// the remote accepts a bare user name; an SSH trial if it accepts an
    /// SSH key and a method is left; the credential helper if it accepts a
    /// plain-text password; the default credential if it accepts that and
    /// it has not been offered before. Otherwise the call fails with
    /// `Exhausted`. Each call makes at most one attempt and never falls
    /// back to another branch by itself.
    ///
    /// A user name with no NUL character in it always gets its credential.
    /// The credential helper is not run here: the request for it is handed
    /// to the caller.
    pub fn handle_callback(
        &mut self,
        url: &str,
        username: Option<&str>,
        allowed: git2::CredentialType,
    ) -> (answer: Answer)
        ensures
            final(self).config() == old(self).config(),
            final(self)@ == old(self)@.step(callback_of(url, username, allowed)).0,
            answer.answers(old(self)@.step(callback_of(url, username, allowed)).1),
            answer matches Answer::Done(Ok(credential)) ==> allowed_kinds(allowed).contains(
                cred_kind(credential.cred),
            ),
            answer is AskHelper ==> allowed_kinds(allowed).contains(
                CredentialKind::UserPassPlaintext,
            ),
    {
        self.callback_username = owned_username(username);
        self.callback_url = Some(url.to_owned());

        if allowed.is_username() {
            return Answer::Done(self.handle_username_callback());
        }
        if allowed.is_ssh_key() && self.ssh_trial_methods.len() > 0 {
            return Answer::Done(self.handle_ssh_callback());
        }
        if allowed.is_user_pass_plaintext() {
            return Answer::AskHelper(
                CredentialRequest::PlaintextHelper {
                    url: url.to_owned(),
                    hint: owned_username(username),
                },
            );
        }
        if allowed.is_default() && !self.tried_default_credential {
            self.tried_default_credential = true;
            let provided = git2::Cred::default();
            return Answer::Done(Credential::from_outcome(CredentialRequest::Default, provided));
        }
        Answer::Done(Err(AuthError::Exhausted))
    }
}

} // verus!
