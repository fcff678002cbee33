//! The negotiation as a state machine over mathematical values.
//!
//! A state holds the two queues of candidates, the flag of the default
//! credential and what the transport said last. One callback takes a state
//! to the next state and to a decision: a request to a credential provider,
//! or a failure. Nothing here runs: the handler is proved to follow this
//! machine, and the laws at the end are proved of the machine.

use crate::credential::{cred_kind, Credential, CredentialRequestView};
use crate::error::AuthError;
use crate::kinds::CredentialKind;
use vstd::prelude::*;

verus! {

/// A way of producing SSH credentials, as a mathematical value.
pub enum SshTrialMethodView {
    Agent,
    HostDerived { url: Seq<char> },
    KeyFiles { paths: Seq<Seq<char>>, passphrase: Seq<char> },
}

/// What one callback decides: to ask a provider, or to fail.
pub enum Decision {
    Request(CredentialRequestView),
    Fail(AuthError),
}

/// The branch of the dispatch that serves a callback.
pub enum Strategy {
    UsernameTrial,
    SshTrial,
    PlaintextHelper,
    DefaultCredential,
    GiveUp,
}

/// One invocation of the credential callback, as the transport makes it.
pub struct Callback {
    pub url: Seq<char>,
    pub username: Option<Seq<char>>,
    pub allowed: Set<CredentialKind>,
}

/// Everything a handler remembers between callbacks, except the
/// configuration handle.
pub struct HandlerState {
    /// User names still to be tried, the next one first.
    pub usernames: Seq<Seq<char>>,
    /// SSH methods still to be tried, the next one first.
    pub ssh_trial_methods: Seq<SshTrialMethodView>,
    /// Whether the default credential has been offered.
    pub tried_default_credential: bool,
    /// The user name of the latest callback.
    pub callback_username: Option<Seq<char>>,
    /// The URL of the latest callback.
    pub callback_url: Option<Seq<char>>,
}

impl SshTrialMethodView {
    /// What a trial of this method decides, given the user name that the
    /// transport supplied.
    pub open spec fn trial(self, username: Option<Seq<char>>) -> Decision {
        match self {
            SshTrialMethodView::Agent => match username {
                Some(name) => Decision::Request(CredentialRequestView::SshAgent { username: name }),
                None => Decision::Fail(AuthError::MissingUsername),
            },
            _ => Decision::Fail(AuthError::UnimplementedSshMethod),
        }
    }
}

impl Decision {
    /// Whether `r` is a result that the handler may return for this
    /// decision.
    ///
    /// A failure is returned as it is. A request is answered by its
    /// provider. Either it yields a credential of the kind asked for, which
    /// is labelled with exactly this request; that never happens for a
    /// malformed request. Or it fails with its own error; that never happens
    /// for a user name credential with a well-formed name.
    pub open spec fn admits(self, r: Result<Credential, AuthError>) -> bool {
        match self {
            Decision::Fail(e) => r == Err::<Credential, AuthError>(e),
            Decision::Request(request) => match r {
                Ok(credential) => {
                    &&& credential.request@ == request
                    &&& cred_kind(credential.cred) == request.kind()
                    &&& !request.is_malformed()
                },
                Err(e) => e is Collaborator && !request.is_always_served(),
            },
        }
    }
}

impl HandlerState {
    /// The state of a handler with the default seeding: the empty user
    /// name, then `git`, then the login name if there is one; the SSH agent
    /// as the only SSH method; nothing tried, nothing heard.
    pub open spec fn default_seeding(login_name: Option<Seq<char>>) -> HandlerState {
        HandlerState {
            usernames: match login_name {
                Some(name) => seq![""@, "git"@, name],
                None => seq![""@, "git"@],
            },
            ssh_trial_methods: seq![SshTrialMethodView::Agent],
            tried_default_credential: false,
            callback_username: None,
            callback_url: None,
        }
    }

    /// The state after noting the URL and the user name of a callback.
    pub open spec fn record(self, call: Callback) -> HandlerState {
        HandlerState {
            callback_username: call.username,
            callback_url: Some(call.url),
            ..self
        }
    }

    /// The branch that serves a callback with the given allowed kinds. The
    /// order of the tests is fixed: user name, SSH, plain text, default.
    pub open spec fn strategy(self, allowed: Set<CredentialKind>) -> Strategy {
        if allowed.contains(CredentialKind::Username) {
            Strategy::UsernameTrial
        } else if allowed.contains(CredentialKind::SshKey) && self.ssh_trial_methods.len() > 0 {
            Strategy::SshTrial
        } else if allowed.contains(CredentialKind::UserPassPlaintext) {
            Strategy::PlaintextHelper
        } else if allowed.contains(CredentialKind::Default) && !self.tried_default_credential {
            Strategy::DefaultCredential
        } else {
            Strategy::GiveUp
        }
    }

    /// Takes the next user name off its queue and asks for a credential
    /// that names it; fails on an empty queue.
    pub open spec fn username_trial(self) -> (HandlerState, Decision) {
        if self.usernames.len() == 0 {
            (self, Decision::Fail(AuthError::UsernamesExhausted))
        } else {
            (
                HandlerState { usernames: self.usernames.drop_first(), ..self },
                Decision::Request(CredentialRequestView::Username { name: self.usernames[0] }),
            )
        }
    }

    /// Takes the next SSH method off its queue and tries it with the user
    /// name on record; fails on an empty queue.
    pub open spec fn ssh_trial(self) -> (HandlerState, Decision) {
        if self.ssh_trial_methods.len() == 0 {
            (self, Decision::Fail(AuthError::SshExhausted))
        } else {
            (
                HandlerState { ssh_trial_methods: self.ssh_trial_methods.drop_first(), ..self },
                self.ssh_trial_methods[0].trial(self.callback_username),
            )
        }
    }

    /// One callback: the next state and the decision.
    pub open spec fn step(self, call: Callback) -> (HandlerState, Decision) {
        let noted = self.record(call);
        match self.strategy(call.allowed) {
            Strategy::UsernameTrial => noted.username_trial(),
            Strategy::SshTrial => noted.ssh_trial(),
            Strategy::PlaintextHelper => (
                noted,
                Decision::Request(
                    CredentialRequestView::PlaintextHelper {
                        url: call.url,
                        hint: call.username,
                    },
                ),
            ),
            Strategy::DefaultCredential => (
                HandlerState { tried_default_credential: true, ..noted },
                Decision::Request(CredentialRequestView::Default),
            ),
            Strategy::GiveUp => (noted, Decision::Fail(AuthError::Exhausted)),
        }
    }

    /// How many candidates are left: the entries of both queues, and the
    /// default credential while it is unused.
    pub open spec fn remaining_options(self) -> nat {
        self.usernames.len() + self.ssh_trial_methods.len() + if self.tried_default_credential {
            0nat
        } else {
            1nat
        }
    }

    /// The state after a run of callbacks, served in order.
    pub open spec fn after(self, calls: Seq<Callback>) -> HandlerState
        decreases calls.len(),
    {
        if calls.len() == 0 {
            self
        } else {
            self.after(calls.drop_last()).step(calls.last()).0
        }
    }

    /// The decision on the callback at position `i` of a run.
    pub open spec fn decision_at(self, calls: Seq<Callback>, i: int) -> Decision
        recommends
            0 <= i < calls.len(),
    {
        self.after(calls.take(i)).step(calls[i]).1
    }

    /// The user name that the callback at position `i` of a run takes off
    /// the queue, if it takes one.
    pub open spec fn username_offered_at(self, calls: Seq<Callback>, i: int) -> Option<Seq<char>>
        recommends
            0 <= i < calls.len(),
    {
        let state = self.after(calls.take(i));
        if state.strategy(calls[i].allowed) is UsernameTrial && state.usernames.len() > 0 {
            Some(state.usernames[0])
        } else {
            None
        }
    }

    /// The SSH method that the callback at position `i` of a run takes off
    /// the queue, if it takes one.
    pub open spec fn ssh_method_tried_at(self, calls: Seq<Callback>, i: int) -> Option<
        SshTrialMethodView,
    >
        recommends
            0 <= i < calls.len(),
    {
        let state = self.after(calls.take(i));
        if state.strategy(calls[i].allowed) is SshTrial {
            Some(state.ssh_trial_methods[0])
        } else {
            None
        }
    }

    /// How many user names a run takes off the queue.
    pub open spec fn usernames_taken(self, calls: Seq<Callback>) -> int {
        self.usernames.len() - self.after(calls).usernames.len()
    }

    /// How many SSH methods a run takes off the queue.
    pub open spec fn ssh_methods_taken(self, calls: Seq<Callback>) -> int {
        self.ssh_trial_methods.len() - self.after(calls).ssh_trial_methods.len()
    }
}

} // verus!
