//! What holds of every negotiation, proved of the state machine that the
//! handler follows.

use crate::credential::{cred_kind, Credential, CredentialRequestView};
use crate::error::AuthError;
use crate::kinds::CredentialKind;
use crate::negotiation::{Callback, Decision, HandlerState, SshTrialMethodView, Strategy};
use vstd::prelude::*;

verus! {

/// A request is only ever made for a kind that the callback allows.
pub proof fn lemma_request_kind_is_allowed(state: HandlerState, call: Callback)
    ensures
        state.step(call).1 matches Decision::Request(request) ==> call.allowed.contains(
            request.kind(),
        ),
{
}

/// The failures that the handler decides on are its own: a provider's
/// error only ever comes from a provider.
pub proof fn lemma_failures_are_own(state: HandlerState, call: Callback)
    ensures
        state.step(call).1 matches Decision::Fail(e) ==> !(e is Collaborator),
{
}

/// The negotiation makes progress. No callback adds a candidate, and every
/// request other than one to the credential helper uses one up, so that a
/// session can make only as many such requests as it had candidates at
/// first.
pub proof fn lemma_request_uses_up_an_option(state: HandlerState, call: Callback)
    ensures
        state.step(call).0.remaining_options() <= state.remaining_options(),
        state.step(call).1 matches Decision::Request(request) && !(request is PlaintextHelper)
            ==> state.step(call).0.remaining_options() + 1 == state.remaining_options(),
{
}

/// One callback changes the queues by at most taking the front off one of
/// them, and never clears the flag of the default credential.
pub proof fn lemma_step_only_drains(state: HandlerState, call: Callback)
    ensures
        ({
            let next = state.step(call).0;
            &&& next.usernames == state.usernames || (state.usernames.len() > 0 && next.usernames
                == state.usernames.drop_first())
            &&& next.ssh_trial_methods == state.ssh_trial_methods || (state.ssh_trial_methods.len()
                > 0 && next.ssh_trial_methods == state.ssh_trial_methods.drop_first())
            &&& state.tried_default_credential ==> next.tried_default_credential
        }),
{
}

/// Serving one more callback after a run is one step from the state that
/// the run leaves.
pub proof fn lemma_after_one_more(state: HandlerState, calls: Seq<Callback>, i: int)
    requires
        0 <= i < calls.len(),
    ensures
        state.after(calls.take(i + 1)) == state.after(calls.take(i)).step(calls[i]).0,
{
    assert(calls.take(i + 1).drop_last() =~= calls.take(i));
}

/// The queues are drained front to back and never refilled: what a run
/// leaves of each queue is what the queue held at first, without the
/// entries that the run took. The flag of the default credential, once set,
/// stays set.
pub proof fn lemma_queues_drain_from_front(state: HandlerState, calls: Seq<Callback>)
    ensures
        0 <= state.usernames_taken(calls) <= state.usernames.len(),
        state.after(calls).usernames == state.usernames.skip(state.usernames_taken(calls)),
        0 <= state.ssh_methods_taken(calls) <= state.ssh_trial_methods.len(),
        state.after(calls).ssh_trial_methods == state.ssh_trial_methods.skip(
            state.ssh_methods_taken(calls),
        ),
        state.tried_default_credential ==> state.after(calls).tried_default_credential,
    decreases calls.len(),
{
    if calls.len() == 0 {
        assert(state.usernames.skip(0) =~= state.usernames);
        assert(state.ssh_trial_methods.skip(0) =~= state.ssh_trial_methods);
    } else {
        let earlier = calls.drop_last();
        let before = state.after(earlier);
        lemma_queues_drain_from_front(state, earlier);
        lemma_step_only_drains(before, calls.last());
        let taken = state.usernames_taken(earlier);
        if before.usernames.len() > 0 {
            assert(state.usernames.skip(taken).drop_first() =~= state.usernames.skip(taken + 1));
        }
        let tried = state.ssh_methods_taken(earlier);
        if before.ssh_trial_methods.len() > 0 {
            assert(state.ssh_trial_methods.skip(tried).drop_first()
                =~= state.ssh_trial_methods.skip(tried + 1));
        }
    }
}

/// A longer run has taken at least as much off each queue as any of its
/// beginnings, and has the flag of the default credential set if the
/// beginning has.
pub proof fn lemma_taken_grows(state: HandlerState, calls: Seq<Callback>, i: int)
    requires
        0 <= i <= calls.len(),
    ensures
        state.usernames_taken(calls.take(i)) <= state.usernames_taken(calls),
        state.ssh_methods_taken(calls.take(i)) <= state.ssh_methods_taken(calls),
        state.after(calls.take(i)).tried_default_credential ==> state.after(
            calls,
        ).tried_default_credential,
    decreases calls.len(),
{
    if i == calls.len() {
        assert(calls.take(i) =~= calls);
    } else {
        let earlier = calls.drop_last();
        assert(earlier.take(i) =~= calls.take(i));
        lemma_taken_grows(state, earlier, i);
        lemma_step_only_drains(state.after(earlier), calls.last());
    }
}

/// No user name is offered twice. Of two callbacks of one run that each
/// take a user name, the later one takes an entry that stood further back in
/// the queue that the run started with.
pub proof fn lemma_username_never_offered_again(
    state: HandlerState,
    calls: Seq<Callback>,
    i: int,
    j: int,
)
    requires
        0 <= i < j < calls.len(),
        state.username_offered_at(calls, i) is Some,
        state.username_offered_at(calls, j) is Some,
    ensures
        0 <= state.usernames_taken(calls.take(i)) < state.usernames_taken(calls.take(j))
            < state.usernames.len(),
        state.username_offered_at(calls, i) == Some(
            state.usernames[state.usernames_taken(calls.take(i))],
        ),
        state.username_offered_at(calls, j) == Some(
            state.usernames[state.usernames_taken(calls.take(j))],
        ),
        state.usernames.no_duplicates() ==> state.username_offered_at(calls, i)
            != state.username_offered_at(calls, j),
{
    lemma_queues_drain_from_front(state, calls.take(i));
    lemma_queues_drain_from_front(state, calls.take(j));
    lemma_after_one_more(state, calls, i);
    assert(calls.take(j).take(i + 1) =~= calls.take(i + 1));
    lemma_taken_grows(state, calls.take(j), i + 1);
}

/// No SSH method is tried twice. Of two callbacks of one run that each take
/// an SSH method, the later one takes an entry that stood further back in
/// the queue that the run started with.
pub proof fn lemma_ssh_method_never_tried_again(
    state: HandlerState,
    calls: Seq<Callback>,
    i: int,
    j: int,
)
    requires
        0 <= i < j < calls.len(),
        state.ssh_method_tried_at(calls, i) is Some,
        state.ssh_method_tried_at(calls, j) is Some,
    ensures
        0 <= state.ssh_methods_taken(calls.take(i)) < state.ssh_methods_taken(calls.take(j))
            < state.ssh_trial_methods.len(),
        state.ssh_method_tried_at(calls, i) == Some(
            state.ssh_trial_methods[state.ssh_methods_taken(calls.take(i))],
        ),
        state.ssh_method_tried_at(calls, j) == Some(
            state.ssh_trial_methods[state.ssh_methods_taken(calls.take(j))],
        ),
{
    lemma_queues_drain_from_front(state, calls.take(i));
    lemma_queues_drain_from_front(state, calls.take(j));
    lemma_after_one_more(state, calls, i);
    assert(calls.take(j).take(i + 1) =~= calls.take(i + 1));
    lemma_taken_grows(state, calls.take(j), i + 1);
}

/// The default credential is offered at most once in a run.
pub proof fn lemma_default_offered_at_most_once(
    state: HandlerState,
    calls: Seq<Callback>,
    i: int,
    j: int,
)
    requires
        0 <= i < j < calls.len(),
        state.decision_at(calls, i) == Decision::Request(CredentialRequestView::Default),
    ensures
        state.decision_at(calls, j) != Decision::Request(CredentialRequestView::Default),
{
    lemma_after_one_more(state, calls, i);
    assert(calls.take(j).take(i + 1) =~= calls.take(i + 1));
    lemma_taken_grows(state, calls.take(j), i + 1);
}

/// Two callbacks in a row that allow the default credential and nothing
/// else, on a handler that has not offered it yet: the first one requests
/// it, the second one fails with `Exhausted`.
pub proof fn lemma_default_then_exhausted(state: HandlerState, first: Callback, second: Callback)
    requires
        !state.tried_default_credential,
        first.allowed == set![CredentialKind::Default],
        second.allowed == set![CredentialKind::Default],
    ensures
        state.step(first).1 == Decision::Request(CredentialRequestView::Default),
        state.step(first).0.step(second).1 == Decision::Fail(AuthError::Exhausted),
{
}

/// The order of the dispatch is fixed. Where the remote accepts an SSH key
/// and an SSH method is left, the credential helper is never asked, even if
/// a plain-text password is accepted too; the SSH trial is made unless the
/// remote accepts a bare user name, which comes first.
pub proof fn lemma_ssh_before_plaintext(state: HandlerState, call: Callback)
    requires
        call.allowed.contains(CredentialKind::SshKey),
        call.allowed.contains(CredentialKind::UserPassPlaintext),
        state.ssh_trial_methods.len() > 0,
    ensures
        !(state.strategy(call.allowed) is PlaintextHelper),
        !(state.step(call).1 matches Decision::Request(
            CredentialRequestView::PlaintextHelper { .. },
        )),
        !call.allowed.contains(CredentialKind::Username) ==> {
            &&& state.strategy(call.allowed) is SshTrial
            &&& state.step(call) == state.record(call).ssh_trial()
            &&& state.step(call).0.ssh_trial_methods == state.ssh_trial_methods.drop_first()
        },
        call.allowed.contains(CredentialKind::Username) ==> state.strategy(call.allowed)
            is UsernameTrial,
{
}

/// A trial of the SSH agent needs the user name of the same callback:
/// without one it fails with `MissingUsername`, with one it requests the
/// agent credential for that user.
pub proof fn lemma_agent_needs_username(state: HandlerState, call: Callback)
    requires
        state.strategy(call.allowed) is SshTrial,
        state.ssh_trial_methods[0] is Agent,
    ensures
        call.username is None ==> state.step(call).1 == Decision::Fail(AuthError::MissingUsername),
        call.username matches Some(name) ==> state.step(call).1 == Decision::Request(
            CredentialRequestView::SshAgent { username: name },
        ),
{
}

/// Every callback puts its URL and its user name on record, whatever it
/// decides. A later SSH trial of the agent reads the user name from there.
pub proof fn lemma_callback_is_recorded(state: HandlerState, call: Callback)
    ensures
        state.step(call).0.callback_url == Some(call.url),
        state.step(call).0.callback_username == call.username,
        ({
            let next = state.step(call).0;
            next.ssh_trial_methods.len() > 0 && next.ssh_trial_methods[0] is Agent
                ==> next.ssh_trial().1 == SshTrialMethodView::Agent.trial(call.username)
        }),
{
}

/// A handler with the default seeding, asked for a user name four times in
/// a row, offers the empty name, then `git`, then the login name, and then
/// fails with `UsernamesExhausted`; without a login name the third call
/// fails already.
pub proof fn lemma_default_seeding_order(login_name: Option<Seq<char>>, calls: Seq<Callback>)
    requires
        calls.len() == 4,
        forall|i: int| 0 <= i < 4 ==> (#[trigger] calls[i]).allowed.contains(CredentialKind::Username),
    ensures
        ({
            let state = HandlerState::default_seeding(login_name);
            &&& state.decision_at(calls, 0) == Decision::Request(
                CredentialRequestView::Username { name: ""@ },
            )
            &&& state.decision_at(calls, 1) == Decision::Request(
                CredentialRequestView::Username { name: "git"@ },
            )
            &&& state.decision_at(calls, 2) == match login_name {
                Some(name) => Decision::Request(CredentialRequestView::Username { name }),
                None => Decision::Fail(AuthError::UsernamesExhausted),
            }
            &&& state.decision_at(calls, 3) == Decision::Fail(AuthError::UsernamesExhausted)
        }),
{
    let state = HandlerState::default_seeding(login_name);
    assert(state.after(calls.take(0)) == state);
    lemma_after_one_more(state, calls, 0);
    lemma_after_one_more(state, calls, 1);
    lemma_after_one_more(state, calls, 2);
    let s1 = state.after(calls.take(1));
    let s2 = state.after(calls.take(2));
    let s3 = state.after(calls.take(3));
    assert(s1.usernames =~= state.usernames.drop_first());
    assert(s2.usernames =~= s1.usernames.drop_first());
    if login_name is Some {
        assert(s3.usernames =~= s2.usernames.drop_first());
    }
}

/// A user name with no NUL character in it always gets its credential:
/// whatever a user name trial returns for it is a credential of the user
/// name kind, labelled with that name.
pub proof fn lemma_wellformed_username_is_served(
    state: HandlerState,
    r: Result<Credential, AuthError>,
)
    requires
        state.usernames.len() > 0,
        !state.usernames[0].contains('\0'),
        state.username_trial().1.admits(r),
    ensures
        r matches Ok(credential) && credential.request@ == (CredentialRequestView::Username {
            name: state.usernames[0],
        }) && cred_kind(credential.cred) == CredentialKind::Username,
{
}

/// A handler with the default seeding, asked for a user name four times in
/// a row, returns a credential the first and the second time, and the third
/// time exactly if there is a login name with no NUL character in it. The
/// fourth call returns none.
pub proof fn lemma_default_seeding_is_served(
    login_name: Option<Seq<char>>,
    calls: Seq<Callback>,
    i: int,
    r: Result<Credential, AuthError>,
)
    requires
        calls.len() == 4,
        forall|k: int| 0 <= k < 4 ==> (#[trigger] calls[k]).allowed.contains(CredentialKind::Username),
        0 <= i < 4,
        HandlerState::default_seeding(login_name).decision_at(calls, i).admits(r),
    ensures
        i < 2 ==> r is Ok,
        i == 2 ==> (r is Ok <==> (login_name matches Some(name) && !name.contains('\0'))),
        i == 3 ==> r is Err,
{
    lemma_default_seeding_order(login_name, calls);
    reveal_strlit("");
    reveal_strlit("git");
}

} // verus!
