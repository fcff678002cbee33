use git2::{Config, CredentialType};
use git_auth::auth_handler::{Answer, AuthHandler, SSHTrialMethod, USERNAME_EMPTY, USERNAME_GIT};
use git_auth::credential::{Credential, CredentialRequest};
use git_auth::error::AuthError;
use git_auth::kinds::CredentialKind;
use std::collections::VecDeque;

const URL: &str = "ssh://example.com/repo.git";

fn config() -> Config {
    Config::new().unwrap()
}

fn names(list: &[&str]) -> VecDeque<String> {
    list.iter().map(|name| name.to_string()).collect()
}

fn handler_with(usernames: &[&str], methods: Vec<SSHTrialMethod>) -> AuthHandler {
    AuthHandler::new(config(), names(usernames), VecDeque::from(methods), false, None)
}

fn username_request(name: &str) -> CredentialRequest {
    CredentialRequest::Username { name: name.to_string() }
}

fn agent_request(username: &str) -> CredentialRequest {
    CredentialRequest::SshAgent { username: username.to_string() }
}

trait Outcome {
    fn result(self) -> Result<Credential, AuthError>;
}

impl Outcome for Result<Credential, AuthError> {
    fn result(self) -> Result<Credential, AuthError> {
        self
    }
}

impl Outcome for Answer {
    fn result(self) -> Result<Credential, AuthError> {
        match self {
            Answer::Done(result) => result,
            Answer::AskHelper(request) => panic!("expected an answer, got {:?}", request),
        }
    }
}

fn credential(outcome: impl Outcome) -> Credential {
    match outcome.result() {
        Ok(credential) => credential,
        Err(e) => panic!("expected a credential, got {:?}", e),
    }
}

fn offered(outcome: impl Outcome) -> CredentialRequest {
    credential(outcome).request
}

fn failure(outcome: impl Outcome) -> AuthError {
    match outcome.result() {
        Ok(credential) => panic!("expected a failure, got {:?}", credential.request),
        Err(e) => e,
    }
}

fn helper_request(answer: Answer) -> CredentialRequest {
    match answer {
        Answer::AskHelper(request) => request,
        Answer::Done(Ok(credential)) => panic!("expected a request, got {:?}", credential.request),
        Answer::Done(Err(e)) => panic!("expected a request, got {:?}", e),
    }
}

fn plaintext_request(url: &str, hint: Option<&str>) -> CredentialRequest {
    CredentialRequest::PlaintextHelper {
        url: url.to_string(),
        hint: hint.map(|name| name.to_string()),
    }
}

/// Runs the credential helper as a caller of the library does.
fn run_helper(handler: &AuthHandler, request: CredentialRequest) -> Result<Credential, AuthError> {
    let provided = match &request {
        CredentialRequest::PlaintextHelper { url, hint } => git2::Cred::credential_helper(
            handler.credential_helper_config(),
            url,
            hint.as_deref(),
        ),
        other => panic!("not a request for the helper: {:?}", other),
    };
    Credential::from_outcome(request, provided)
}

#[test]
fn default_seeding_without_login_name() {
    let mut handler = AuthHandler::default_with_config(config(), None);
    assert_eq!(handler.usernames(), &names(&["", "git"]));
    assert_eq!(handler.ssh_trial_methods(), &VecDeque::from(vec![SSHTrialMethod::Agent]));
    assert!(!handler.tried_default_credential());
    assert_eq!(handler.callback_username, None);
    assert_eq!(handler.callback_url(), None);

    let first = handler.handle_callback(URL, None, CredentialType::USERNAME);
    assert_eq!(offered(first), username_request(""));
    let second = handler.handle_callback(URL, None, CredentialType::USERNAME);
    assert_eq!(offered(second), username_request("git"));
    let third = handler.handle_callback(URL, None, CredentialType::USERNAME);
    assert_eq!(failure(third), AuthError::UsernamesExhausted);
}

#[test]
fn default_seeding_with_login_name() {
    let mut handler = AuthHandler::default_with_config(config(), Some("alice".to_string()));
    assert_eq!(handler.usernames(), &names(&["", "git", "alice"]));

    let first = handler.handle_callback(URL, None, CredentialType::USERNAME);
    assert_eq!(offered(first), username_request(""));
    let second = handler.handle_callback(URL, None, CredentialType::USERNAME);
    assert_eq!(offered(second), username_request("git"));
    let third = handler.handle_callback(URL, None, CredentialType::USERNAME);
    assert_eq!(offered(third), username_request("alice"));
    let fourth = handler.handle_callback(URL, None, CredentialType::USERNAME);
    assert_eq!(failure(fourth), AuthError::UsernamesExhausted);
    let fifth = handler.handle_callback(URL, None, CredentialType::USERNAME);
    assert_eq!(failure(fifth), AuthError::UsernamesExhausted);
}

#[test]
fn seeding_constants() {
    assert_eq!(USERNAME_EMPTY, "");
    assert_eq!(USERNAME_GIT, "git");
}

#[test]
fn username_credential_is_of_username_type() {
    let mut handler = handler_with(&["git"], vec![]);
    let credential = credential(handler.handle_callback(URL, None, CredentialType::USERNAME));
    assert_eq!(credential.kind(), CredentialKind::Username);
    assert_eq!(credential.cred.credtype(), CredentialType::USERNAME.bits());
    assert!(credential.cred.has_username());
    let cred = credential.into_cred();
    assert_eq!(cred.credtype(), CredentialType::USERNAME.bits());
}

#[test]
fn new_keeps_what_it_is_given() {
    let handler = AuthHandler::new(
        config(),
        names(&["a", "b"]),
        VecDeque::from(vec![
            SSHTrialMethod::HostDerived { url: URL.to_string() },
            SSHTrialMethod::Agent,
        ]),
        true,
        Some("carol".to_string()),
    );
    assert_eq!(handler.usernames(), &names(&["a", "b"]));
    assert_eq!(
        handler.ssh_trial_methods(),
        &VecDeque::from(vec![
            SSHTrialMethod::HostDerived { url: URL.to_string() },
            SSHTrialMethod::Agent,
        ])
    );
    assert!(handler.tried_default_credential());
    assert_eq!(handler.callback_username, Some("carol".to_string()));
    assert_eq!(handler.callback_url(), None);
}

#[test]
fn get_next_username_pops_the_front() {
    let mut handler = handler_with(&["x", "y", "z"], vec![]);
    assert_eq!(handler.get_next_username(), Some("x".to_string()));
    assert_eq!(handler.usernames(), &names(&["y", "z"]));
    assert_eq!(handler.get_next_username(), Some("y".to_string()));
    assert_eq!(handler.get_next_username(), Some("z".to_string()));
    assert_eq!(handler.get_next_username(), None);
    assert_eq!(handler.get_next_username(), None);
    assert!(handler.usernames().is_empty());
}

#[test]
fn get_next_ssh_trial_method_pops_the_front() {
    let files = SSHTrialMethod::KeyFiles {
        paths: vec!["/home/alice/.ssh/id_ed25519".to_string()],
        passphrase: "hunter2".to_string(),
    };
    let mut handler = handler_with(&[], vec![SSHTrialMethod::Agent, files.clone()]);
    assert_eq!(handler.get_next_ssh_trial_method(), Some(SSHTrialMethod::Agent));
    assert_eq!(handler.ssh_trial_methods(), &VecDeque::from(vec![files.clone()]));
    assert_eq!(handler.get_next_ssh_trial_method(), Some(files));
    assert_eq!(handler.get_next_ssh_trial_method(), None);
}

#[test]
fn ssh_agent_then_nothing_left() {
    let mut handler = handler_with(&[], vec![SSHTrialMethod::Agent]);
    let credential = credential(handler.handle_callback(
        URL,
        Some("alice"),
        CredentialType::SSH_KEY,
    ));
    assert_eq!(credential.request, agent_request("alice"));
    assert_eq!(credential.kind(), CredentialKind::SshKey);
    assert_eq!(credential.cred.credtype(), CredentialType::SSH_KEY.bits());
    assert!(handler.ssh_trial_methods().is_empty());

    // With the queue empty the SSH branch is no longer taken, and nothing
    // else is allowed.
    let second = handler.handle_callback(URL, Some("alice"), CredentialType::SSH_KEY);
    assert_eq!(failure(second), AuthError::Exhausted);
    // Asked directly, the SSH trial reports its empty queue.
    assert_eq!(failure(handler.handle_ssh_callback()), AuthError::SshExhausted);
}

#[test]
fn ssh_queue_empty_falls_to_plaintext_in_the_same_call() {
    let mut handler = handler_with(&[], vec![]);
    let answer = handler.handle_callback(
        URL,
        Some("alice"),
        CredentialType::SSH_KEY | CredentialType::USER_PASS_PLAINTEXT,
    );
    assert_eq!(helper_request(answer), plaintext_request(URL, Some("alice")));
}

#[test]
fn username_trial_on_empty_queue() {
    let mut handler = handler_with(&[], vec![SSHTrialMethod::Agent]);
    assert_eq!(failure(handler.handle_username_callback()), AuthError::UsernamesExhausted);
    let result = handler.handle_callback(URL, Some("alice"), CredentialType::USERNAME);
    assert_eq!(failure(result), AuthError::UsernamesExhausted);
    // A failed user name trial leaves the SSH queue alone.
    assert_eq!(handler.ssh_trial_methods().len(), 1);
}

#[test]
fn username_comes_before_everything_else() {
    let mut handler = handler_with(&["git"], vec![SSHTrialMethod::Agent]);
    let result = handler.handle_callback(URL, Some("alice"), CredentialType::all());
    assert_eq!(offered(result), username_request("git"));
    assert_eq!(handler.ssh_trial_methods().len(), 1);
    assert!(!handler.tried_default_credential());

    // Even with no user name left, the user name branch is the one taken.
    let result = handler.handle_callback(URL, Some("alice"), CredentialType::all());
    assert_eq!(failure(result), AuthError::UsernamesExhausted);
    assert_eq!(handler.ssh_trial_methods().len(), 1);
}

#[test]
fn ssh_comes_before_plaintext() {
    let mut handler = handler_with(&["git"], vec![SSHTrialMethod::Agent]);
    let allowed = CredentialType::SSH_KEY | CredentialType::USER_PASS_PLAINTEXT;
    let result = handler.handle_callback(URL, Some("alice"), allowed);
    assert_eq!(offered(result), agent_request("alice"));
    assert!(handler.ssh_trial_methods().is_empty());
    assert_eq!(handler.usernames().len(), 1);
}

#[test]
fn plaintext_comes_before_default() {
    let mut handler = handler_with(&[], vec![]);
    let allowed = CredentialType::USER_PASS_PLAINTEXT | CredentialType::DEFAULT;
    let first = handler.handle_callback(URL, None, allowed);
    assert_eq!(helper_request(first), plaintext_request(URL, None));
    // The helper is to be asked, so the default credential is still unused.
    assert!(!handler.tried_default_credential());
    let again = handler.handle_callback(URL, None, allowed);
    assert_eq!(helper_request(again), plaintext_request(URL, None));
    assert!(!handler.tried_default_credential());
}

#[test]
fn default_credential_is_offered_once() {
    let mut handler = handler_with(&["git"], vec![SSHTrialMethod::Agent]);
    let credential = credential(handler.handle_callback(URL, None, CredentialType::DEFAULT));
    assert_eq!(credential.request, CredentialRequest::Default);
    assert_eq!(credential.kind(), CredentialKind::Default);
    assert_eq!(credential.cred.credtype(), CredentialType::DEFAULT.bits());
    assert!(handler.tried_default_credential());

    let second = handler.handle_callback(URL, None, CredentialType::DEFAULT);
    assert_eq!(failure(second), AuthError::Exhausted);
    assert!(handler.tried_default_credential());
    // The queues were never touched.
    assert_eq!(handler.usernames().len(), 1);
    assert_eq!(handler.ssh_trial_methods().len(), 1);
}

#[test]
fn default_credential_already_tried() {
    let mut handler = AuthHandler::new(config(), VecDeque::new(), VecDeque::new(), true, None);
    let result = handler.handle_callback(URL, None, CredentialType::DEFAULT);
    assert_eq!(failure(result), AuthError::Exhausted);
}

#[test]
fn nothing_allowed_is_exhausted() {
    let mut handler = AuthHandler::default_with_config(config(), None);
    let result = handler.handle_callback(URL, Some("alice"), CredentialType::empty());
    assert_eq!(failure(result), AuthError::Exhausted);
    assert_eq!(handler.usernames().len(), 2);
    assert_eq!(handler.ssh_trial_methods().len(), 1);
    assert!(!handler.tried_default_credential());
}

#[test]
fn kinds_without_a_strategy_are_exhausted() {
    let mut handler = AuthHandler::default_with_config(config(), None);
    let allowed = CredentialType::SSH_MEMORY | CredentialType::SSH_CUSTOM
        | CredentialType::SSH_INTERACTIVE;
    let result = handler.handle_callback(URL, Some("alice"), allowed);
    assert_eq!(failure(result), AuthError::Exhausted);
}

#[test]
fn agent_needs_a_username() {
    let mut handler = handler_with(&[], vec![SSHTrialMethod::Agent, SSHTrialMethod::Agent]);
    let first = handler.handle_callback(URL, None, CredentialType::SSH_KEY);
    assert_eq!(failure(first), AuthError::MissingUsername);
    // The failed trial used up its method.
    assert_eq!(handler.ssh_trial_methods().len(), 1);

    let second = handler.handle_callback(URL, Some("bob"), CredentialType::SSH_KEY);
    assert_eq!(offered(second), agent_request("bob"));
    assert!(handler.ssh_trial_methods().is_empty());
}

#[test]
fn agent_reads_the_username_on_record() {
    let mut handler = handler_with(&[], vec![SSHTrialMethod::Agent]);
    // The callback is served by the default credential, and leaves the
    // user name on record for a direct SSH trial.
    let first = handler.handle_callback(URL, Some("dave"), CredentialType::DEFAULT);
    assert_eq!(offered(first), CredentialRequest::Default);
    assert_eq!(handler.callback_username, Some("dave".to_string()));
    assert_eq!(offered(handler.handle_ssh_callback()), agent_request("dave"));
}

#[test]
fn every_callback_is_recorded() {
    let mut handler = AuthHandler::new(
        config(),
        VecDeque::new(),
        VecDeque::new(),
        false,
        Some("old".to_string()),
    );
    let _ = handler.handle_callback("https://a.example/x.git", Some("erin"), CredentialType::empty());
    assert_eq!(handler.callback_username, Some("erin".to_string()));
    assert_eq!(handler.callback_username(), Some(&"erin".to_string()));
    assert_eq!(handler.callback_url(), Some(&"https://a.example/x.git".to_string()));
    let _ = handler.handle_callback("https://b.example/y.git", None, CredentialType::USERNAME);
    assert_eq!(handler.callback_username, None);
    assert_eq!(handler.callback_username(), None);
    assert_eq!(handler.callback_url(), Some(&"https://b.example/y.git".to_string()));
}

#[test]
fn unimplemented_ssh_methods_fail_distinctly() {
    let host = SSHTrialMethod::HostDerived { url: URL.to_string() };
    let files = SSHTrialMethod::KeyFiles {
        paths: vec!["id_rsa".to_string(), "id_ed25519".to_string()],
        passphrase: String::new(),
    };
    let mut handler = handler_with(&[], vec![host, files, SSHTrialMethod::Agent]);
    let first = handler.handle_callback(URL, Some("alice"), CredentialType::SSH_KEY);
    assert_eq!(failure(first), AuthError::UnimplementedSshMethod);
    let second = handler.handle_callback(URL, Some("alice"), CredentialType::SSH_KEY);
    assert_eq!(failure(second), AuthError::UnimplementedSshMethod);
    let third = handler.handle_callback(URL, Some("alice"), CredentialType::SSH_KEY);
    assert_eq!(offered(third), agent_request("alice"));
}

#[test]
fn ssh_trial_method_handle_callback() {
    let alice = "alice".to_string();
    let agent = SSHTrialMethod::Agent;
    assert_eq!(offered(agent.handle_callback(Some(&alice))), agent_request("alice"));
    assert_eq!(failure(agent.handle_callback(None)), AuthError::MissingUsername);

    let host = SSHTrialMethod::HostDerived { url: URL.to_string() };
    assert_eq!(failure(host.handle_callback(Some(&alice))), AuthError::UnimplementedSshMethod);
    assert_eq!(failure(host.handle_callback(None)), AuthError::UnimplementedSshMethod);
    let files = SSHTrialMethod::KeyFiles { paths: vec![], passphrase: "pw".to_string() };
    assert_eq!(failure(files.handle_callback(Some(&alice))), AuthError::UnimplementedSshMethod);
}

#[test]
fn plaintext_helper_without_configuration() {
    let mut handler = handler_with(&["git"], vec![]);
    let answer = handler.handle_callback(
        "https://example.com/repo.git",
        Some("alice"),
        CredentialType::USER_PASS_PLAINTEXT,
    );
    let request = helper_request(answer);
    assert_eq!(request, plaintext_request("https://example.com/repo.git", Some("alice")));
    assert_eq!(request.kind(), CredentialKind::UserPassPlaintext);
    match failure(run_helper(&handler, request)) {
        AuthError::Collaborator(e) => {
            assert_eq!(e.message(), "failed to acquire username/password from local configuration");
        },
        other => panic!("expected the helper's error, got {:?}", other),
    }
    // Asking the helper consumes nothing.
    assert_eq!(handler.usernames().len(), 1);
    assert!(!handler.tried_default_credential());
}

#[test]
fn username_with_nul_is_refused_by_the_provider() {
    let mut handler = handler_with(&["a\0b", "git"], vec![SSHTrialMethod::Agent]);
    let first = handler.handle_callback(URL, None, CredentialType::USERNAME);
    assert!(matches!(failure(first), AuthError::Collaborator(_)));
    // The malformed name is gone all the same.
    assert_eq!(handler.usernames(), &names(&["git"]));

    let second = handler.handle_callback(URL, Some("al\0ice"), CredentialType::SSH_KEY);
    assert!(matches!(failure(second), AuthError::Collaborator(_)));
}

#[test]
fn no_username_is_offered_twice() {
    let mut handler = handler_with(&["u1", "u2", "u3"], vec![SSHTrialMethod::Agent]);
    let calls = [
        CredentialType::USERNAME,
        CredentialType::SSH_KEY,
        CredentialType::USERNAME | CredentialType::DEFAULT,
        CredentialType::DEFAULT,
        CredentialType::empty(),
        CredentialType::USERNAME | CredentialType::SSH_KEY,
        CredentialType::USERNAME,
    ];
    let mut seen: Vec<String> = Vec::new();
    for allowed in calls {
        if let Answer::Done(Ok(credential)) = handler.handle_callback(URL, Some("alice"), allowed) {
            if let CredentialRequest::Username { name } = credential.request {
                assert!(!seen.contains(&name));
                seen.push(name);
            }
        }
    }
    assert_eq!(seen, vec!["u1".to_string(), "u2".to_string(), "u3".to_string()]);
    assert!(handler.usernames().is_empty());
}

#[test]
fn a_request_is_always_for_an_allowed_kind() {
    let all = [
        CredentialType::USERNAME,
        CredentialType::SSH_KEY,
        CredentialType::USER_PASS_PLAINTEXT,
        CredentialType::DEFAULT,
    ];
    for mask in 0u32..16 {
        let mut allowed = CredentialType::empty();
        for (bit, kind) in all.iter().enumerate() {
            if mask & (1 << bit) != 0 {
                allowed |= *kind;
            }
        }
        let mut handler = AuthHandler::default_with_config(config(), None);
        match handler.handle_callback(URL, Some("alice"), allowed) {
            Answer::Done(Ok(credential)) => {
                let flag = match credential.kind() {
                    CredentialKind::Username => CredentialType::USERNAME,
                    CredentialKind::SshKey => CredentialType::SSH_KEY,
                    CredentialKind::UserPassPlaintext => CredentialType::USER_PASS_PLAINTEXT,
                    CredentialKind::Default => CredentialType::DEFAULT,
                };
                assert!(allowed.contains(flag));
                assert_eq!(credential.cred.credtype(), flag.bits());
            },
            Answer::Done(Err(e)) => assert_eq!(e, AuthError::Exhausted),
            Answer::AskHelper(request) => {
                assert!(allowed.contains(CredentialType::USER_PASS_PLAINTEXT));
                assert!(!allowed.contains(CredentialType::USERNAME));
                assert!(!allowed.contains(CredentialType::SSH_KEY));
                assert_eq!(request, plaintext_request(URL, Some("alice")));
            },
        }
    }
}

#[test]
fn wellformed_usernames_always_get_a_credential() {
    let mut handler = handler_with(&["", "git", "a b", "\u{e9}t\u{e9}", "x@example.com"], vec![]);
    for name in ["", "git", "a b", "\u{e9}t\u{e9}", "x@example.com"] {
        let credential = credential(handler.handle_username_callback());
        assert_eq!(credential.request, username_request(name));
        assert_eq!(credential.cred.credtype(), CredentialType::USERNAME.bits());
    }
    assert_eq!(failure(handler.handle_username_callback()), AuthError::UsernamesExhausted);
}

#[test]
fn helper_request_carries_the_callback() {
    let mut handler = handler_with(&["git"], vec![SSHTrialMethod::Agent]);
    let answer = handler.handle_callback(
        "https://example.com/a.git",
        None,
        CredentialType::USER_PASS_PLAINTEXT | CredentialType::DEFAULT,
    );
    let request = helper_request(answer);
    assert_eq!(request, plaintext_request("https://example.com/a.git", None));
    // Nothing was used up, and the callback is on record.
    assert_eq!(handler.usernames().len(), 1);
    assert_eq!(handler.ssh_trial_methods().len(), 1);
    assert_eq!(handler.callback_url(), Some(&"https://example.com/a.git".to_string()));
    assert_eq!(handler.callback_username(), None);
    // An empty configuration names no helper, so the helper has no answer.
    match failure(run_helper(&handler, request)) {
        AuthError::Collaborator(e) => assert_eq!(
            e.message(),
            "failed to acquire username/password from local configuration"
        ),
        other => panic!("expected the helper's error, got {:?}", other),
    }
}
