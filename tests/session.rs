use soteria::{
    Action, AgentError, AuthenticationAgentEvent, AuthenticationUserEvent, Coordinator,
    SessionPhase,
};

fn started(co: &mut Coordinator, cookie: &str) -> Vec<Action> {
    co.begin(cookie.to_string(), "Authenticate to continue".to_string(), vec!["root".to_string()])
        .expect("fresh cookie is accepted")
}

fn submit(co: &mut Coordinator, cookie: &str, password: &str) -> Vec<Action> {
    co.user_event(AuthenticationUserEvent::ProvidedPassword {
        cookie: cookie.to_string(),
        username: "alice".to_string(),
        password: password.to_string(),
    })
}

fn retry_message(actions: &[Action]) -> Option<String> {
    match actions {
        [Action::Emit { event: AuthenticationAgentEvent::AuthorizationRetry { retry_message, .. } }] => {
            retry_message.clone()
        }
        _ => None,
    }
}

#[test]
fn begin_emits_started_with_names() {
    let mut co = Coordinator::new();
    let actions = started(&mut co, "c1");
    assert_eq!(actions.len(), 1);
    match &actions[0] {
        Action::Emit { event: AuthenticationAgentEvent::Started { cookie, message, names } } => {
            assert_eq!(cookie, "c1");
            assert_eq!(message, "Authenticate to continue");
            assert_eq!(names, &vec!["root".to_string()]);
        }
        _ => panic!("expected Started"),
    }
    assert!(co.is_active("c1"));
    assert_eq!(co.phase_of("c1"), Some(SessionPhase::AwaitingCredential));
}

#[test]
fn password_prompt_then_success() {
    let mut co = Coordinator::new();
    started(&mut co, "c1");
    let open = submit(&mut co, "c1", "secret");
    assert!(matches!(&open[..], [Action::OpenHelper { cookie, username }] if cookie == "c1" && username == "alice"));
    assert_eq!(co.phase_of("c1"), Some(SessionPhase::Verifying));

    let write = co.helper_line("c1", "PAM_PROMPT_ECHO_OFF Password:");
    assert_eq!(write.len(), 1);
    match &write[0] {
        Action::WriteHelper { cookie, data } => {
            assert_eq!(cookie, "c1");
            assert_eq!(data, "secret\n");
        }
        _ => panic!("expected a write"),
    }
    // The password was handed out once; a repeated prompt gets nothing.
    assert!(co.helper_line("c1", "PAM_PROMPT_ECHO_OFF Password:").is_empty());

    let done = co.helper_line("c1", "SUCCESS");
    assert_eq!(done.len(), 2);
    assert!(matches!(&done[0], Action::Emit { event: AuthenticationAgentEvent::AuthorizationSucceeded { cookie } } if cookie == "c1"));
    assert!(matches!(&done[1], Action::Finish { cookie, result: Ok(()) } if cookie == "c1"));
    assert!(!co.is_active("c1"));
}

#[test]
fn lockout_notice_is_remembered_for_failure() {
    let mut co = Coordinator::new();
    started(&mut co, "c1");
    submit(&mut co, "c1", "wrong");
    let info = co.helper_line("c1", "PAM_TEXT_INFO Account locked for 5 minutes due to too many attempts");
    assert_eq!(
        retry_message(&info),
        Some("Account locked for 5 minutes due to too many attempts".to_string())
    );
    let failure = co.helper_line("c1", "FAILURE");
    assert_eq!(
        retry_message(&failure),
        Some("Account locked for 5 minutes due to too many attempts".to_string())
    );
    assert_eq!(co.phase_of("c1"), Some(SessionPhase::AwaitingCredential));
}

#[test]
fn failure_without_info_uses_fallback() {
    let mut co = Coordinator::new();
    started(&mut co, "c1");
    submit(&mut co, "c1", "wrong");
    let failure = co.helper_line("c1", "FAILURE");
    assert_eq!(
        retry_message(&failure),
        Some("Authentication failed. Please try again.".to_string())
    );
    // The session waits for a new attempt; the helper's exit is no error.
    assert!(co.helper_closed("c1").is_empty());
    assert!(co.is_active("c1"));
}

#[test]
fn ordinary_info_is_not_shown() {
    let mut co = Coordinator::new();
    started(&mut co, "c1");
    submit(&mut co, "c1", "pw");
    assert!(co.helper_line("c1", "PAM_TEXT_INFO Welcome back").is_empty());
    assert!(co.helper_line("c1", "SOMETHING ELSE").is_empty());
    assert!(co.helper_line("c1", "PAM_PROMPT_ECHO_OFF Token:").is_empty());
}

#[test]
fn cancel_while_awaiting_resolves_cancelled() {
    let mut co = Coordinator::new();
    started(&mut co, "c1");
    let actions = co.cancel("c1");
    assert_eq!(actions.len(), 2);
    assert!(matches!(&actions[0], Action::Emit { event: AuthenticationAgentEvent::Canceled { cookie } } if cookie == "c1"));
    assert!(matches!(&actions[1], Action::Finish { cookie, result: Err(AgentError::Cancelled) } if cookie == "c1"));
    assert!(!co.is_active("c1"));
}

#[test]
fn user_cancel_resolves_cancelled() {
    let mut co = Coordinator::new();
    started(&mut co, "c1");
    let actions = co.user_event(AuthenticationUserEvent::Canceled { cookie: "c1".to_string() });
    assert!(matches!(&actions[1], Action::Finish { result: Err(AgentError::Cancelled), .. }));
}

#[test]
fn cancel_twice_is_noop() {
    let mut co = Coordinator::new();
    started(&mut co, "c1");
    assert_eq!(co.cancel("c1").len(), 2);
    assert!(co.cancel("c1").is_empty());
    assert!(co.cancel("c1").is_empty());
    assert!(co.cancel("unknown").is_empty());
}

#[test]
fn duplicate_begin_is_rejected() {
    let mut co = Coordinator::new();
    started(&mut co, "c1");
    submit(&mut co, "c1", "pw");
    let second = co.begin("c1".to_string(), "again".to_string(), vec![]);
    assert!(matches!(second, Err(AgentError::DuplicateCookie)));
    assert_eq!(co.active_count(), 1);
    assert_eq!(co.phase_of("c1"), Some(SessionPhase::Verifying));
}

#[test]
fn reused_cookie_after_end_is_rejected() {
    let mut co = Coordinator::new();
    started(&mut co, "c1");
    co.cancel("c1");
    assert!(matches!(
        co.begin("c1".to_string(), "m".to_string(), vec![]),
        Err(AgentError::DuplicateCookie)
    ));
}

#[test]
fn nothing_follows_a_terminal_event() {
    let mut co = Coordinator::new();
    started(&mut co, "c1");
    started(&mut co, "c2");
    submit(&mut co, "c1", "pw");
    submit(&mut co, "c2", "pw");
    co.helper_line("c1", "SUCCESS");
    assert!(co.helper_line("c1", "FAILURE").is_empty());
    assert!(co.helper_line("c1", "PAM_TEXT_INFO locked for 1 minute").is_empty());
    assert!(co.helper_closed("c1").is_empty());
    assert!(co.cancel("c1").is_empty());
    assert!(submit(&mut co, "c1", "pw").is_empty());
    // The other cookie goes on.
    assert_eq!(retry_message(&co.helper_line("c2", "FAILURE")), Some("Authentication failed. Please try again.".to_string()));
}

#[test]
fn helper_close_before_verdict_fails() {
    let mut co = Coordinator::new();
    started(&mut co, "c1");
    submit(&mut co, "c1", "pw");
    let actions = co.helper_closed("c1");
    assert!(matches!(&actions[0], Action::Emit { event: AuthenticationAgentEvent::Canceled { .. } }));
    assert!(matches!(&actions[1], Action::Finish { result: Err(AgentError::Failed), .. }));
}

#[test]
fn password_for_unknown_or_busy_session_is_ignored() {
    let mut co = Coordinator::new();
    assert!(submit(&mut co, "nobody", "pw").is_empty());
    started(&mut co, "c1");
    submit(&mut co, "c1", "first");
    assert!(submit(&mut co, "c1", "second").is_empty());
    match &co.helper_line("c1", "PAM_PROMPT_ECHO_OFF  Password:  ")[0] {
        Action::WriteHelper { data, .. } => assert_eq!(data, "first\n"),
        _ => panic!("expected a write"),
    }
}

#[test]
fn lines_before_a_submission_are_ignored() {
    let mut co = Coordinator::new();
    started(&mut co, "c1");
    assert!(co.helper_line("c1", "SUCCESS").is_empty());
    assert!(co.helper_closed("c1").is_empty());
    assert!(co.is_active("c1"));
}

#[test]
fn event_accessors() {
    let ev = AuthenticationUserEvent::ProvidedPassword {
        cookie: "c9".to_string(),
        username: "u".to_string(),
        password: "p".to_string(),
    };
    assert_eq!(ev.cookie(), "c9");
    let retry = AuthenticationAgentEvent::AuthorizationRetry { cookie: "c8".to_string(), retry_message: None };
    assert_eq!(retry.cookie(), "c8");
}
