use soteria::{App, AppMsg, AuthenticationAgentEvent, AuthenticationUserEvent};

fn start(app: &mut App, cookie: &str) {
    app.update(AppMsg::AuthEvent(AuthenticationAgentEvent::Started {
        cookie: cookie.to_string(),
        message: "Authenticate".to_string(),
        names: vec!["root".to_string(), "alice".to_string()],
    }));
}

#[test]
fn started_shows_request() {
    let mut app = App::new("Authenticating...".to_string());
    start(&mut app, "c1");
    assert_eq!(app.cookie(), &Some("c1".to_string()));
    assert_eq!(app.message(), "Authenticate");
    assert_eq!(app.identities().len(), 2);
    // A second request does not replace the one shown.
    start(&mut app, "c2");
    assert_eq!(app.cookie(), &Some("c1".to_string()));
}

#[test]
fn confirm_sends_password() {
    let mut app = App::new("Authenticating...".to_string());
    assert!(app.update(AppMsg::Confirm { user: "root".to_string(), password: "pw".to_string() }).is_none());
    start(&mut app, "c1");
    match app.update(AppMsg::Confirm { user: "root".to_string(), password: "pw".to_string() }) {
        Some(AuthenticationUserEvent::ProvidedPassword { cookie, username, password }) => {
            assert_eq!(cookie, "c1");
            assert_eq!(username, "root");
            assert_eq!(password, "pw");
        }
        _ => panic!("expected a password event"),
    }
    assert!(app.authenticating());
    assert_eq!(app.retry_message(), &Some("Authenticating...".to_string()));
}

#[test]
fn retry_and_success() {
    let mut app = App::new("busy".to_string());
    start(&mut app, "c1");
    app.update(AppMsg::AuthEvent(AuthenticationAgentEvent::AuthorizationRetry {
        cookie: "c1".to_string(),
        retry_message: Some("Authentication failed. Please try again.".to_string()),
    }));
    assert!(!app.authenticating());
    assert_eq!(app.retry_message(), &Some("Authentication failed. Please try again.".to_string()));
    app.update(AppMsg::AuthEvent(AuthenticationAgentEvent::AuthorizationSucceeded { cookie: "other".to_string() }));
    assert!(app.cookie().is_some());
    app.update(AppMsg::AuthEvent(AuthenticationAgentEvent::AuthorizationSucceeded { cookie: "c1".to_string() }));
    assert!(app.cookie().is_none());
    assert!(app.identities().is_empty());
}

#[test]
fn cancel_sends_canceled() {
    let mut app = App::new("busy".to_string());
    assert!(app.update(AppMsg::Cancel).is_none());
    start(&mut app, "c1");
    match app.update(AppMsg::Cancel) {
        Some(AuthenticationUserEvent::Canceled { cookie }) => assert_eq!(cookie, "c1"),
        _ => panic!("expected a cancel"),
    }
    assert!(app.cookie().is_none());
    assert_eq!(app.retry_message(), &Some(String::new()));
}

#[test]
fn authority_cancel_closes_prompt() {
    let mut app = App::new("busy".to_string());
    start(&mut app, "c1");
    app.update(AppMsg::AuthEvent(AuthenticationAgentEvent::Canceled { cookie: "c1".to_string() }));
    assert!(app.cookie().is_none());
    assert_eq!(app.message(), "");
}

#[test]
fn descriptions_hide_password() {
    let ev = AuthenticationUserEvent::ProvidedPassword {
        cookie: "c1".to_string(),
        username: "root".to_string(),
        password: "hunter2".to_string(),
    };
    assert_eq!(ev.describe(), "ProvidedPassword { cookie: \"c1\", username: \"root\" }");
    assert_eq!(
        AuthenticationUserEvent::Canceled { cookie: "c1".to_string() }.describe(),
        "Canceled { cookie: \"c1\" }"
    );
    let started = AuthenticationAgentEvent::Started {
        cookie: "c".to_string(),
        message: "m".to_string(),
        names: vec!["a".to_string(), "b".to_string()],
    };
    assert_eq!(started.describe(), "Started { cookie: \"c\", message: \"m\", names: [\"a\", \"b\"] }");
    let retry = AuthenticationAgentEvent::AuthorizationRetry { cookie: "c".to_string(), retry_message: None };
    assert_eq!(retry.describe(), "AuthorizationRetry { cookie: \"c\", retry_message: None }");
    assert!(!retry.is_terminal());
    assert!(AuthenticationAgentEvent::Canceled { cookie: "c".to_string() }.is_terminal());
}

#[test]
fn descriptions_escape_like_debug() {
    let cookie = "a\"b\\c\nd\u{0}".to_string();
    let canceled = AuthenticationUserEvent::Canceled { cookie: cookie.clone() };
    assert_eq!(canceled.describe(), "Canceled { cookie: \"a\\\"b\\\\c\\nd\\0\" }");
    assert_eq!(canceled.describe(), format!("Canceled {{ cookie: {:?} }}", cookie));
    let retry = AuthenticationAgentEvent::AuthorizationRetry {
        cookie: cookie.clone(),
        retry_message: Some("tab\there".to_string()),
    };
    assert_eq!(
        retry.describe(),
        format!("AuthorizationRetry {{ cookie: {:?}, retry_message: {:?} }}", cookie, Some("tab\there"))
    );
    let started = AuthenticationAgentEvent::Started {
        cookie: "c".to_string(),
        message: "say \"hi\"".to_string(),
        names: vec!["x\ny".to_string()],
    };
    assert_eq!(
        started.describe(),
        format!("Started {{ cookie: {:?}, message: {:?}, names: {:?} }}", "c", "say \"hi\"", vec!["x\ny"])
    );
}
