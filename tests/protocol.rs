use soteria::{
    ends_attempt, handshake, has_prefix, is_lockout_notice, parse_helper_line, password_reply, scrub,
    str_contains, str_equals, trim, HelperDirective, HelperEndpoint,
};

#[test]
fn parses_prompt_with_trimmed_text() {
    match parse_helper_line("PAM_PROMPT_ECHO_OFF Password: ") {
        HelperDirective::EchoOffPrompt { prompt } => assert_eq!(prompt, "Password:"),
        _ => panic!("expected a prompt"),
    }
}

#[test]
fn parses_info_failure_success() {
    match parse_helper_line("PAM_TEXT_INFO\tAccount locked for 5 minutes\n") {
        HelperDirective::TextInfo { text } => assert_eq!(text, "Account locked for 5 minutes"),
        _ => panic!("expected info"),
    }
    assert!(matches!(parse_helper_line("FAILURE"), HelperDirective::Failure));
    assert!(matches!(parse_helper_line("SUCCESS"), HelperDirective::Success));
    assert!(matches!(parse_helper_line("SUCCESSFUL"), HelperDirective::Success));
    assert!(matches!(parse_helper_line("PAM_ERROR_MSG x"), HelperDirective::Unrecognized));
    assert!(matches!(parse_helper_line(""), HelperDirective::Unrecognized));
    assert!(matches!(parse_helper_line(" SUCCESS"), HelperDirective::Unrecognized));
}

#[test]
fn trim_matches_std() {
    for s in ["", "   ", " a b ", "\u{3000}x\u{2028}", "\t\r\nend", "plain"] {
        assert_eq!(trim(s), s.trim());
    }
}

#[test]
fn string_helpers() {
    assert!(has_prefix("FAILURE now", "FAILURE"));
    assert!(!has_prefix("FAIL", "FAILURE"));
    assert!(str_equals("Password:", "Password:"));
    assert!(!str_equals("Password: ", "Password:"));
    assert!(str_contains("due to 5 minutes", "minute"));
    assert!(str_contains("abc", ""));
    assert!(!str_contains("min", "minute"));
}

#[test]
fn lockout_notice_detection() {
    assert!(is_lockout_notice("Account locked for 5 minutes due to too many attempts"));
    assert!(is_lockout_notice("The account will unlock in 2 minutes"));
    assert!(!is_lockout_notice("Account locked"));
    assert!(!is_lockout_notice("Try again in 5 minutes"));
    assert!(is_lockout_notice("Account locked for 30 seconds"));
    assert!(is_lockout_notice("Account locked for 1 hour"));
    assert!(!is_lockout_notice("Account locked for a while"));
}

#[test]
fn verdicts_end_an_attempt() {
    assert!(ends_attempt("FAILURE"));
    assert!(ends_attempt("SUCCESS"));
    assert!(!ends_attempt("PAM_TEXT_INFO FAILURE"));
    assert!(!ends_attempt("PAM_PROMPT_ECHO_OFF Password:"));
    assert!(!ends_attempt(""));
}

#[test]
fn handshake_forms() {
    assert_eq!(handshake(HelperEndpoint::Persistent, "alice", "c1"), "alice\nc1\n");
    assert_eq!(handshake(HelperEndpoint::Spawned, "alice", "c1"), "c1\n");
}

#[test]
fn reply_and_scrub() {
    assert_eq!(password_reply("secret".to_string()), "secret\n");
    let mut s = "secret".to_string();
    scrub(&mut s);
    assert_eq!(s, "");
}
