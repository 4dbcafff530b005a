use loopback_auth::listener::{next_bind_attempt, BindAttempt, FIXED_PORT};
use loopback_auth::page::{bridge_page, BRIDGE_PAGE, MISMATCH_TEXT, SUCCESS_PAGE};
use loopback_auth::router::{classify, RequestKind};
use loopback_auth::session::{AuthSession, SessionStatus};
use loopback_auth::token::issue_state;

fn token_target(state: &str) -> String {
    format!("/token?state={}", state)
}

#[test]
fn issued_states_have_uuid_shape_and_differ() {
    let a = issue_state();
    let b = issue_state();
    assert_eq!(a.len(), 36);
    assert_eq!(b.len(), 36);
    assert_ne!(a, b);
    for (i, c) in a.chars().enumerate() {
        if i == 8 || i == 13 || i == 18 || i == 23 {
            assert_eq!(c, '-');
        } else {
            assert!(c.is_ascii_digit() || ('a'..='f').contains(&c));
        }
    }
    assert_eq!(a.chars().nth(14), Some('4'));
}

#[test]
fn sessions_get_distinct_states_and_keep_their_port() {
    let s1 = AuthSession::new(3000);
    let s2 = AuthSession::new(54321);
    let i1 = s1.info();
    let i2 = s2.info();
    assert_eq!(i1.port, 3000);
    assert_eq!(i2.port, 54321);
    assert_ne!(i1.state, i2.state);
    assert_eq!(i1.state, s1.state());
    assert_eq!(s1.port(), 3000);
    assert_eq!(s1.status(), SessionStatus::Pending);
    assert!(!s1.is_terminated());
}

#[test]
fn wrong_state_gets_403_and_no_relay() {
    let mut s = AuthSession::new(3000);
    let wrong = format!("{}x", s.state());
    let out = s.handle(true, &token_target(&wrong), Some("access_token=abc".to_string()));
    assert!(out.relay.is_none());
    let reply = out.reply.unwrap();
    assert_eq!(reply.status, 403);
    assert!(!reply.html);
    assert_eq!(reply.body, "Unauthorized: State mismatch");
    assert_eq!(reply.body, MISMATCH_TEXT);
    assert_eq!(s.status(), SessionStatus::Pending);
}

#[test]
fn missing_or_truncated_state_gets_403() {
    let mut s = AuthSession::new(3000);
    let state = s.state().to_string();
    for target in [
        "/token".to_string(),
        "/token?".to_string(),
        "/token?foo=bar".to_string(),
        token_target(&state[..35]),
        format!("/token?xstate={}", state),
        format!("/token?state=bad&state={}", state),
    ] {
        let out = s.handle(true, &target, Some("access_token=abc".to_string()));
        assert!(out.relay.is_none(), "{}", target);
        assert_eq!(out.reply.unwrap().status, 403, "{}", target);
    }
    assert_eq!(s.status(), SessionStatus::Pending);
}

#[test]
fn correct_state_relays_body_once_and_ends_session() {
    let mut s = AuthSession::new(3000);
    let target = token_target(s.state());
    let body = "access_token=abc123&token_type=Bearer".to_string();
    assert_eq!(s.classify(true, &target), RequestKind::Token);
    let out = s.handle(true, &target, Some(body));
    assert_eq!(out.relay.as_deref(), Some("access_token=abc123&token_type=Bearer"));
    let reply = out.reply.unwrap();
    assert_eq!(reply.status, 200);
    assert!(reply.html);
    assert_eq!(reply.body, SUCCESS_PAGE);
    assert_eq!(s.status(), SessionStatus::Fulfilled);
    assert!(s.is_terminated());
    let later = s.handle(false, "/", None);
    assert!(later.relay.is_none());
    assert!(later.reply.is_none());
}

#[test]
fn second_correct_submission_is_not_relayed() {
    let mut s = AuthSession::new(3000);
    let target = token_target(s.state());
    let first = s.handle(true, &target, Some("access_token=one".to_string()));
    let second = s.handle(true, &target, Some("access_token=two".to_string()));
    assert_eq!(first.relay.as_deref(), Some("access_token=one"));
    assert!(second.relay.is_none());
    assert!(second.reply.is_none());
}

#[test]
fn unreadable_body_relays_empty_payload() {
    let mut s = AuthSession::new(3000);
    let target = token_target(s.state());
    let out = s.handle(true, &target, None);
    assert_eq!(out.relay.as_deref(), Some(""));
    assert_eq!(out.reply.unwrap().status, 200);
}

#[test]
fn state_may_follow_other_parameters() {
    let mut s = AuthSession::new(3000);
    let target = format!("/token?a=1&state={}&b=2", s.state());
    let out = s.handle(true, &target, Some("x".to_string()));
    assert_eq!(out.relay.as_deref(), Some("x"));
}

#[test]
fn other_requests_get_the_bridge_page() {
    let mut s = AuthSession::new(3000);
    let state = s.state().to_string();
    for (is_post, target) in [
        (false, "/".to_string()),
        (false, "/?state=abc&code=1".to_string()),
        (false, "/favicon.ico".to_string()),
        (false, token_target(&state)),
        (true, "/".to_string()),
        (true, format!("/tokens?state={}", state)),
        (true, format!("/token/x?state={}", state)),
    ] {
        let out = s.handle(is_post, &target, Some("access_token=abc".to_string()));
        assert!(out.relay.is_none(), "{}", target);
        let reply = out.reply.unwrap();
        assert_eq!(reply.status, 200);
        assert!(reply.html);
        assert!(reply.body.contains("id=\"status\""));
        assert!(reply.body.contains("id=\"spinner\""));
        assert!(reply.body.contains("id=\"desc\""));
        assert!(reply.body.contains("/token?state="));
    }
    assert_eq!(s.status(), SessionStatus::Pending);
}

#[test]
fn bridge_page_is_byte_identical_across_requests() {
    let mut s = AuthSession::new(3000);
    let a = s.handle(false, "/?x=1", None).reply.unwrap();
    let b = s.handle(false, "/other?state=zzz", None).reply.unwrap();
    assert_eq!(a.body, b.body);
    assert_eq!(a.body, BRIDGE_PAGE);
    assert_eq!(bridge_page(), bridge_page());
}

#[test]
fn aborted_session_answers_nothing() {
    let mut s = AuthSession::new(3000);
    let target = token_target(s.state());
    s.abort();
    assert_eq!(s.status(), SessionStatus::Aborted);
    assert!(s.is_terminated());
    let out = s.handle(true, &target, Some("access_token=abc".to_string()));
    assert!(out.relay.is_none());
    assert!(out.reply.is_none());
    s.abort();
    assert_eq!(s.status(), SessionStatus::Aborted);
}

#[test]
fn fulfilled_session_stays_fulfilled_on_abort() {
    let mut s = AuthSession::new(3000);
    let target = token_target(s.state());
    s.handle(true, &target, Some("t".to_string()));
    s.abort();
    assert_eq!(s.status(), SessionStatus::Fulfilled);
}

#[test]
fn classify_compares_the_whole_parameter() {
    assert_eq!(classify(true, "/token?state=abc", "abc"), RequestKind::Token);
    assert_eq!(classify(true, "/token?state=abcd", "abc"), RequestKind::StateMismatch);
    assert_eq!(classify(true, "/token?state=ab", "abc"), RequestKind::StateMismatch);
    assert_eq!(classify(true, "/token?state=", ""), RequestKind::Token);
    assert_eq!(classify(true, "/token?state=abc&state=x", "x"), RequestKind::StateMismatch);
    assert_eq!(classify(true, "/tokenstate=abc", "abc"), RequestKind::Bridge);
    assert_eq!(classify(false, "/token?state=abc", "abc"), RequestKind::Bridge);
}

#[test]
fn bind_tries_fixed_port_then_ephemeral() {
    assert_eq!(next_bind_attempt(None), Some(BindAttempt::Fixed));
    assert_eq!(next_bind_attempt(Some(BindAttempt::Fixed)), Some(BindAttempt::Ephemeral));
    assert_eq!(next_bind_attempt(Some(BindAttempt::Ephemeral)), None);
    assert_eq!(BindAttempt::Fixed.port(), 3000);
    assert_eq!(BindAttempt::Fixed.port(), FIXED_PORT);
    assert_eq!(BindAttempt::Ephemeral.port(), 0);
}
