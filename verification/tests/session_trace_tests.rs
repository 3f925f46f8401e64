use sherpa_server::auth::session::{
    admin_page_user, cookie_page_user, AdminPageRefusal, ValidatedCookieSession,
    admin_redirect_for_session_error, reads_signed_claims, redirect_for_session_error,
    session_claims, trace_rejected_session, AuthRedirect, Claims, CookieSessionError,
    JwtErrorKind, LogLevel, RejectedSessionCandidate, SessionFailureReason,
};

fn expired_alice() -> RejectedSessionCandidate {
    RejectedSessionCandidate {
        index: 0,
        reason: SessionFailureReason::Expired,
        signed_claims: Some(Claims { sub: "alice".to_string(), exp: 100, iat: 50, is_admin: false }),
    }
}

fn malformed(index: usize) -> RejectedSessionCandidate {
    RejectedSessionCandidate { index, reason: SessionFailureReason::Malformed, signed_claims: None }
}

#[test]
fn admin_pages_send_every_failed_login_to_session_required() {
    let missing = CookieSessionError::Missing;
    let invalid = CookieSessionError::Invalid {
        candidate_count: 2,
        rejected_candidates: vec![expired_alice(), malformed(1)],
    };
    for error in [&missing, &invalid] {
        let redirect = admin_redirect_for_session_error(error);
        assert_eq!(redirect, AuthRedirect::SessionRequired);
        assert_eq!(redirect.location(), "/login?error=session_required");
        assert!(!redirect.clears_cookie());
        assert_eq!(redirect.status_code(), 303);
    }
    // Other pages still tell an expired session apart.
    assert_eq!(redirect_for_session_error(&invalid).location(), "/login?error=session_expired");
}

#[test]
fn suspicious_rejection_warns_without_username_then_clears() {
    let error = CookieSessionError::Invalid {
        candidate_count: 2,
        rejected_candidates: vec![expired_alice(), malformed(1)],
    };
    let events = trace_rejected_session("/", &error, "redirect_to_login");
    assert_eq!(events.len(), 2);
    assert_eq!(events[0].level, LogLevel::Warn);
    assert_eq!(
        events[0].line,
        "event=auth.session_rejected path=/ action=redirect_to_login cookie_candidate_count=2 validation_reasons=[\"expired\", \"malformed\"] message=\"Rejected invalid session cookies\""
    );
    assert!(!events[0].line.contains("username"));
    assert_eq!(events[1].level, LogLevel::Info);
    assert_eq!(
        events[1].line,
        "event=auth.session_cleared path=/ action=redirect_to_login cookie_candidate_count=2 message=\"Clearing invalid session cookie\""
    );
}

#[test]
fn expired_rejection_logs_the_signed_claims() {
    let error = CookieSessionError::Invalid {
        candidate_count: 1,
        rejected_candidates: vec![expired_alice()],
    };
    let events = trace_rejected_session("/labs", &error, "redirect_to_login");
    assert_eq!(events.len(), 2);
    assert_eq!(events[0].level, LogLevel::Info);
    assert_eq!(
        events[0].line,
        "event=auth.session_rejected path=/labs action=redirect_to_login cookie_candidate_count=1 validation_reasons=[\"expired\"] username=alice is_admin=false issued_at=50 expires_at=100 message=\"Rejected expired session cookie\""
    );
    assert!(events[1].line.starts_with("event=auth.session_cleared"));
}

#[test]
fn invalid_claims_rejection_is_information() {
    let error = CookieSessionError::Invalid {
        candidate_count: 1,
        rejected_candidates: vec![RejectedSessionCandidate {
            index: 0,
            reason: SessionFailureReason::InvalidClaims,
            signed_claims: None,
        }],
    };
    let events = trace_rejected_session("/", &error, "reject");
    assert_eq!(events[0].level, LogLevel::Info);
    assert!(events[0].line.ends_with("message=\"Rejected invalid session cookies\""));
    assert_eq!(events[1].level, LogLevel::Info);
}

#[test]
fn missing_session_is_one_debug_event() {
    let events = trace_rejected_session("/admin", &CookieSessionError::Missing, "redirect_to_login");
    assert_eq!(events.len(), 1);
    assert_eq!(events[0].level, LogLevel::Debug);
    assert_eq!(
        events[0].line,
        "event=auth.session_missing path=/admin action=redirect_to_login message=\"No session cookie was supplied\""
    );
}

#[test]
fn only_expired_tokens_are_read_again() {
    assert!(reads_signed_claims(Some(JwtErrorKind::ExpiredSignature)));
    assert!(!reads_signed_claims(Some(JwtErrorKind::InvalidSignature)));
    assert!(!reads_signed_claims(Some(JwtErrorKind::InvalidToken)));
    assert!(!reads_signed_claims(None));
}

#[test]
fn new_token_claims_expire_after_the_lifetime() {
    let c = session_claims("bob".to_string(), true, 1_000, 604_800).unwrap();
    assert_eq!(c.sub, "bob");
    assert!(c.is_admin);
    assert_eq!(c.iat, 1_000);
    assert_eq!(c.exp, 605_800);
    assert!(session_claims("bob".to_string(), false, i64::MAX, 1).is_none());
}

fn session_of(user: &str, is_admin: bool) -> ValidatedCookieSession {
    ValidatedCookieSession {
        claims: Claims { sub: user.to_string(), exp: 200, iat: 100, is_admin },
        candidate_count: 1,
        selected_index: 0,
        rejected_candidates: vec![],
    }
}

#[test]
fn admin_page_decisions() {
    match admin_page_user(Ok(session_of("root", true))) {
        Ok(a) => assert_eq!(a.username, "root"),
        Err(_) => panic!("an admin is admitted"),
    }
    match admin_page_user(Ok(session_of("alice", false))) {
        Err(AdminPageRefusal::Forbidden(f)) => assert_eq!(f.username, "alice"),
        _ => panic!("a user without admin rights gets the 403 page"),
    }
    let all_rejected = CookieSessionError::Invalid {
        candidate_count: 1,
        rejected_candidates: vec![expired_alice()],
    };
    match admin_page_user(Err(all_rejected)) {
        Err(AdminPageRefusal::Redirect(r)) => {
            assert_eq!(r.location(), "/login?error=session_required")
        }
        _ => panic!("a failed login is redirected"),
    }
    match admin_page_user(Err(CookieSessionError::Missing)) {
        Err(AdminPageRefusal::Redirect(r)) => assert_eq!(r, AuthRedirect::SessionRequired),
        _ => panic!("a missing session is redirected"),
    }
}

#[test]
fn cookie_page_decisions() {
    match cookie_page_user(Ok(session_of("alice", false))) {
        Ok(u) => {
            assert_eq!(u.username, "alice");
            assert!(!u.is_admin);
        }
        Err(_) => panic!("a valid session is admitted"),
    }
    match cookie_page_user(Err(CookieSessionError::Missing)) {
        Err(r) => assert_eq!(r, AuthRedirect::SessionRequired),
        Ok(_) => panic!("no session"),
    }
    let all_rejected = CookieSessionError::Invalid {
        candidate_count: 1,
        rejected_candidates: vec![malformed(0)],
    };
    match cookie_page_user(Err(all_rejected)) {
        Err(r) => {
            assert_eq!(r.location(), "/login?error=session_expired");
            assert!(r.clears_cookie());
        }
        Ok(_) => panic!("rejected session"),
    }
}
