use sherpa_server::auth::cookies::create_session_cookie;
use sherpa_server::auth::context::AuthContext;
use sherpa_server::auth::cookies::{
    create_auth_cookie, create_clear_cookie, extract_token_from_cookie, extract_tokens_from_cookie,
    COOKIE_MAX_AGE_NORMAL, COOKIE_MAX_AGE_REMEMBER,
};

#[test]
fn test_regular_user_can_access_own_resources() {
    let ctx = AuthContext::new("alice".to_string(), false);
    assert!(ctx.can_access("alice"));
    assert!(!ctx.can_access("bob"));
}

#[test]
fn test_admin_can_access_all_resources() {
    let ctx = AuthContext::new("admin".to_string(), true);
    assert!(ctx.can_access("alice"));
    assert!(ctx.can_access("bob"));
    assert!(ctx.can_access("admin"));
}

#[test]
fn test_user_cannot_access_others_resources() {
    let ctx = AuthContext::new("alice".to_string(), false);
    assert!(!ctx.can_access("bob"));
    assert!(!ctx.can_access("charlie"));
}

#[test]
fn test_create_auth_cookie_normal() {
    let token = "test_token_123";
    let cookie = create_auth_cookie(token, false);

    assert!(cookie.contains("sherpa_auth=test_token_123"));
    assert!(cookie.contains("HttpOnly"));
    assert!(cookie.contains("SameSite=Strict"));
    assert!(cookie.contains(&format!("Max-Age={}", COOKIE_MAX_AGE_NORMAL)));
    assert!(cookie.contains("Path=/"));
}

#[test]
fn test_create_auth_cookie_remember_me() {
    let token = "test_token_456";
    let cookie = create_auth_cookie(token, true);

    assert!(cookie.contains("sherpa_auth=test_token_456"));
    assert!(cookie.contains(&format!("Max-Age={}", COOKIE_MAX_AGE_REMEMBER)));
}

#[test]
fn test_create_clear_cookie() {
    let cookie = create_clear_cookie();

    assert!(cookie.contains("sherpa_auth="));
    assert!(cookie.contains("Max-Age=0"));
    assert!(cookie.contains("HttpOnly"));
    assert!(cookie.contains("SameSite=Strict"));
}

#[test]
fn test_extract_token_from_cookie_found() {
    let cookie_header = "sherpa_auth=my_token_123; other_cookie=value";
    let token = extract_token_from_cookie(cookie_header);

    assert_eq!(token, Some("my_token_123".to_string()));
}

#[test]
fn test_extract_token_from_cookie_only_auth() {
    let cookie_header = "sherpa_auth=just_this_token";
    let token = extract_token_from_cookie(cookie_header);

    assert_eq!(token, Some("just_this_token".to_string()));
}

#[test]
fn test_extract_token_from_cookie_not_found() {
    let cookie_header = "other_cookie=value; another=thing";
    let token = extract_token_from_cookie(cookie_header);

    assert_eq!(token, None);
}

#[test]
fn test_extract_token_from_cookie_empty() {
    let token = extract_token_from_cookie("");

    assert_eq!(token, None);
}

#[test]
fn auth_cookie_has_exact_layout() {
    assert_eq!(
        create_auth_cookie("abc", false),
        "sherpa_auth=abc; Path=/; HttpOnly; SameSite=Strict; Max-Age=604800"
    );
    assert_eq!(
        create_auth_cookie("abc", true),
        "sherpa_auth=abc; Path=/; HttpOnly; SameSite=Strict; Max-Age=2592000"
    );
    assert_eq!(
        create_clear_cookie(),
        "sherpa_auth=; Path=/; HttpOnly; SameSite=Strict; Max-Age=0; Expires=Thu, 01 Jan 1970 00:00:00 GMT"
    );
}

#[test]
fn created_cookie_reads_back_its_token() {
    let cookie = create_auth_cookie("eyJ.abc.def", true);
    assert_eq!(
        extract_token_from_cookie(&cookie),
        Some("eyJ.abc.def".to_string())
    );
}

#[test]
fn every_auth_cookie_is_extracted_in_order() {
    let tokens = extract_tokens_from_cookie("sherpa_auth=one;x=y;  sherpa_auth=two ; sherpa_auth");
    assert_eq!(tokens, vec!["one".to_string(), "two".to_string()]);
    assert_eq!(
        extract_token_from_cookie("a=b;\tsherpa_auth==x= "),
        Some("=x=".to_string())
    );
}

#[test]
fn browser_cookie_round_trip() {
    for token in ["", "a.b.c", "x=y", "two words"] {
        let header = format!("{}={}", "sherpa_auth", token);
        assert_eq!(extract_token_from_cookie(&header), Some(token.to_string()));
        assert_eq!(
            extract_token_from_cookie(&create_auth_cookie(token, false)),
            Some(token.to_string())
        );
    }
}

#[test]
fn https_servers_mark_the_cookie_secure() {
    assert_eq!(
        create_session_cookie("abc", false, true),
        "sherpa_auth=abc; Path=/; HttpOnly; SameSite=Strict; Max-Age=604800; Secure"
    );
    assert_eq!(create_session_cookie("abc", true, false), create_auth_cookie("abc", true));
    assert_eq!(
        extract_token_from_cookie(&create_session_cookie("t.o.k", true, true)),
        Some("t.o.k".to_string())
    );
}
