use sherpa_server::api::handlers::{
    login_start, login_step, LoginAction, LoginEvent, LoginForm, LoginState,
};

fn form(remember_me: bool) -> LoginForm {
    LoginForm { username: "alice".to_string(), password: "pw".to_string(), remember_me }
}

fn shown(action: &LoginAction) -> &'static str {
    match action {
        LoginAction::ShowError(m) => m,
        _ => panic!("expected an error message"),
    }
}

#[test]
fn admin_login_over_https_sets_a_secure_cookie_and_goes_to_admin() {
    let (state, action) = login_start(&form(true), true);
    assert!(matches!(action, LoginAction::FetchUser));
    let (state, action) =
        login_step(state, LoginEvent::UserFetched(Some(("alice".to_string(), true))));
    assert!(matches!(action, LoginAction::CheckPassword));
    let (state, action) = login_step(state, LoginEvent::PasswordChecked(Some(true)));
    match &action {
        LoginAction::SignToken { username, is_admin, expiry_seconds } => {
            assert_eq!(username, "alice");
            assert!(*is_admin);
            assert_eq!(*expiry_seconds, 2_592_000);
        }
        _ => panic!("expected token signing"),
    }
    let (state, action) = login_step(state, LoginEvent::TokenSigned(Some("tok".to_string())));
    assert!(matches!(state, LoginState::Finished));
    match action {
        LoginAction::Admit { cookie, location } => {
            assert_eq!(
                cookie,
                "sherpa_auth=tok; Path=/; HttpOnly; SameSite=Strict; Max-Age=2592000; Secure"
            );
            assert_eq!(location, "/admin");
        }
        _ => panic!("expected admission"),
    }
}

#[test]
fn user_login_without_tls_goes_home_for_seven_days() {
    let (state, _) = login_start(&form(false), false);
    let (state, _) = login_step(state, LoginEvent::UserFetched(Some(("alice".to_string(), false))));
    let (state, action) = login_step(state, LoginEvent::PasswordChecked(Some(true)));
    match &action {
        LoginAction::SignToken { expiry_seconds, .. } => assert_eq!(*expiry_seconds, 604_800),
        _ => panic!("expected token signing"),
    }
    let (_, action) = login_step(state, LoginEvent::TokenSigned(Some("t".to_string())));
    match action {
        LoginAction::Admit { cookie, location } => {
            assert_eq!(cookie, "sherpa_auth=t; Path=/; HttpOnly; SameSite=Strict; Max-Age=604800");
            assert_eq!(location, "/");
        }
        _ => panic!("expected admission"),
    }
}

#[test]
fn unknown_user_and_wrong_password_share_one_message() {
    let (state, _) = login_start(&form(false), false);
    let (state, action) = login_step(state, LoginEvent::UserFetched(None));
    assert!(matches!(state, LoginState::Finished));
    assert_eq!(shown(&action), "Invalid username or password");

    let (state, _) = login_start(&form(false), false);
    let (state, _) = login_step(state, LoginEvent::UserFetched(Some(("alice".to_string(), false))));
    let (state, action) = login_step(state, LoginEvent::PasswordChecked(Some(false)));
    assert!(matches!(state, LoginState::Finished));
    assert_eq!(shown(&action), "Invalid username or password");
}

#[test]
fn failing_checks_and_signing_report_an_authentication_error() {
    let (state, _) = login_start(&form(false), false);
    let (state, _) = login_step(state, LoginEvent::UserFetched(Some(("alice".to_string(), false))));
    let (_, action) = login_step(state, LoginEvent::PasswordChecked(None));
    assert_eq!(shown(&action), "An error occurred during authentication");

    let (state, _) = login_start(&form(false), false);
    let (state, _) = login_step(state, LoginEvent::UserFetched(Some(("alice".to_string(), false))));
    let (state, _) = login_step(state, LoginEvent::PasswordChecked(Some(true)));
    let (_, action) = login_step(state, LoginEvent::TokenSigned(None));
    assert_eq!(shown(&action), "An error occurred during authentication");
}
