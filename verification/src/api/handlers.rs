//! Decisions of the HTTP handlers: form checks, error messages, redirects and
//! the shaping of listings. The handlers themselves run them around their I/O.
use crate::api::errors::{classify_error_chain, contains, ApiError, ApiErrorView};
use crate::auth::cookies::{
    create_session_cookie, session_cookie, session_max_age, COOKIE_MAX_AGE_NORMAL,
    COOKIE_MAX_AGE_REMEMBER,
};
use crate::text::{
    chars_of, compare_chars, contains_seq, decimal_int, find_in, find_seq, lemma_lex_order,
    lemma_lex_transitive, lex_lt, push_decimal_i64, push_slice, Order,
    push_str_chars, slice_eq, str_is, string_from_chars, string_of_range, trim, trim_bounds,
};
use vstd::prelude::*;

verus! {

/// Login form data.
pub struct LoginForm {
    pub username: String,
    pub password: String,
    pub remember_me: bool,
}

/// Signup form data.
pub struct SignupForm {
    pub username: String,
    pub password: String,
    pub confirm_password: String,
}

/// Password change form data.
pub struct UpdatePasswordForm {
    pub current_password: String,
    pub new_password: String,
    pub confirm_new_password: String,
}

/// SSH key addition form data.
pub struct AddSshKeyForm {
    pub ssh_key: String,
}

/// A user as listed on the admin dashboard.
pub struct UserSummary {
    pub username: String,
    pub is_admin: bool,
    pub ssh_key_count: usize,
    pub lab_count: usize,
    pub created_at_formatted: String,
}

/// Admin password change form data.
pub struct AdminUpdatePasswordForm {
    pub new_password: String,
    pub confirm_new_password: String,
}

/// Admin SSH key addition form data.
pub struct AdminAddSshKeyForm {
    pub ssh_key: String,
}

/// Path parameters naming a node image, with an optional version.
pub struct NodeImagePath {
    pub model: String,
    pub version: Option<String>,
}

/// A node image as listed on the admin pages.
pub struct NodeImageSummary {
    pub model: String,
    pub kind: String,
    pub version: String,
    pub cpu_count: u8,
    pub memory: u16,
    pub data_interface_count: u8,
    pub default: bool,
}

/// Node image update form data.
pub struct NodeImageForm {
    pub version: String,
    pub repo: Option<String>,
    pub os_variant: String,
    pub bios: String,
    pub cpu_count: u8,
    pub cpu_architecture: String,
    pub cpu_model: String,
    pub machine_type: String,
    pub vmx_enabled: Option<String>,
    pub memory: u16,
    pub hdd_bus: String,
    pub cdrom: Option<String>,
    pub cdrom_bus: String,
    pub ztp_enable: Option<String>,
    pub ztp_method: String,
    pub ztp_username: Option<String>,
    pub ztp_password: Option<String>,
    pub ztp_password_auth: Option<String>,
    pub data_interface_count: u8,
    pub interface_prefix: String,
    pub interface_type: String,
    pub interface_mtu: u16,
    pub first_interface_index: u8,
    pub dedicated_management_interface: Option<String>,
    pub reserved_interface_count: u8,
    pub default: Option<String>,
}

/// Query parameters for listing labs.
pub struct ListLabsQuery {
    pub username: String,
}

/// User creation request body.
pub struct CreateUser {
    pub username: String,
}

/// A lab identifier request body.
pub struct LabId {
    pub id: String,
}

/// A user record.
pub struct User {
    pub id: u64,
    pub username: String,
}

/// The start of the message that a too-weak password is refused with.
pub open spec fn password_requirements_marker() -> Seq<char> {
    "Password does not meet security requirements"@
}

/// The part of an error chain worth showing for a failed `context` check
/// ("Password" or "Username"), or a generic message.
pub open spec fn validation_message(s: Seq<char>, context: Seq<char>) -> Seq<char> {
    if context == "Password"@ && find_seq(s, password_requirements_marker()) is Some {
        let m = s.skip(find_seq(s, password_requirements_marker())->0);
        match find_seq(m, "\n\nCaused by:"@) {
            Some(e) => m.take(e),
            None => m,
        }
    } else if context == "Username"@ && find_seq(s, "Username"@) is Some {
        let m = s.skip(find_seq(s, "Username"@)->0);
        match find_seq(m, "\n"@) {
            Some(e) => m.take(e),
            None => m,
        }
    } else {
        context + " validation failed. Please check the requirements."@
    }
}

/// The part of `v` from the first `marker` up to the first `stop` after it.
fn section_from(v: &Vec<char>, marker: &str, stop: &str) -> (r: Option<String>)
    ensures
        match r {
            Some(x) => find_seq(v@, marker@) is Some && ({
                let m = v@.skip(find_seq(v@, marker@)->0);
                x@ == match find_seq(m, stop@) {
                    Some(e) => m.take(e),
                    None => m,
                }
            }),
            None => find_seq(v@, marker@) is None,
        },
{
    let mk = chars_of(marker);
    let st = chars_of(stop);
    assert(v@.subrange(0, v@.len() as int) == v@);
    match find_in(v, 0, v.len(), &mk) {
        None => None,
        Some(pos) => {
            assert(v@.skip(pos as int) == v@.subrange(pos as int, v@.len() as int));
            match find_in(v, pos, v.len(), &st) {
                Some(end) => {
                    assert(v@.subrange(pos as int, v@.len() as int).take(end - pos)
                        == v@.subrange(pos as int, end as int));
                    Some(string_of_range(v, pos, end))
                },
                None => Some(string_of_range(v, pos, v.len())),
            }
        },
    }
}

/// Extracts the user-facing part of a validation error: the password
/// requirements list, the username rule, or a generic message for `context`.
pub fn extract_validation_message(error_str: &str, context: &str) -> (r: String)
    ensures
        r@ == validation_message(error_str@, context@),
{
    let v = chars_of(error_str);
    if str_is(context, "Password") {
        if let Some(m) = section_from(&v, "Password does not meet security requirements", "\n\nCaused by:") {
            return m;
        }
    }
    if str_is(context, "Username") {
        if let Some(m) = section_from(&v, "Username", "\n") {
            return m;
        }
    }
    let mut out: Vec<char> = Vec::new();
    push_str_chars(&mut out, context);
    push_str_chars(&mut out, " validation failed. Please check the requirements.");
    string_from_chars(&out)
}

/// The message shown when creating an account failed with `error_str`.
pub open spec fn signup_error(s: Seq<char>) -> Seq<char> {
    if contains_seq(s, "unique"@) || contains_seq(s, "already exists"@) || contains_seq(
        s,
        "duplicate"@,
    ) {
        "Username is unavailable"@
    } else if contains_seq(s, "Username"@) {
        validation_message(s, "Username"@)
    } else if contains_seq(s, "Password"@) || contains_seq(s, "password"@) {
        validation_message(s, "Password"@)
    } else {
        "Registration failed. Please try again."@
    }
}

/// Turns a failed account creation into the message shown on the signup form.
pub fn signup_error_message(error_str: &str) -> (r: String)
    ensures
        r@ == signup_error(error_str@),
{
    let v = chars_of(error_str);
    if contains(&v, "unique") || contains(&v, "already exists") || contains(&v, "duplicate") {
        "Username is unavailable".to_owned()
    } else if contains(&v, "Username") {
        extract_validation_message(error_str, "Username")
    } else if contains(&v, "Password") || contains(&v, "password") {
        extract_validation_message(error_str, "Password")
    } else {
        "Registration failed. Please try again.".to_owned()
    }
}

/// Where a successful login sends the user: admins to `/admin`, others to `/`.
pub fn login_redirect_path(is_admin: bool) -> (r: &'static str)
    ensures
        r@ == (if is_admin {
            "/admin"@
        } else {
            "/"@
        }),
{
    if is_admin {
        "/admin"
    } else {
        "/"
    }
}

/// Token lifetime of a login: 30 days with "remember me", 7 days otherwise.
pub fn login_token_expiry(remember_me: bool) -> (r: i64)
    ensures
        r == session_max_age(remember_me),
{
    if remember_me {
        COOKIE_MAX_AGE_REMEMBER
    } else {
        COOKIE_MAX_AGE_NORMAL
    }
}

/// The session cookie set by a login: kept 30 days with "remember me", 7 days
/// otherwise, and marked `Secure` when the server speaks HTTPS.
pub fn login_cookie(token: &str, remember_me: bool, tls_enabled: bool) -> (r: String)
    ensures
        r@ == session_cookie(token@, remember_me, tls_enabled),
{
    create_session_cookie(token, remember_me, tls_enabled)
}

/// The session cookie set by a signup, which logs the new user in for 7 days,
/// marked `Secure` when the server speaks HTTPS.
pub fn signup_cookie(token: &str, tls_enabled: bool) -> (r: String)
    ensures
        r@ == session_cookie(token@, false, tls_enabled),
{
    create_session_cookie(token, false, tls_enabled)
}

/// Where a login stands between its outside steps.
pub enum LoginState {
    /// The user record is being fetched.
    AwaitingUser { remember_me: bool, tls_enabled: bool },
    /// The password is being checked against the user's hash.
    AwaitingPassword { username: String, is_admin: bool, remember_me: bool, tls_enabled: bool },
    /// The session token is being signed.
    AwaitingToken { is_admin: bool, remember_me: bool, tls_enabled: bool },
    /// The login has been answered.
    Finished,
}

/// What an outside step of a login gave.
pub enum LoginEvent {
    /// The user record: its username and admin flag (`None`: no such user).
    UserFetched(Option<(String, bool)>),
    /// Whether the password matches (`None`: the check itself failed).
    PasswordChecked(Option<bool>),
    /// The signed token (`None`: signing failed).
    TokenSigned(Option<String>),
}

/// What a login does next.
pub enum LoginAction {
    /// Fetch the record of the user named in the form.
    FetchUser,
    /// Check the form's password against the record.
    CheckPassword,
    /// Sign a session token for the user, valid `expiry_seconds`.
    SignToken { username: String, is_admin: bool, expiry_seconds: i64 },
    /// Answer with the login form's error message.
    ShowError(&'static str),
    /// Set the session cookie and send the browser to `location`.
    Admit { cookie: String, location: &'static str },
}

/// The error shown for an unknown user or a wrong password.
pub open spec fn bad_credentials() -> Seq<char> {
    "Invalid username or password"@
}

/// The error shown when the login machinery itself fails.
pub open spec fn login_failure() -> Seq<char> {
    "An error occurred during authentication"@
}

/// Whether `event` answers the step that `state` waits for.
pub open spec fn login_expects(state: LoginState, event: LoginEvent) -> bool {
    match state {
        LoginState::AwaitingUser { .. } => event is UserFetched,
        LoginState::AwaitingPassword { .. } => event is PasswordChecked,
        LoginState::AwaitingToken { .. } => event is TokenSigned,
        LoginState::Finished => false,
    }
}

/// A login starts by fetching the user record.
pub fn login_start(form: &LoginForm, tls_enabled: bool) -> (r: (LoginState, LoginAction))
    ensures
        r.0 == (LoginState::AwaitingUser { remember_me: form.remember_me, tls_enabled }),
        r.1 is FetchUser,
{
    (LoginState::AwaitingUser { remember_me: form.remember_me, tls_enabled }, LoginAction::FetchUser)
}

/// Whether `a` shows the error message `msg`.
pub open spec fn shows(a: LoginAction, msg: Seq<char>) -> bool {
    a matches LoginAction::ShowError(m) && m@ == msg
}

/// Whether `s` waits for the password check of user `name` (admin: `admin`).
pub open spec fn awaits_password(
    s: LoginState,
    name: Seq<char>,
    admin: bool,
    remember_me: bool,
    tls_enabled: bool,
) -> bool {
    s matches LoginState::AwaitingPassword { username, is_admin, remember_me: rm, tls_enabled: tls }
        && username@ == name && is_admin == admin && rm == remember_me && tls == tls_enabled
}

/// Whether `a` signs a token for user `name` (admin: `admin`) valid `expiry` seconds.
pub open spec fn signs(a: LoginAction, name: Seq<char>, admin: bool, expiry: i64) -> bool {
    a matches LoginAction::SignToken { username, is_admin, expiry_seconds } && username@ == name
        && is_admin == admin && expiry_seconds == expiry
}

/// Whether `a` sets the session cookie `cookie` and sends the browser to `location`.
pub open spec fn admits(a: LoginAction, cookie: Seq<char>, location: Seq<char>) -> bool {
    a matches LoginAction::Admit { cookie: c, location: l } && c@ == cookie && l@ == location
}

/// One step of a login: an unknown user or a wrong password gets the
/// credentials error, a failing check or signing gets the failure error, and
/// a signed token sets the session cookie (kept 30 days with "remember me",
/// `Secure` over HTTPS) and sends admins to `/admin`, others to `/`. A token
/// is only signed after the password matched.
pub fn login_step(state: LoginState, event: LoginEvent) -> (r: (LoginState, LoginAction))
    requires
        login_expects(state, event),
    ensures
        match (state, event) {
            (
                LoginState::AwaitingUser { remember_me, tls_enabled },
                LoginEvent::UserFetched(found),
            ) => match found {
                None => r.0 is Finished && shows(r.1, bad_credentials()),
                Some((name, admin)) => r.1 is CheckPassword && awaits_password(
                    r.0,
                    name@,
                    admin,
                    remember_me,
                    tls_enabled,
                ),
            },
            (
                LoginState::AwaitingPassword { username, is_admin, remember_me, tls_enabled },
                LoginEvent::PasswordChecked(check),
            ) => match check {
                None => r.0 is Finished && shows(r.1, login_failure()),
                Some(false) => r.0 is Finished && shows(r.1, bad_credentials()),
                Some(true) => r.0 == (LoginState::AwaitingToken {
                    is_admin,
                    remember_me,
                    tls_enabled,
                }) && signs(r.1, username@, is_admin, session_max_age(remember_me)),
            },
            (
                LoginState::AwaitingToken { is_admin, remember_me, tls_enabled },
                LoginEvent::TokenSigned(token),
            ) => r.0 is Finished && match token {
                None => shows(r.1, login_failure()),
                Some(t) => admits(
                    r.1,
                    session_cookie(t@, remember_me, tls_enabled),
                    if is_admin {
                        "/admin"@
                    } else {
                        "/"@
                    },
                ),
            },
            _ => false,
        },
{
    match state {
        LoginState::AwaitingUser { remember_me, tls_enabled } => match event {
            LoginEvent::UserFetched(Some((username, is_admin))) => (
                LoginState::AwaitingPassword { username, is_admin, remember_me, tls_enabled },
                LoginAction::CheckPassword,
            ),
            _ => (LoginState::Finished, LoginAction::ShowError("Invalid username or password")),
        },
        LoginState::AwaitingPassword { username, is_admin, remember_me, tls_enabled } => match event {
            LoginEvent::PasswordChecked(Some(true)) => {
                let expiry_seconds = login_token_expiry(remember_me);
                (
                    LoginState::AwaitingToken { is_admin, remember_me, tls_enabled },
                    LoginAction::SignToken { username, is_admin, expiry_seconds },
                )
            },
            LoginEvent::PasswordChecked(Some(false)) => (
                LoginState::Finished,
                LoginAction::ShowError("Invalid username or password"),
            ),
            _ => (
                LoginState::Finished,
                LoginAction::ShowError("An error occurred during authentication"),
            ),
        },
        LoginState::AwaitingToken { is_admin, remember_me, tls_enabled } => match event {
            LoginEvent::TokenSigned(Some(token)) => (
                LoginState::Finished,
                LoginAction::Admit {
                    cookie: login_cookie(token.as_str(), remember_me, tls_enabled),
                    location: login_redirect_path(is_admin),
                },
            ),
            _ => (
                LoginState::Finished,
                LoginAction::ShowError("An error occurred during authentication"),
            ),
        },
        LoginState::Finished => (LoginState::Finished, LoginAction::FetchUser),
    }
}

/// Checks that a new password was typed the same way twice.
pub fn check_signup_passwords(form: &SignupForm) -> (r: Result<(), &'static str>)
    ensures
        r is Ok <==> form.password@ == form.confirm_password@,
        r matches Err(m) ==> m@ == "Passwords do not match"@,
{
    if form.password != form.confirm_password {
        return Err("Passwords do not match");
    }
    Ok(())
}

/// Checks that the new password of a password change was typed the same way twice.
pub fn check_new_passwords(form: &UpdatePasswordForm) -> (r: Result<(), &'static str>)
    ensures
        r is Ok <==> form.new_password@ == form.confirm_new_password@,
        r matches Err(m) ==> m@ == "New passwords do not match"@,
{
    if form.new_password != form.confirm_new_password {
        return Err("New passwords do not match");
    }
    Ok(())
}

/// Checks an admin's password change for another user: an admin may not
/// change their own password here, and the two entries must match.
pub fn check_admin_password_update(
    admin_username: &str,
    target_username: &str,
    form: &AdminUpdatePasswordForm,
) -> (r: Result<(), &'static str>)
    ensures
        admin_username@ == target_username@ ==> (r matches Err(m) && m@
            == "You cannot update your own password here. Please use the Profile page."@),
        admin_username@ != target_username@ && form.new_password@ != form.confirm_new_password@
            ==> (r matches Err(m) && m@ == "Passwords do not match"@),
        r is Ok <==> (admin_username@ != target_username@ && form.new_password@
            == form.confirm_new_password@),
{
    if str_is(admin_username, target_username) {
        return Err("You cannot update your own password here. Please use the Profile page.");
    }
    if form.new_password != form.confirm_new_password {
        return Err("Passwords do not match");
    }
    Ok(())
}

} // verus!

verus! {

/// Whether `s` is ordered by username (non-decreasing).
pub open spec fn sorted_by_username(s: Seq<UserSummary>) -> bool {
    forall|i: int, j: int|
        0 <= i < j < s.len() ==> !lex_lt(#[trigger] s[j].username@, #[trigger] s[i].username@)
}

/// The users of `s` other than `name`, in order.
pub open spec fn others(s: Seq<UserSummary>, name: Seq<char>) -> Seq<UserSummary>
    decreases s.len(),
{
    if s.len() == 0 {
        Seq::empty()
    } else if s.last().username@ == name {
        others(s.drop_last(), name)
    } else {
        others(s.drop_last(), name).push(s.last())
    }
}

/// `s` with `u` inserted before the first user whose name sorts after `u`'s
/// (so after every user with the same name).
pub open spec fn insert_by_name(s: Seq<UserSummary>, u: UserSummary) -> Seq<UserSummary>
    decreases s.len(),
{
    if s.len() == 0 {
        seq![u]
    } else if lex_lt(u.username@, s[0].username@) {
        seq![u] + s
    } else {
        seq![s[0]] + insert_by_name(s.drop_first(), u)
    }
}

/// `s` stably sorted by username: users with equal names keep their order.
pub open spec fn stable_sort_by_name(s: Seq<UserSummary>) -> Seq<UserSummary>
    decreases s.len(),
{
    if s.len() == 0 {
        Seq::empty()
    } else {
        insert_by_name(stable_sort_by_name(s.drop_last()), s.last())
    }
}

proof fn lemma_insert_at(s: Seq<UserSummary>, u: UserSummary, p: int)
    requires
        0 <= p <= s.len(),
        forall|k: int| 0 <= k < p ==> !lex_lt(u.username@, #[trigger] s[k].username@),
        p < s.len() ==> lex_lt(u.username@, s[p].username@),
    ensures
        insert_by_name(s, u) == s.insert(p, u),
    decreases p,
{
    if p == 0 {
        if s.len() == 0 {
            assert(s.insert(0, u) == seq![u]);
        } else {
            assert(s.insert(0, u) == seq![u] + s);
        }
    } else {
        let t = s.drop_first();
        assert forall|k: int| 0 <= k < p - 1 implies !lex_lt(u.username@, #[trigger] t[k].username@) by {
            assert(t[k] == s[k + 1]);
        }
        assert(!lex_lt(u.username@, s[0].username@));
        lemma_insert_at(t, u, p - 1);
        assert(s.insert(p, u) == seq![s[0]] + t.insert(p - 1, u));
    }
}

fn username_lt(a: &UserSummary, b: &UserSummary) -> (r: bool)
    ensures
        r == lex_lt(a.username@, b.username@),
{
    let x = chars_of(a.username.as_str());
    let y = chars_of(b.username.as_str());
    match compare_chars(&x, &y) {
        Order::Less => true,
        _ => false,
    }
}

/// The users shown on the admin dashboard: everyone but the admin looking at
/// it, stably sorted by username (users with equal names keep their order).
pub fn dashboard_users(users: Vec<UserSummary>, admin_username: &str) -> (r: Vec<UserSummary>)
    ensures
        r@ == stable_sort_by_name(others(users@, admin_username@)),
        sorted_by_username(r@),
        r@.to_multiset() == others(users@, admin_username@).to_multiset(),
{
    let n0 = users.len();
    let ghost all = users@;
    assert(all.len() == n0);
    let mut rest = users;
    let mut out: Vec<UserSummary> = Vec::new();
    let mut taken: usize = 0;
    while rest.len() > 0
        invariant
            taken + rest@.len() == all.len(),
            all.len() <= usize::MAX,
            rest@ == all.skip(taken as int),
            sorted_by_username(out@),
            out@.to_multiset() == others(all.take(taken as int), admin_username@).to_multiset(),
            out@ == stable_sort_by_name(others(all.take(taken as int), admin_username@)),
        decreases rest@.len(),
    {
        let u = rest.remove(0);
        assert(all.take(taken + 1).drop_last() == all.take(taken as int));
        assert(all.take(taken + 1).last() == u);
        assert(rest@ == all.skip(taken + 1));
        let ghost t = taken as int;
        let ghost prev_out = out@;
        assert(others(all.take(t + 1), admin_username@) == if u.username@ == admin_username@ {
            others(all.take(t), admin_username@)
        } else {
            others(all.take(t), admin_username@).push(u)
        });
        taken = taken + 1;
        if !str_is(u.username.as_str(), admin_username) {
            let mut p: usize = 0;
            while p < out.len() && !username_lt(&u, &out[p])
                invariant
                    p <= out@.len(),
                    forall|k: int| 0 <= k < p ==> !lex_lt(u.username@, #[trigger] out@[k].username@),
                decreases out@.len() - p,
            {
                p = p + 1;
            }
            let ghost before = out@;
            proof {
                assert forall|q: int| p <= q < before.len() implies !lex_lt(
                    #[trigger] before[q].username@,
                    u.username@,
                ) by {
                    if lex_lt(before[q].username@, u.username@) {
                        assert(lex_lt(u.username@, before[p as int].username@));
                        lemma_lex_transitive(
                            before[q].username@,
                            u.username@,
                            before[p as int].username@,
                        );
                        if q > p {
                            assert(!lex_lt(before[q].username@, before[p as int].username@));
                        } else {
                            lemma_lex_order(before[q].username@, before[q].username@);
                        }
                    }
                }
            }
            proof {
                lemma_insert_at(before, u, p as int);
                let o = others(all.take(t), admin_username@);
                assert(o.push(u).drop_last() == o);
            }
            out.insert(p, u);
            proof {
                let now = out@;
                assert forall|i: int, j: int| 0 <= i < j < now.len() implies !lex_lt(
                    #[trigger] now[j].username@,
                    #[trigger] now[i].username@,
                ) by {
                    if j < p {
                        assert(now[i] == before[i] && now[j] == before[j]);
                    } else if j == p {
                        assert(now[i] == before[i]);
                    } else if i < p {
                        assert(now[i] == before[i] && now[j] == before[j - 1]);
                        if i < j - 1 {
                        }
                    } else if i == p {
                        assert(now[j] == before[j - 1]);
                    } else {
                        assert(now[i] == before[i - 1] && now[j] == before[j - 1]);
                    }
                }
                vstd::seq_lib::to_multiset_insert(before, p as int, u);
                vstd::seq_lib::to_multiset_build(others(all.take(t), admin_username@), u);
                assert(others(all.take(t), admin_username@).push(u).to_multiset() == others(
                    all.take(t),
                    admin_username@,
                ).to_multiset().insert(u));
            }
        }
    }
    assert(all.take(all.len() as int) == all);
    out
}

} // verus!

verus! {

/// The image shown for each model: the first listed, unless a later one of the
/// same model is the default while the chosen one is not.
pub open spec fn best_images(configs: Seq<NodeImageSummary>) -> Map<Seq<char>, NodeImageSummary>
    decreases configs.len(),
{
    if configs.len() == 0 {
        Map::empty()
    } else {
        let m = best_images(configs.drop_last());
        let c = configs.last();
        if !m.contains_key(c.model@) || (c.default && !m[c.model@].default) {
            m.insert(c.model@, c)
        } else {
            m
        }
    }
}

/// Every listed model has an image chosen, and the image chosen for a model
/// is one of the listed images of that model.
pub proof fn law_best_images_come_from_list(configs: Seq<NodeImageSummary>, k: Seq<char>)
    ensures
        best_images(configs).contains_key(k) <==> exists|i: int|
            0 <= i < configs.len() && (#[trigger] configs[i]).model@ == k,
        best_images(configs).contains_key(k) ==> exists|i: int|
            0 <= i < configs.len() && #[trigger] configs[i] == best_images(configs)[k]
                && configs[i].model@ == k,
    decreases configs.len(),
{
    if configs.len() > 0 {
        let s = configs.drop_last();
        let c = configs.last();
        let n = configs.len() - 1;
        law_best_images_come_from_list(s, k);
        assert forall|i: int| 0 <= i < s.len() implies #[trigger] s[i] == configs[i] by {}
        if exists|i: int| 0 <= i < configs.len() && (#[trigger] configs[i]).model@ == k {
            let i = choose|i: int| 0 <= i < configs.len() && (#[trigger] configs[i]).model@ == k;
            if i < n {
                assert(s[i] == configs[i]);
            }
        }
        if best_images(s).contains_key(k) {
            let i = choose|i: int|
                0 <= i < s.len() && #[trigger] s[i] == best_images(s)[k] && s[i].model@ == k;
            assert(configs[i] == s[i]);
        }
        assert(configs[n] == c);
    }
}

/// The image shown for a model is its first default image when it has one:
/// a default image listed before any other default of its model is chosen,
/// whatever images of that model come before or after it.
pub proof fn law_best_image_is_first_default(configs: Seq<NodeImageSummary>, i: int)
    requires
        0 <= i < configs.len(),
        configs[i].default,
        forall|j: int|
            0 <= j < i && (#[trigger] configs[j]).model@ == configs[i].model@ ==> !configs[j].default,
    ensures
        best_images(configs).contains_key(configs[i].model@),
        best_images(configs)[configs[i].model@] == configs[i],
    decreases configs.len(),
{
    let s = configs.drop_last();
    let c = configs.last();
    let n = configs.len() - 1;
    let k = configs[i].model@;
    assert forall|j: int| 0 <= j < s.len() implies #[trigger] s[j] == configs[j] by {}
    if i < n {
        assert(s[i] == configs[i]);
        law_best_image_is_first_default(s, i);
    } else {
        law_best_images_come_from_list(s, k);
        if best_images(s).contains_key(k) {
            let j = choose|j: int|
                0 <= j < s.len() && #[trigger] s[j] == best_images(s)[k] && s[j].model@ == k;
            assert(configs[j] == s[j]);
            assert(!configs[j].default);
        }
    }
}

/// A model without any default image shows its first listed image.
pub proof fn law_best_image_without_default_is_first(configs: Seq<NodeImageSummary>, i: int)
    requires
        0 <= i < configs.len(),
        forall|j: int|
            0 <= j < configs.len() && (#[trigger] configs[j]).model@ == configs[i].model@
                ==> !configs[j].default,
        forall|j: int| 0 <= j < i ==> (#[trigger] configs[j]).model@ != configs[i].model@,
    ensures
        best_images(configs).contains_key(configs[i].model@),
        best_images(configs)[configs[i].model@] == configs[i],
    decreases configs.len(),
{
    let s = configs.drop_last();
    let n = configs.len() - 1;
    let k = configs[i].model@;
    assert forall|j: int| 0 <= j < s.len() implies #[trigger] s[j] == configs[j] by {}
    if i < n {
        assert(s[i] == configs[i]);
        law_best_image_without_default_is_first(s, i);
        assert(configs[n] == configs.last());
    } else {
        law_best_images_come_from_list(s, k);
        if best_images(s).contains_key(k) {
            let j = choose|j: int| 0 <= j < s.len() && (#[trigger] s[j]).model@ == k;
            assert(configs[j] == s[j]);
        }
    }
}

/// Whether `s` is strictly ordered by model.
pub open spec fn strictly_sorted_by_model(s: Seq<NodeImageSummary>) -> bool {
    forall|i: int, j: int|
        0 <= i < j < s.len() ==> lex_lt(#[trigger] s[i].model@, #[trigger] s[j].model@)
}

/// Whether `s` lists exactly the entries of `m`.
pub open spec fn lists_map(s: Seq<NodeImageSummary>, m: Map<Seq<char>, NodeImageSummary>) -> bool {
    &&& forall|i: int|
        0 <= i < s.len() ==> m.contains_key((#[trigger] s[i]).model@) && m[s[i].model@] == s[i]
    &&& forall|k: Seq<char>|
        #[trigger] m.contains_key(k) ==> exists|i: int| 0 <= i < s.len() && s[i].model@ == k
}

fn model_order(a: &NodeImageSummary, b: &NodeImageSummary) -> (r: Order)
    ensures
        r is Less <==> lex_lt(a.model@, b.model@),
        r is Equal <==> a.model@ == b.model@,
        r is Greater <==> lex_lt(b.model@, a.model@),
{
    let x = chars_of(a.model.as_str());
    let y = chars_of(b.model.as_str());
    compare_chars(&x, &y)
}

/// The node images listed on the admin page: one per model (preferring the
/// default image, otherwise the first listed), ordered by model.
pub fn best_node_images(configs: Vec<NodeImageSummary>) -> (r: Vec<NodeImageSummary>)
    ensures
        strictly_sorted_by_model(r@),
        lists_map(r@, best_images(configs@)),
{
    let n0 = configs.len();
    let ghost all = configs@;
    assert(all.len() == n0);
    let mut rest = configs;
    let mut out: Vec<NodeImageSummary> = Vec::new();
    let mut taken: usize = 0;
    while rest.len() > 0
        invariant
            taken + rest@.len() == all.len(),
            all.len() <= usize::MAX,
            rest@ == all.skip(taken as int),
            strictly_sorted_by_model(out@),
            lists_map(out@, best_images(all.take(taken as int))),
        decreases rest@.len(),
    {
        let c = rest.remove(0);
        let ghost t = taken as int;
        assert(all.take(t + 1).drop_last() == all.take(t));
        assert(all.take(t + 1).last() == c);
        assert(rest@ == all.skip(t + 1));
        let ghost m = best_images(all.take(t));
        let ghost before = out@;
        taken = taken + 1;
        let mut p: usize = 0;
        while p < out.len() && matches!(model_order(&out[p], &c), Order::Less)
            invariant
                p <= out@.len(),
                forall|k: int| 0 <= k < p ==> lex_lt(#[trigger] out@[k].model@, c.model@),
            decreases out@.len() - p,
        {
            p = p + 1;
        }
        if p < out.len() && matches!(model_order(&out[p], &c), Order::Equal) {
            proof {
                assert(m.contains_key(c.model@));
                assert(m[c.model@] == before[p as int]);
            }
            if c.default && !out[p].default {
                out.set(p, c);
                proof {
                    let now = out@;
                    let m2 = m.insert(c.model@, c);
                    assert forall|i: int| 0 <= i < now.len() implies m2.contains_key(
                        (#[trigger] now[i]).model@,
                    ) && m2[now[i].model@] == now[i] by {
                        if i != p {
                            assert(now[i] == before[i]);
                            lemma_lex_order(before[i].model@, before[p as int].model@);
                        }
                    }
                    assert forall|k: Seq<char>| #[trigger] m2.contains_key(k) implies exists|i: int|
                        0 <= i < now.len() && now[i].model@ == k by {
                        if k != c.model@ {
                            let i = choose|i: int| 0 <= i < before.len() && before[i].model@ == k;
                            assert(now[i] == before[i]);
                        } else {
                            assert(now[p as int].model@ == k);
                        }
                    }
                }
            }
        } else {
            proof {
                if m.contains_key(c.model@) {
                    let i = choose|i: int| 0 <= i < before.len() && before[i].model@ == c.model@;
                    if i < p {
                        lemma_lex_order(c.model@, c.model@);
                    } else {
                        assert(!lex_lt(before[p as int].model@, c.model@));
                        lemma_lex_order(before[p as int].model@, c.model@);
                        if i > p {
                            lemma_lex_transitive(c.model@, before[p as int].model@, c.model@);
                            lemma_lex_order(c.model@, c.model@);
                        }
                    }
                }
                assert(!m.contains_key(c.model@));
                if p < before.len() {
                    lemma_lex_order(before[p as int].model@, c.model@);
                    assert(lex_lt(c.model@, before[p as int].model@));
                }
            }
            out.insert(p, c);
            proof {
                let now = out@;
                let m2 = m.insert(c.model@, c);
                assert forall|i: int, j: int| 0 <= i < j < now.len() implies lex_lt(
                    #[trigger] now[i].model@,
                    #[trigger] now[j].model@,
                ) by {
                    if j < p {
                        assert(now[i] == before[i] && now[j] == before[j]);
                    } else if j == p {
                        assert(now[i] == before[i]);
                    } else if i < p {
                        assert(now[i] == before[i] && now[j] == before[j - 1]);
                        assert(lex_lt(c.model@, before[p as int].model@));
                        if j - 1 > p {
                            lemma_lex_transitive(c.model@, before[p as int].model@, before[j - 1].model@);
                        }
                        lemma_lex_transitive(before[i].model@, c.model@, before[j - 1].model@);
                    } else if i == p {
                        assert(now[j] == before[j - 1]);
                        if j - 1 > p {
                            lemma_lex_transitive(c.model@, before[p as int].model@, before[j - 1].model@);
                        }
                    } else {
                        assert(now[i] == before[i - 1] && now[j] == before[j - 1]);
                    }
                }
                assert forall|i: int| 0 <= i < now.len() implies m2.contains_key(
                    (#[trigger] now[i]).model@,
                ) && m2[now[i].model@] == now[i] by {
                    if i < p {
                        assert(now[i] == before[i]);
                        lemma_lex_order(before[i].model@, c.model@);
                    } else if i > p {
                        assert(now[i] == before[i - 1]);
                        lemma_lex_order(before[i - 1].model@, c.model@);
                        if i - 1 > p {
                            lemma_lex_transitive(c.model@, before[p as int].model@, before[i - 1].model@);
                        }
                    }
                }
                assert forall|k: Seq<char>| #[trigger] m2.contains_key(k) implies exists|i: int|
                    0 <= i < now.len() && now[i].model@ == k by {
                    if k != c.model@ {
                        let i = choose|i: int| 0 <= i < before.len() && before[i].model@ == k;
                        if i < p {
                            assert(now[i] == before[i]);
                        } else {
                            assert(now[i + 1] == before[i]);
                        }
                    } else {
                        assert(now[p as int].model@ == k);
                    }
                }
            }
        }
    }
    assert(all.take(all.len() as int) == all);
    out
}

} // verus!

verus! {

/// Adds `key` to a user's SSH keys unless it is already there; says whether it was added.
pub fn add_ssh_key(keys: &mut Vec<String>, key: &str) -> (added: bool)
    ensures
        added == !old(keys).deep_view().contains(key@),
        added ==> final(keys).deep_view() == old(keys).deep_view().push(key@),
        !added ==> final(keys).deep_view() == old(keys).deep_view(),
{
    let owned_key = key.to_owned();
    let mut i: usize = 0;
    while i < keys.len()
        invariant
            i <= keys@.len(),
            keys.deep_view() == old(keys).deep_view(),
            owned_key@ == key@,
            forall|j: int| 0 <= j < i ==> keys.deep_view()[j] != key@,
        decreases keys@.len() - i,
    {
        if keys[i] == owned_key {
            assert(keys.deep_view()[i as int] == key@);
            return false;
        }
        i = i + 1;
    }
    keys.push(owned_key);
    true
}

/// Removes the SSH key at `index`; says whether there was one.
pub fn remove_ssh_key(keys: &mut Vec<String>, index: usize) -> (removed: bool)
    ensures
        removed == (index < old(keys)@.len()),
        removed ==> final(keys).deep_view() == old(keys).deep_view().remove(index as int),
        !removed ==> final(keys).deep_view() == old(keys).deep_view(),
{
    if index >= keys.len() {
        return false;
    }
    let ghost before = keys.deep_view();
    keys.remove(index);
    assert(keys.deep_view() =~= before.remove(index as int));
    true
}

/// Adding a key that was not there makes it present and keeps the keys distinct.
pub proof fn law_added_key_is_present_once(keys: Seq<Seq<char>>, key: Seq<char>)
    requires
        keys.no_duplicates(),
        !keys.contains(key),
    ensures
        keys.push(key).contains(key),
        keys.push(key).no_duplicates(),
        keys.push(key).len() == keys.len() + 1,
{
    assert(keys.push(key)[keys.len() as int] == key);
    assert forall|i: int, j: int|
        0 <= i < keys.push(key).len() && 0 <= j < keys.push(key).len() && i != j implies keys.push(
        key,
    )[i] != keys.push(key)[j] by {
        if i < keys.len() && j < keys.len() {
        } else if i < keys.len() {
            assert(keys.contains(keys[i]));
        } else {
            assert(keys.contains(keys[j]));
        }
    }
}

/// Removing the key at an index keeps the others in order.
pub proof fn law_removed_key_keeps_others(keys: Seq<Seq<char>>, index: int)
    requires
        0 <= index < keys.len(),
    ensures
        keys.remove(index).len() == keys.len() - 1,
        forall|i: int| 0 <= i < index ==> keys.remove(index)[i] == keys[i],
        forall|i: int| index < i < keys.len() ==> keys.remove(index)[i - 1] == keys[i],
{
}

/// What a lab page shows when the lab could not be loaded.
#[derive(Clone, Copy, PartialEq, Eq, Structural, Debug)]
pub enum LabPageError {
    /// 403 page: "You don't have permission to view this lab."
    Forbidden,
    /// 404 page: "Lab not found."
    NotFound,
    /// 404 page: "An error occurred loading the lab."
    Failed,
}

impl LabPageError {
    /// The message of the page.
    pub fn message(self) -> (r: &'static str)
        ensures
            r@ == lab_page_message(self),
    {
        match self {
            LabPageError::Forbidden => "You don't have permission to view this lab.",
            LabPageError::NotFound => "Lab not found.",
            LabPageError::Failed => "An error occurred loading the lab.",
        }
    }
}

/// The message of a lab error page.
pub open spec fn lab_page_message(e: LabPageError) -> Seq<char> {
    match e {
        LabPageError::Forbidden => "You don't have permission to view this lab."@,
        LabPageError::NotFound => "Lab not found."@,
        LabPageError::Failed => "An error occurred loading the lab."@,
    }
}

/// The error page for a failed lab inspection with error text `error`.
pub fn lab_page_error(error: &str) -> (r: LabPageError)
    ensures
        r == (if contains_seq(error@, "Permission denied"@) {
            LabPageError::Forbidden
        } else if contains_seq(error@, "not found"@) {
            LabPageError::NotFound
        } else {
            LabPageError::Failed
        }),
{
    let v = chars_of(error);
    if contains(&v, "Permission denied") {
        LabPageError::Forbidden
    } else if contains(&v, "not found") {
        LabPageError::NotFound
    } else {
        LabPageError::Failed
    }
}

/// The username of a lab-listing query: trimmed, and required.
pub fn labs_query_username(query: &ListLabsQuery) -> (r: Result<String, ApiError>)
    ensures
        match r {
            Ok(u) => u@ == trim(query.username@) && u@.len() > 0,
            Err(e) => trim(query.username@).len() == 0 && e@ == (ApiErrorView::BadRequest {
                message: "Username parameter is required"@,
            }),
        },
{
    let v = chars_of(query.username.as_str());
    let (a, b) = trim_bounds(&v, 0, v.len());
    assert(v@.subrange(0, v@.len() as int) == v@);
    if a == b {
        return Err(ApiError::bad_request("Username parameter is required"));
    }
    Ok(string_of_range(&v, a, b))
}

/// `User '<name>' not found`.
pub open spec fn user_not_found_message(username: Seq<char>) -> Seq<char> {
    "User '"@ + username + "' not found"@
}

fn user_not_found_text(username: &str) -> (r: String)
    ensures
        r@ == user_not_found_message(username@),
{
    let mut out: Vec<char> = Vec::new();
    push_str_chars(&mut out, "User '");
    push_str_chars(&mut out, username);
    push_str_chars(&mut out, "' not found");
    string_from_chars(&out)
}

/// The API error for a failed lab listing of `username`: `error_message` is
/// the error's own message and `error_chain` the whole chain (`{:#}`).
pub fn list_labs_error(username: &str, error_message: &str, error_chain: &str) -> (r: ApiError)
    ensures
        r@ == (if contains_seq(error_message@, "User not found"@) {
            ApiErrorView::NotFound { resource: "User"@, message: user_not_found_message(username@) }
        } else {
            classify_error_chain(error_chain@)
        }),
{
    let v = chars_of(error_message);
    if contains(&v, "User not found") {
        let msg = user_not_found_text(username);
        ApiError::not_found("User", msg.as_str())
    } else {
        ApiError::from_error_chain(error_chain)
    }
}

/// The message of the labs panel when listing the labs of `username` failed.
pub fn labs_panel_error(username: &str, error: &str) -> (r: String)
    ensures
        r@ == (if contains_seq(error@, "User not found"@) {
            user_not_found_message(username@)
        } else {
            "Failed to load labs: "@ + error@
        }),
{
    let v = chars_of(error);
    if contains(&v, "User not found") {
        user_not_found_text(username)
    } else {
        let mut out: Vec<char> = Vec::new();
        push_str_chars(&mut out, "Failed to load labs: ");
        push_str_chars(&mut out, error);
        string_from_chars(&out)
    }
}

/// The API error for a refused user deletion with error text `error`.
pub fn delete_user_error(error: &str) -> (r: ApiError)
    ensures
        r@ == (if contains_seq(error@, "owns"@) && contains_seq(error@, "lab"@) {
            ApiErrorView::BadRequest {
                message: "Cannot delete user: user owns one or more labs. Delete the labs first."@,
            }
        } else {
            ApiErrorView::InternalError { message: "Failed to delete user"@ }
        }),
{
    let v = chars_of(error);
    if contains(&v, "owns") && contains(&v, "lab") {
        ApiError::bad_request(
            "Cannot delete user: user owns one or more labs. Delete the labs first.",
        )
    } else {
        ApiError::internal("Failed to delete user")
    }
}

/// The `tls` field of the health check.
pub fn tls_status(tls_enabled: bool) -> (r: &'static str)
    ensures
        r@ == (if tls_enabled {
            "enabled"@
        } else {
            "disabled"@
        }),
{
    if tls_enabled {
        "enabled"
    } else {
        "disabled"
    }
}

/// Whether an update may leave the default flag of an image as the form has
/// it: unsetting the default is refused when this image is the only default.
pub fn default_change_allowed(was_default: bool, form_default: bool, default_count: usize) -> (r:
    bool)
    ensures
        r == !(was_default && !form_default && default_count == 1),
{
    !(was_default && !form_default && default_count == 1)
}

/// An optional form field, dropped when it holds only whitespace.
pub fn non_blank(field: Option<String>) -> (r: Option<String>)
    ensures
        match field {
            Some(f) => if trim(f@).len() == 0 {
                r is None
            } else {
                r == Some(f)
            },
            None => r is None,
        },
{
    match field {
        Some(f) => {
            let v = chars_of(f.as_str());
            let (a, b) = trim_bounds(&v, 0, v.len());
            assert(v@.subrange(0, v@.len() as int) == v@);
            if a == b {
                None
            } else {
                Some(f)
            }
        },
        None => None,
    }
}

/// The error fragment shown when an update would leave `model` without a
/// default image.
pub fn last_default_fragment(model: &str) -> (r: String)
    ensures
        r@ == "<div class=\"notification-error\">Cannot unset default - at least one version must be marked as default for "@
            + model@ + "</div>"@,
{
    let mut out: Vec<char> = Vec::new();
    push_str_chars(
        &mut out,
        "<div class=\"notification-error\">Cannot unset default - at least one version must be marked as default for ",
    );
    push_str_chars(&mut out, model);
    push_str_chars(&mut out, "</div>");
    string_from_chars(&out)
}

/// The page shown after a node image update.
pub fn node_image_redirect_url(model: &str, version: Option<&str>) -> (r: String)
    ensures
        r@ == match version {
            Some(v) => "/admin/node-images/"@ + model@ + "/"@ + v@,
            None => "/admin/node-images/"@ + model@,
        },
{
    let mut out: Vec<char> = Vec::new();
    push_str_chars(&mut out, "/admin/node-images/");
    push_str_chars(&mut out, model);
    match version {
        Some(v) => {
            push_str_chars(&mut out, "/");
            push_str_chars(&mut out, v);
        },
        None => {},
    }
    string_from_chars(&out)
}

/// Calendar date (year, month, day) in UTC of a Unix timestamp, as computed by
/// the time library.
pub uninterp spec fn spec_utc_date(second: i64) -> Option<(i16, i8, i8)>;

/// `jiff::Timestamp::from_second` followed by the UTC calendar date: `None`
/// when the timestamp is outside the library's range; the month is in 1..=12
/// and the day in 1..=31.
#[verifier::external_body]
fn utc_date(second: i64) -> (r: Option<(i16, i8, i8)>)
    ensures
        r == spec_utc_date(second),
        r matches Some((_, m, d)) ==> 1 <= m <= 12 && 1 <= d <= 31,
{
    match jiff::Timestamp::from_second(second) {
        Ok(ts) => {
            let z = ts.to_zoned(jiff::tz::TimeZone::UTC);
            Some((z.year(), z.month(), z.day()))
        },
        Err(_) => None,
    }
}

/// Abbreviated English month name.
pub open spec fn month_abbrev(m: int) -> Seq<char> {
    if m == 1 {
        "Jan"@
    } else if m == 2 {
        "Feb"@
    } else if m == 3 {
        "Mar"@
    } else if m == 4 {
        "Apr"@
    } else if m == 5 {
        "May"@
    } else if m == 6 {
        "Jun"@
    } else if m == 7 {
        "Jul"@
    } else if m == 8 {
        "Aug"@
    } else if m == 9 {
        "Sep"@
    } else if m == 10 {
        "Oct"@
    } else if m == 11 {
        "Nov"@
    } else if m == 12 {
        "Dec"@
    } else {
        "???"@
    }
}

fn month_name(m: i8) -> (r: &'static str)
    ensures
        r@ == month_abbrev(m as int),
{
    if m == 1 {
        "Jan"
    } else if m == 2 {
        "Feb"
    } else if m == 3 {
        "Mar"
    } else if m == 4 {
        "Apr"
    } else if m == 5 {
        "May"
    } else if m == 6 {
        "Jun"
    } else if m == 7 {
        "Jul"
    } else if m == 8 {
        "Aug"
    } else if m == 9 {
        "Sep"
    } else if m == 10 {
        "Oct"
    } else if m == 11 {
        "Nov"
    } else if m == 12 {
        "Dec"
    } else {
        "???"
    }
}

/// `"Mon D, YYYY"` for a calendar date.
pub open spec fn simple_date(year: i16, month: i8, day: i8) -> Seq<char> {
    month_abbrev(month as int) + " "@ + decimal_int(day as int) + ", "@ + decimal_int(year as int)
}

/// The date text for the given calendar date, or the raw timestamp when it
/// has none.
pub open spec fn simple_date_or_raw(timestamp: i64, date: Option<(i16, i8, i8)>) -> Seq<char> {
    match date {
        Some((y, m, d)) => simple_date(y, m, d),
        None => decimal_int(timestamp as int),
    }
}

/// Formats a date for display from its calendar date (as the time library
/// computed it for `timestamp`), falling back to the timestamp itself.
pub fn format_date_parts(timestamp: i64, date: Option<(i16, i8, i8)>) -> (r: String)
    ensures
        r@ == simple_date_or_raw(timestamp, date),
{
    let mut out: Vec<char> = Vec::new();
    match date {
        Some((y, m, d)) => {
            push_str_chars(&mut out, month_name(m));
            push_str_chars(&mut out, " ");
            push_decimal_i64(&mut out, d as i64);
            push_str_chars(&mut out, ", ");
            push_decimal_i64(&mut out, y as i64);
        },
        None => {
            push_decimal_i64(&mut out, timestamp);
        },
    }
    string_from_chars(&out)
}

/// Formats a Unix timestamp as `"Mon D, YYYY"` in UTC (e.g. `Feb 17, 2025`),
/// or as the number itself when it is out of the calendar's range.
pub fn format_date_simple(timestamp: i64) -> (r: String)
    ensures
        r@ == simple_date_or_raw(timestamp, spec_utc_date(timestamp)),
{
    format_date_parts(timestamp, utc_date(timestamp))
}

} // verus!
