//! Session selection for cookie and bearer authentication, and the outcome of
//! each authentication extractor.
use crate::auth::context::AuthContext;
use crate::text::{
    chars_of, decimal_int, decimal_nat, push_decimal_i64, push_decimal_u64, push_str_chars,
    slice_eq, string_from_chars,
    string_of_range,
};
use vstd::prelude::*;

verus! {

/// The claims carried by a session token.
pub struct Claims {
    /// Subject: the username.
    pub sub: String,
    /// Expiry, in seconds since the Unix epoch.
    pub exp: i64,
    /// Issue time, in seconds since the Unix epoch.
    pub iat: i64,
    /// Whether the user is an admin.
    pub is_admin: bool,
}

/// Mathematical view of [`Claims`].
pub struct ClaimsView {
    pub sub: Seq<char>,
    pub exp: i64,
    pub iat: i64,
    pub is_admin: bool,
}

impl View for Claims {
    type V = ClaimsView;

    open spec fn view(&self) -> ClaimsView {
        ClaimsView { sub: self.sub@, exp: self.exp, iat: self.iat, is_admin: self.is_admin }
    }
}

impl Claims {
    /// A copy of these claims.
    pub fn duplicate(&self) -> (r: Claims)
        ensures
            r@ == self@,
    {
        Claims { sub: self.sub.clone(), exp: self.exp, iat: self.iat, is_admin: self.is_admin }
    }
}

/// The kinds of token-validation error: those of the JWT library, and `Other`
/// for a kind that the library may add.
#[derive(Clone, Copy, PartialEq, Eq, Structural, Debug)]
pub enum JwtErrorKind {
    InvalidToken,
    InvalidSignature,
    InvalidEcdsaKey,
    InvalidRsaKey,
    RsaFailedSigning,
    InvalidAlgorithmName,
    InvalidKeyFormat,
    MissingRequiredClaim,
    ExpiredSignature,
    InvalidIssuer,
    InvalidAudience,
    InvalidSubject,
    ImmatureSignature,
    InvalidAlgorithm,
    MissingAlgorithm,
    Base64,
    Json,
    Utf8,
    Crypto,
    Other,
}

/// Why a session token was rejected.
#[derive(Clone, Copy, PartialEq, Eq, Structural, Debug)]
pub enum SessionFailureReason {
    Expired,
    InvalidSignature,
    Malformed,
    InvalidClaims,
}

impl SessionFailureReason {
    /// The reason's name in logs.
    pub fn as_str(self) -> (r: &'static str)
        ensures
            r@ == reason_name(self),
    {
        match self {
            SessionFailureReason::Expired => "expired",
            SessionFailureReason::InvalidSignature => "invalid_signature",
            SessionFailureReason::Malformed => "malformed",
            SessionFailureReason::InvalidClaims => "invalid_claims",
        }
    }

    /// Whether the rejection hints at tampering rather than an old session.
    pub fn is_suspicious(self) -> (r: bool)
        ensures
            r == (self is InvalidSignature || self is Malformed),
    {
        matches!(self, SessionFailureReason::InvalidSignature | SessionFailureReason::Malformed)
    }
}

/// The log name of a failure reason.
pub open spec fn reason_name(r: SessionFailureReason) -> Seq<char> {
    match r {
        SessionFailureReason::Expired => "expired"@,
        SessionFailureReason::InvalidSignature => "invalid_signature"@,
        SessionFailureReason::Malformed => "malformed"@,
        SessionFailureReason::InvalidClaims => "invalid_claims"@,
    }
}

/// The failure reason for a validation error; `None` stands for an error that
/// is not a JWT library error.
pub open spec fn failure_reason(kind: Option<JwtErrorKind>) -> SessionFailureReason {
    match kind {
        None => SessionFailureReason::InvalidClaims,
        Some(JwtErrorKind::ExpiredSignature) => SessionFailureReason::Expired,
        Some(JwtErrorKind::InvalidSignature) => SessionFailureReason::InvalidSignature,
        Some(JwtErrorKind::InvalidToken) | Some(JwtErrorKind::InvalidAlgorithm) | Some(
            JwtErrorKind::InvalidAlgorithmName,
        ) | Some(JwtErrorKind::MissingAlgorithm) | Some(JwtErrorKind::Base64) | Some(
            JwtErrorKind::Json,
        ) | Some(JwtErrorKind::Utf8) => SessionFailureReason::Malformed,
        Some(_) => SessionFailureReason::InvalidClaims,
    }
}

/// Classifies a token-validation error.
pub fn classify_session_failure(kind: Option<JwtErrorKind>) -> (r: SessionFailureReason)
    ensures
        r == failure_reason(kind),
{
    match kind {
        None => SessionFailureReason::InvalidClaims,
        Some(JwtErrorKind::ExpiredSignature) => SessionFailureReason::Expired,
        Some(JwtErrorKind::InvalidSignature) => SessionFailureReason::InvalidSignature,
        Some(JwtErrorKind::InvalidToken) | Some(JwtErrorKind::InvalidAlgorithm) | Some(
            JwtErrorKind::InvalidAlgorithmName,
        ) | Some(JwtErrorKind::MissingAlgorithm) | Some(JwtErrorKind::Base64) | Some(
            JwtErrorKind::Json,
        ) | Some(JwtErrorKind::Utf8) => SessionFailureReason::Malformed,
        Some(_) => SessionFailureReason::InvalidClaims,
    }
}

/// Whether a refused token's signed claims are read again without the expiry
/// check, for the logs: only for an expired session.
pub fn reads_signed_claims(kind: Option<JwtErrorKind>) -> (r: bool)
    ensures
        r == (failure_reason(kind) is Expired),
{
    let reason = classify_session_failure(kind);
    matches!(reason, SessionFailureReason::Expired)
}

/// The claims of a new token for `username`, issued at `now` and expiring
/// `expiry_seconds` later (both in seconds since the Unix epoch); `None` when
/// the expiry does not fit in an `i64`.
pub fn session_claims(username: String, is_admin: bool, now: i64, expiry_seconds: i64) -> (r:
    Option<Claims>)
    ensures
        match r {
            Some(c) => {
                &&& c.sub@ == username@
                &&& c.is_admin == is_admin
                &&& c.iat == now
                &&& c.exp == now + expiry_seconds
            },
            None => !(i64::MIN <= now + expiry_seconds <= i64::MAX),
        },
{
    match now.checked_add(expiry_seconds) {
        Some(exp) => Some(Claims { sub: username, exp, iat: now, is_admin }),
        None => None,
    }
}

/// What validating one token gave.
pub enum TokenOutcome {
    /// The token is valid and carries these claims.
    Valid(Claims),
    /// The token was refused with an error of kind `error` (`None`: not a JWT
    /// library error); `signed_claims` are the claims of a token whose signature
    /// holds, read without the expiry check, when they could be read.
    Invalid { error: Option<JwtErrorKind>, signed_claims: Option<Claims> },
}

/// A rejected session cookie.
pub struct RejectedSessionCandidate {
    /// Position of the cookie among the session cookies.
    pub index: usize,
    /// Why it was rejected.
    pub reason: SessionFailureReason,
    /// Its signed claims, kept for expired sessions only.
    pub signed_claims: Option<Claims>,
}

/// A session chosen among the session cookies.
pub struct ValidatedCookieSession {
    pub claims: Claims,
    pub candidate_count: usize,
    pub selected_index: usize,
    pub rejected_candidates: Vec<RejectedSessionCandidate>,
}

/// Why no session could be chosen.
pub enum CookieSessionError {
    /// No session cookie was supplied.
    Missing,
    /// Session cookies were supplied and all of them were rejected.
    Invalid { candidate_count: usize, rejected_candidates: Vec<RejectedSessionCandidate> },
}

/// Whether an outcome is a valid token.
pub open spec fn is_valid(o: TokenOutcome) -> bool {
    o is Valid
}

/// Whether `c` records the rejection of outcome `o`, the `i`-th candidate.
pub open spec fn records_rejection(c: RejectedSessionCandidate, o: TokenOutcome, i: int) -> bool {
    match o {
        TokenOutcome::Valid(_) => false,
        TokenOutcome::Invalid { error, signed_claims } => {
            &&& c.index == i
            &&& c.reason == failure_reason(error)
            &&& if c.reason == SessionFailureReason::Expired {
                match (signed_claims, c.signed_claims) {
                    (Some(a), Some(b)) => a@ == b@,
                    (None, None) => true,
                    _ => false,
                }
            } else {
                c.signed_claims is None
            }
        },
    }
}

/// Whether `rejected` records, in order, the rejections of the first `n` outcomes.
pub open spec fn records_first_rejections(
    rejected: Seq<RejectedSessionCandidate>,
    outcomes: Seq<TokenOutcome>,
    n: int,
) -> bool {
    &&& rejected.len() == n
    &&& forall|i: int| 0 <= i < n ==> records_rejection(#[trigger] rejected[i], outcomes[i], i)
}

/// The position of the first valid outcome, if any.
pub open spec fn first_valid(outcomes: Seq<TokenOutcome>) -> Option<int> {
    if exists|i: int| 0 <= i < outcomes.len() && is_valid(#[trigger] outcomes[i]) {
        Some(
            choose|i: int|
                0 <= i < outcomes.len() && is_valid(outcomes[i]) && forall|j: int|
                    0 <= j < i ==> !is_valid(#[trigger] outcomes[j]),
        )
    } else {
        None
    }
}

fn copy_claims_opt(c: &Option<Claims>) -> (r: Option<Claims>)
    ensures
        match (*c, r) {
            (Some(a), Some(b)) => a@ == b@,
            (None, None) => true,
            _ => false,
        },
{
    match c {
        Some(x) => Some(x.duplicate()),
        None => None,
    }
}

/// Chooses the session among the outcomes of the session cookies, in cookie
/// order (`None`: no `Cookie` header): the first valid token wins and the
/// cookies before it are recorded as rejected; with no valid token the
/// session is invalid, and with no session cookie it is missing.
pub fn validate_cookie_session(outcomes: Option<&Vec<TokenOutcome>>) -> (r: Result<
    ValidatedCookieSession,
    CookieSessionError,
>)
    ensures
        match outcomes {
            None => r matches Err(CookieSessionError::Missing),
            Some(outs) => if outs@.len() == 0 {
                r matches Err(CookieSessionError::Missing)
            } else {
                match first_valid(outs@) {
                    Some(k) => match r {
                        Ok(s) => {
                            &&& s.candidate_count == outs@.len()
                            &&& s.selected_index == k
                            &&& outs@[k] matches TokenOutcome::Valid(c) && c@ == s.claims@
                            &&& records_first_rejections(s.rejected_candidates@, outs@, k)
                        },
                        Err(_) => false,
                    },
                    None => match r {
                        Err(CookieSessionError::Invalid { candidate_count, rejected_candidates }) => {
                            &&& candidate_count == outs@.len()
                            &&& records_first_rejections(
                                rejected_candidates@,
                                outs@,
                                outs@.len() as int,
                            )
                        },
                        _ => false,
                    },
                }
            },
        },
{
    let outs = match outcomes {
        None => return Err(CookieSessionError::Missing),
        Some(o) => o,
    };
    if outs.len() == 0 {
        return Err(CookieSessionError::Missing);
    }
    let candidate_count = outs.len();
    let mut rejected: Vec<RejectedSessionCandidate> = Vec::new();
    let mut i: usize = 0;
    while i < outs.len()
        invariant
            i <= outs@.len(),
            outcomes == Some(outs),
            candidate_count == outs@.len(),
            records_first_rejections(rejected@, outs@, i as int),
            forall|j: int| 0 <= j < i ==> !is_valid(#[trigger] outs@[j]),
        decreases outs@.len() - i,
    {
        match &outs[i] {
            TokenOutcome::Valid(claims) => {
                proof {
                    let k = first_valid(outs@);
                    assert(is_valid(outs@[i as int]));
                    let w = choose|w: int|
                        0 <= w < outs@.len() && is_valid(outs@[w]) && forall|j: int|
                            0 <= j < w ==> !is_valid(#[trigger] outs@[j]);
                    if w < i {
                        assert(!is_valid(outs@[w]));
                    } else if i < w {
                        assert(!is_valid(outs@[i as int]));
                    }
                }
                return Ok(
                    ValidatedCookieSession {
                        claims: claims.duplicate(),
                        candidate_count,
                        selected_index: i,
                        rejected_candidates: rejected,
                    },
                );
            },
            TokenOutcome::Invalid { error, signed_claims } => {
                let reason = classify_session_failure(*error);
                let ghost before = rejected@;
                let kept = if reason == SessionFailureReason::Expired {
                    copy_claims_opt(signed_claims)
                } else {
                    None
                };
                rejected.push(RejectedSessionCandidate { index: i, reason, signed_claims: kept });
                proof {
                    assert(records_rejection(rejected@[i as int], outs@[i as int], i as int));
                    assert forall|j: int| 0 <= j < i + 1 implies records_rejection(
                        #[trigger] rejected@[j],
                        outs@[j],
                        j,
                    ) by {
                        if j < i {
                            assert(rejected@[j] == before[j]);
                        }
                    }
                }
            },
        }
        i = i + 1;
    }
    Err(CookieSessionError::Invalid { candidate_count, rejected_candidates: rejected })
}

/// The token of an `Authorization` header value of the form `Bearer <token>`.
pub open spec fn bearer_token_of(header: Seq<char>) -> Option<Seq<char>> {
    let prefix = "Bearer "@;
    if header.len() >= prefix.len() && header.take(prefix.len() as int) == prefix {
        Some(header.skip(prefix.len() as int))
    } else {
        None
    }
}

/// The token carried by an `Authorization: Bearer <token>` header value.
pub fn bearer_token(authorization: &str) -> (r: Option<String>)
    ensures
        match r {
            Some(t) => bearer_token_of(authorization@) == Some(t@),
            None => bearer_token_of(authorization@) is None,
        },
{
    let v = chars_of(authorization);
    let prefix = chars_of("Bearer ");
    if v.len() >= prefix.len() && slice_eq(&v, 0, prefix.len(), &prefix) {
        Some(string_of_range(&v, prefix.len(), v.len()))
    } else {
        None
    }
}

/// The user of a request: a valid bearer token first, then a valid session
/// cookie; the bearer outcome is `None` when the request carries no bearer token.
pub open spec fn request_user(
    bearer: Option<TokenOutcome>,
    cookies: Option<Seq<TokenOutcome>>,
) -> Option<(Seq<char>, bool)> {
    match bearer {
        Some(TokenOutcome::Valid(c)) => Some((c.sub@, c.is_admin)),
        _ => match cookies {
            Some(outs) => match first_valid(outs) {
                Some(k) => match outs[k] {
                    TokenOutcome::Valid(c) => Some((c.sub@, c.is_admin)),
                    _ => None,
                },
                None => None,
            },
            None => None,
        },
    }
}

/// Authenticates a request from its bearer-token outcome and its session-cookie
/// outcomes: the bearer token takes precedence, the cookie is the fallback.
pub fn extract_and_validate_token(
    bearer: Option<&TokenOutcome>,
    cookies: Option<&Vec<TokenOutcome>>,
) -> (r: Result<(String, bool), &'static str>)
    ensures
        match r {
            Ok((name, admin)) => request_user(
                match bearer {
                    Some(b) => Some(*b),
                    None => None,
                },
                match cookies {
                    Some(c) => Some(c@),
                    None => None,
                },
            ) == Some((name@, admin)),
            Err(msg) => msg@ == "Missing or invalid authentication"@ && request_user(
                match bearer {
                    Some(b) => Some(*b),
                    None => None,
                },
                match cookies {
                    Some(c) => Some(c@),
                    None => None,
                },
            ) is None,
        },
{
    if let Some(TokenOutcome::Valid(claims)) = bearer {
        return Ok((claims.sub.clone(), claims.is_admin));
    }
    match validate_cookie_session(cookies) {
        Ok(session) => Ok((session.claims.sub, session.claims.is_admin)),
        Err(_) => Err("Missing or invalid authentication"),
    }
}

/// Among the session cookies the first valid token is chosen: rejected cookies
/// before it (an expired session followed by its replacement) do not prevent
/// it, and valid cookies after it are not read.
pub proof fn law_first_valid_cookie_wins(outcomes: Seq<TokenOutcome>, k: int)
    requires
        0 <= k < outcomes.len(),
        is_valid(outcomes[k]),
        forall|j: int| 0 <= j < k ==> !is_valid(#[trigger] outcomes[j]),
    ensures
        first_valid(outcomes) == Some(k),
{
    let w = choose|w: int|
        0 <= w < outcomes.len() && is_valid(outcomes[w]) && forall|j: int|
            0 <= j < w ==> !is_valid(#[trigger] outcomes[j]);
    assert(0 <= w < outcomes.len() && is_valid(outcomes[w]));
    if w < k {
        assert(!is_valid(outcomes[w]));
    } else if k < w {
        assert(!is_valid(outcomes[k]));
    }
}

/// A valid bearer token decides the user of a request, whatever its session
/// cookies hold.
pub proof fn law_bearer_takes_precedence(claims: Claims, cookies: Option<Seq<TokenOutcome>>)
    ensures
        request_user(Some(TokenOutcome::Valid(claims)), cookies) == Some(
            (claims.sub@, claims.is_admin),
        ),
{
}

/// A request with neither a valid bearer token nor a valid session cookie has
/// no user.
pub proof fn law_no_valid_token_no_user(
    bearer: Option<TokenOutcome>,
    cookies: Option<Seq<TokenOutcome>>,
)
    requires
        match bearer {
            Some(b) => !is_valid(b),
            None => true,
        },
        match cookies {
            Some(outs) => forall|i: int| 0 <= i < outs.len() ==> !is_valid(#[trigger] outs[i]),
            None => true,
        },
    ensures
        request_user(bearer, cookies) is None,
{
}

/// Authenticated user of an API request (bearer token or cookie).
pub struct AuthenticatedUser {
    pub username: String,
    pub is_admin: bool,
}

impl AuthenticatedUser {
    /// The access context of this user.
    pub fn into_context(self) -> (r: AuthContext)
        ensures
            r.username@ == self.username@,
            r.is_admin == self.is_admin,
    {
        AuthContext::new(self.username, self.is_admin)
    }
}

/// Authenticated user of an HTML page (session cookie only).
pub struct AuthenticatedUserFromCookie {
    pub username: String,
    pub is_admin: bool,
}

impl AuthenticatedUserFromCookie {
    /// The access context of this user.
    pub fn into_context(self) -> (r: AuthContext)
        ensures
            r.username@ == self.username@,
            r.is_admin == self.is_admin,
    {
        AuthContext::new(self.username, self.is_admin)
    }
}

/// Where an HTML page without a usable session sends the browser.
#[derive(Clone, Copy, PartialEq, Eq, Structural, Debug)]
pub enum AuthRedirect {
    /// No session cookie: redirect to login.
    SessionRequired,
    /// Rejected session cookie: clear it and redirect to login.
    InvalidSession,
}

impl AuthRedirect {
    /// The redirect target.
    pub fn location(self) -> (r: &'static str)
        ensures
            r@ == (match self {
                AuthRedirect::SessionRequired => "/login?error=session_required"@,
                AuthRedirect::InvalidSession => "/login?error=session_expired"@,
            }),
    {
        match self {
            AuthRedirect::SessionRequired => "/login?error=session_required",
            AuthRedirect::InvalidSession => "/login?error=session_expired",
        }
    }

    /// Whether the response also clears the session cookie.
    pub fn clears_cookie(self) -> (r: bool)
        ensures
            r == (self is InvalidSession),
    {
        matches!(self, AuthRedirect::InvalidSession)
    }

    /// HTTP status of the redirect (303 See Other).
    pub fn status_code(self) -> (r: u16)
        ensures
            r == 303,
    {
        303
    }
}

/// The redirect for a session that could not be established.
pub fn redirect_for_session_error(error: &CookieSessionError) -> (r: AuthRedirect)
    ensures
        r == (match error {
            CookieSessionError::Missing => AuthRedirect::SessionRequired,
            CookieSessionError::Invalid { .. } => AuthRedirect::InvalidSession,
        }),
{
    match error {
        CookieSessionError::Missing => AuthRedirect::SessionRequired,
        CookieSessionError::Invalid { .. } => AuthRedirect::InvalidSession,
    }
}

/// The redirect of an admin-only page whose session could not be
/// established: every failed authentication goes to the login page with
/// `error=session_required`, and the session cookie is left as it is.
pub fn admin_redirect_for_session_error(error: &CookieSessionError) -> (r: AuthRedirect)
    ensures
        r == AuthRedirect::SessionRequired,
{
    AuthRedirect::SessionRequired
}

/// The page user of a chosen session.
pub fn user_from_session(session: ValidatedCookieSession) -> (r: AuthenticatedUserFromCookie)
    ensures
        r.username@ == session.claims.sub@,
        r.is_admin == session.claims.is_admin,
{
    AuthenticatedUserFromCookie { username: session.claims.sub, is_admin: session.claims.is_admin }
}

/// Admin user of an admin-only page.
pub struct AdminUser {
    pub username: String,
}

impl AdminUser {
    /// The access context of this admin.
    pub fn into_context(self) -> (r: AuthContext)
        ensures
            r.username@ == self.username@,
            r.is_admin,
    {
        AuthContext::new(self.username, true)
    }
}

/// Refusal of an admin-only page to a user without admin rights (403).
pub struct AdminForbidden {
    pub username: String,
}

/// Admits the user of a chosen session to an admin-only page, or refuses them.
pub fn admin_from_session(session: ValidatedCookieSession) -> (r: Result<AdminUser, AdminForbidden>)
    ensures
        match r {
            Ok(a) => session.claims.is_admin && a.username@ == session.claims.sub@,
            Err(f) => !session.claims.is_admin && f.username@ == session.claims.sub@,
        },
{
    if !session.claims.is_admin {
        return Err(AdminForbidden { username: session.claims.sub });
    }
    Ok(AdminUser { username: session.claims.sub })
}

/// Why an admin-only page was not served.
pub enum AdminPageRefusal {
    /// No usable session: redirect to the login page.
    Redirect(AuthRedirect),
    /// A user without admin rights: the 403 page.
    Forbidden(AdminForbidden),
}

/// The decision of an admin-only page on the session found in the request:
/// without a usable session, a redirect to `/login?error=session_required`;
/// a user without admin rights gets the 403 page; an admin is admitted.
pub fn admin_page_user(session: Result<ValidatedCookieSession, CookieSessionError>) -> (r: Result<
    AdminUser,
    AdminPageRefusal,
>)
    ensures
        match session {
            Err(_) => r matches Err(AdminPageRefusal::Redirect(AuthRedirect::SessionRequired)),
            Ok(s) => if s.claims.is_admin {
                r matches Ok(a) && a.username@ == s.claims.sub@
            } else {
                r matches Err(AdminPageRefusal::Forbidden(f)) && f.username@ == s.claims.sub@
            },
        },
{
    match session {
        Err(error) => Err(AdminPageRefusal::Redirect(admin_redirect_for_session_error(&error))),
        Ok(s) => match admin_from_session(s) {
            Ok(a) => Ok(a),
            Err(f) => Err(AdminPageRefusal::Forbidden(f)),
        },
    }
}

/// The decision of a page for any signed-in user on the session found in the
/// request: the session's user, or the redirect for the session error
/// (`session_required` without a cookie, `session_expired` with cookie
/// clearing when every cookie was rejected).
pub fn cookie_page_user(session: Result<ValidatedCookieSession, CookieSessionError>) -> (r: Result<
    AuthenticatedUserFromCookie,
    AuthRedirect,
>)
    ensures
        match session {
            Err(CookieSessionError::Missing) => r == Err::<AuthenticatedUserFromCookie, AuthRedirect>(
                AuthRedirect::SessionRequired,
            ),
            Err(CookieSessionError::Invalid { .. }) => r == Err::<
                AuthenticatedUserFromCookie,
                AuthRedirect,
            >(AuthRedirect::InvalidSession),
            Ok(s) => r matches Ok(u) && u.username@ == s.claims.sub@ && u.is_admin
                == s.claims.is_admin,
        },
{
    match session {
        Err(error) => Err(redirect_for_session_error(&error)),
        Ok(s) => Ok(user_from_session(s)),
    }
}

/// How a rejected session is logged.
#[derive(Clone, Copy, PartialEq, Eq, Structural, Debug)]
pub enum RejectionSeverity {
    /// Some cookie looks tampered with: logged as a warning.
    Suspicious,
    /// An expired session whose signed claims are known: logged with them.
    Expired,
    /// Otherwise: logged as information.
    Invalid,
}

/// The severity of a session rejection, given its rejected candidates.
pub open spec fn rejection_severity(rejected: Seq<RejectedSessionCandidate>) -> RejectionSeverity {
    if exists|i: int|
        0 <= i < rejected.len() && ((#[trigger] rejected[i]).reason is InvalidSignature || (
        rejected[i]).reason is Malformed) {
        RejectionSeverity::Suspicious
    } else if exists|i: int| 0 <= i < rejected.len() && (#[trigger] rejected[i]).signed_claims is Some {
        RejectionSeverity::Expired
    } else {
        RejectionSeverity::Invalid
    }
}

/// Decides how to log a rejected session: a suspicious reason wins over known
/// expired claims.
pub fn classify_rejection(rejected: &Vec<RejectedSessionCandidate>) -> (r: RejectionSeverity)
    ensures
        r == rejection_severity(rejected@),
{
    let mut i: usize = 0;
    let mut has_claims = false;
    while i < rejected.len()
        invariant
            i <= rejected@.len(),
            forall|j: int|
                0 <= j < i ==> !((#[trigger] rejected@[j]).reason is InvalidSignature || (
                rejected@[j]).reason is Malformed),
            has_claims == exists|j: int| 0 <= j < i && (#[trigger] rejected@[j]).signed_claims is Some,
        decreases rejected@.len() - i,
    {
        if rejected[i].reason.is_suspicious() {
            return RejectionSeverity::Suspicious;
        }
        if rejected[i].signed_claims.is_some() {
            has_claims = true;
        }
        i = i + 1;
    }
    if has_claims {
        RejectionSeverity::Expired
    } else {
        RejectionSeverity::Invalid
    }
}

/// The answer to a token-validation request.
pub struct ValidateResponse {
    pub valid: bool,
    pub username: Option<String>,
    pub is_admin: Option<bool>,
    pub expires_at: Option<i64>,
}

/// Answers a token-validation request from the validation outcome: the
/// claims of a valid token, nothing else for a refused one.
pub fn validate_response(outcome: &TokenOutcome) -> (r: ValidateResponse)
    ensures
        match *outcome {
            TokenOutcome::Valid(c) => {
                &&& r.valid
                &&& r.username matches Some(u) && u@ == c.sub@
                &&& r.is_admin == Some(c.is_admin)
                &&& r.expires_at == Some(c.exp)
            },
            TokenOutcome::Invalid { .. } => {
                &&& !r.valid
                &&& r.username is None
                &&& r.is_admin is None
                &&& r.expires_at is None
            },
        },
{
    match outcome {
        TokenOutcome::Valid(c) => ValidateResponse {
            valid: true,
            username: Some(c.sub.clone()),
            is_admin: Some(c.is_admin),
            expires_at: Some(c.exp),
        },
        TokenOutcome::Invalid { .. } => ValidateResponse {
            valid: false,
            username: None,
            is_admin: None,
            expires_at: None,
        },
    }
}

/// The log event of a chosen session: a plain validation, or a recovery from
/// rejected duplicate cookies before the chosen one.
pub fn validated_session_event(session: &ValidatedCookieSession) -> (r: &'static str)
    ensures
        r@ == if session.rejected_candidates@.len() == 0 {
            "auth.session_validated"@
        } else {
            "auth.session_duplicate_recovered"@
        },
{
    if session.rejected_candidates.len() == 0 {
        "auth.session_validated"
    } else {
        "auth.session_duplicate_recovered"
    }
}

/// The names of the rejection reasons, in cookie order, as the logs list them.
pub fn rejection_reasons(rejected: &Vec<RejectedSessionCandidate>) -> (r: Vec<&'static str>)
    ensures
        r@.len() == rejected@.len(),
        forall|i: int| 0 <= i < r@.len() ==> (#[trigger] r@[i])@ == reason_name(rejected@[i].reason),
{
    let mut names: Vec<&'static str> = Vec::new();
    let mut i: usize = 0;
    while i < rejected.len()
        invariant
            i <= rejected@.len(),
            names@.len() == i,
            forall|k: int| 0 <= k < i ==> (#[trigger] names@[k])@ == reason_name(rejected@[k].reason),
        decreases rejected@.len() - i,
    {
        names.push(rejected[i].reason.as_str());
        i = i + 1;
    }
    names
}

/// The cookie positions of the rejected candidates, in order.
pub fn rejected_indices(rejected: &Vec<RejectedSessionCandidate>) -> (r: Vec<usize>)
    ensures
        r@.len() == rejected@.len(),
        forall|i: int| 0 <= i < r@.len() ==> #[trigger] r@[i] == rejected@[i].index,
{
    let mut out: Vec<usize> = Vec::new();
    let mut i: usize = 0;
    while i < rejected.len()
        invariant
            i <= rejected@.len(),
            out@.len() == i,
            forall|k: int| 0 <= k < i ==> #[trigger] out@[k] == rejected@[k].index,
        decreases rejected@.len() - i,
    {
        out.push(rejected[i].index);
        i = i + 1;
    }
    out
}

/// The position of the first rejected candidate whose signed claims are known
/// (the claims that an expired-session log line shows).
pub fn first_signed_claims(rejected: &Vec<RejectedSessionCandidate>) -> (r: Option<usize>)
    ensures
        match r {
            Some(k) => k < rejected@.len() && rejected@[k as int].signed_claims is Some && forall|
                j: int,
            | 0 <= j < k ==> (#[trigger] rejected@[j]).signed_claims is None,
            None => forall|j: int|
                0 <= j < rejected@.len() ==> (#[trigger] rejected@[j]).signed_claims is None,
        },
{
    let mut i: usize = 0;
    while i < rejected.len()
        invariant
            i <= rejected@.len(),
            forall|j: int| 0 <= j < i ==> (#[trigger] rejected@[j]).signed_claims is None,
        decreases rejected@.len() - i,
    {
        if rejected[i].signed_claims.is_some() {
            return Some(i);
        }
        i = i + 1;
    }
    None
}

/// The rejection reasons as a debug list: `["expired", "malformed"]`.
pub open spec fn reasons_list(rejected: Seq<RejectedSessionCandidate>) -> Seq<char>
    decreases rejected.len(),
{
    if rejected.len() == 0 {
        "[]"@
    } else {
        reasons_items(rejected) + "]"@
    }
}

/// `["a", "b"` (without the closing bracket) for a non-empty list.
pub open spec fn reasons_items(rejected: Seq<RejectedSessionCandidate>) -> Seq<char>
    decreases rejected.len(),
{
    if rejected.len() <= 1 {
        "[\""@ + reason_name(rejected[0].reason) + "\""@
    } else {
        reasons_items(rejected.drop_last()) + ", \""@ + reason_name(rejected.last().reason) + "\""@
    }
}

/// The log line of a rejected session: the event, the request path, the
/// action taken, the number of session cookies and the rejection reasons.
/// It is built from the rejection's record alone, so no token text can
/// appear in it.
pub open spec fn rejection_log(
    path: Seq<char>,
    candidate_count: usize,
    rejected: Seq<RejectedSessionCandidate>,
    action: Seq<char>,
) -> Seq<char> {
    "event=auth.session_rejected path="@ + path + " action="@ + action
        + " cookie_candidate_count="@ + decimal_nat(candidate_count as nat)
        + " validation_reasons="@ + reasons_list(rejected)
}

/// Builds the log line of a rejected session (see [`rejection_log`]).
pub fn rejected_session_log(
    path: &str,
    candidate_count: usize,
    rejected: &Vec<RejectedSessionCandidate>,
    action: &str,
) -> (r: String)
    requires
        candidate_count <= u64::MAX,
    ensures
        r@ == rejection_log(path@, candidate_count, rejected@, action@),
{
    let mut out: Vec<char> = Vec::new();
    push_str_chars(&mut out, "event=auth.session_rejected path=");
    push_str_chars(&mut out, path);
    push_str_chars(&mut out, " action=");
    push_str_chars(&mut out, action);
    push_str_chars(&mut out, " cookie_candidate_count=");
    push_decimal_u64(&mut out, candidate_count as u64);
    push_str_chars(&mut out, " validation_reasons=");
    let ghost head = out@;
    if rejected.len() == 0 {
        push_str_chars(&mut out, "[]");
    } else {
        let mut i: usize = 0;
        while i < rejected.len()
            invariant
                i <= rejected@.len(),
                rejected@.len() > 0,
                i == 0 ==> out@ == head,
                i > 0 ==> out@ == head + reasons_items(rejected@.take(i as int)),
            decreases rejected@.len() - i,
        {
            if i == 0 {
                push_str_chars(&mut out, "[\"");
            } else {
                push_str_chars(&mut out, ", \"");
            }
            push_str_chars(&mut out, rejected[i].reason.as_str());
            push_str_chars(&mut out, "\"");
            proof {
                let t = rejected@.take(i + 1);
                assert(t.drop_last() == rejected@.take(i as int));
                assert(t.last() == rejected@[i as int]);
                if i == 0 {
                    assert(t[0] == rejected@[0]);
                }
            }
            i = i + 1;
        }
        assert(rejected@.take(rejected@.len() as int) == rejected@);
        push_str_chars(&mut out, "]");
    }
    string_from_chars(&out)
}

/// Severity of a log event.
#[derive(Clone, Copy, PartialEq, Eq, Structural, Debug)]
pub enum LogLevel {
    Debug,
    Info,
    Warn,
}

/// One log event: its severity and its line of `key=value` fields.
pub struct LogEvent {
    pub level: LogLevel,
    pub line: String,
}

/// `true` or `false`.
pub open spec fn bool_text(b: bool) -> Seq<char> {
    if b {
        "true"@
    } else {
        "false"@
    }
}

/// Whether `k` is the first rejected candidate whose signed claims are known.
pub open spec fn is_first_claims(rejected: Seq<RejectedSessionCandidate>, k: int) -> bool {
    &&& 0 <= k < rejected.len()
    &&& rejected[k].signed_claims is Some
    &&& forall|j: int| 0 <= j < k ==> (#[trigger] rejected[j]).signed_claims is None
}

/// The signed claims of the first rejected candidate that has them.
pub open spec fn first_claims(rejected: Seq<RejectedSessionCandidate>) -> ClaimsView {
    let k = choose|k: int| is_first_claims(rejected, k);
    rejected[k].signed_claims.unwrap()@
}

/// The claim fields of an expired-session log line.
pub open spec fn claims_fields(c: ClaimsView) -> Seq<char> {
    " username="@ + c.sub + " is_admin="@ + bool_text(c.is_admin) + " issued_at="@ + decimal_int(
        c.iat as int,
    ) + " expires_at="@ + decimal_int(c.exp as int)
}

/// The level of the rejection event: a warning for a suspicious cookie,
/// information otherwise.
pub open spec fn rejection_level(severity: RejectionSeverity) -> LogLevel {
    match severity {
        RejectionSeverity::Suspicious => LogLevel::Warn,
        _ => LogLevel::Info,
    }
}

/// The rejection event's line: the fields of [`rejection_log`], the claims of
/// an expired session when no cookie looks tampered with, and the message.
pub open spec fn rejection_event_line(
    path: Seq<char>,
    candidate_count: usize,
    rejected: Seq<RejectedSessionCandidate>,
    action: Seq<char>,
) -> Seq<char> {
    let base = rejection_log(path, candidate_count, rejected, action);
    match rejection_severity(rejected) {
        RejectionSeverity::Expired => base + claims_fields(first_claims(rejected))
            + " message=\"Rejected expired session cookie\""@,
        _ => base + " message=\"Rejected invalid session cookies\""@,
    }
}

/// The event of a request without any session cookie.
pub open spec fn missing_session_line(path: Seq<char>, action: Seq<char>) -> Seq<char> {
    "event=auth.session_missing path="@ + path + " action="@ + action
        + " message=\"No session cookie was supplied\""@
}

/// The event that follows a rejection: the session cookie is cleared.
pub open spec fn session_cleared_line(
    path: Seq<char>,
    candidate_count: usize,
    action: Seq<char>,
) -> Seq<char> {
    "event=auth.session_cleared path="@ + path + " action="@ + action + " cookie_candidate_count="@
        + decimal_nat(candidate_count as nat) + " message=\"Clearing invalid session cookie\""@
}

fn push_bool(out: &mut Vec<char>, b: bool)
    ensures
        final(out)@ == old(out)@ + bool_text(b),
{
    if b {
        push_str_chars(out, "true");
    } else {
        push_str_chars(out, "false");
    }
}

/// The log events of a session that could not be established, in order: a
/// debug event when no session cookie came; otherwise the rejection event
/// (a warning when a cookie looks tampered with) followed by the
/// `auth.session_cleared` event.
pub fn trace_rejected_session(path: &str, error: &CookieSessionError, action: &str) -> (r: Vec<
    LogEvent,
>)
    ensures
        match error {
            CookieSessionError::Missing => {
                &&& r@.len() == 1
                &&& r@[0].level == LogLevel::Debug
                &&& r@[0].line@ == missing_session_line(path@, action@)
            },
            CookieSessionError::Invalid { candidate_count, rejected_candidates } => {
                &&& r@.len() == 2
                &&& r@[0].level == rejection_level(rejection_severity(rejected_candidates@))
                &&& r@[0].line@ == rejection_event_line(
                    path@,
                    *candidate_count,
                    rejected_candidates@,
                    action@,
                )
                &&& r@[1].level == LogLevel::Info
                &&& r@[1].line@ == session_cleared_line(path@, *candidate_count, action@)
            },
        },
{
    let mut events: Vec<LogEvent> = Vec::new();
    match error {
        CookieSessionError::Missing => {
            let mut out: Vec<char> = Vec::new();
            push_str_chars(&mut out, "event=auth.session_missing path=");
            push_str_chars(&mut out, path);
            push_str_chars(&mut out, " action=");
            push_str_chars(&mut out, action);
            push_str_chars(&mut out, " message=\"No session cookie was supplied\"");
            events.push(LogEvent { level: LogLevel::Debug, line: string_from_chars(&out) });
        },
        CookieSessionError::Invalid { candidate_count, rejected_candidates } => {
            let severity = classify_rejection(rejected_candidates);
            let base = rejected_session_log(path, *candidate_count, rejected_candidates, action);
            let mut out = chars_of(base.as_str());
            let level = match severity {
                RejectionSeverity::Suspicious => LogLevel::Warn,
                _ => LogLevel::Info,
            };
            match severity {
                RejectionSeverity::Expired => {
                    match first_signed_claims(rejected_candidates) {
                        Some(k) => {
                            proof {
                                let rc = rejected_candidates@;
                                assert(is_first_claims(rc, k as int));
                                let c = choose|c: int| is_first_claims(rc, c);
                                if c < k {
                                    assert(rc[c].signed_claims is None);
                                } else if k < c {
                                    assert(rc[k as int].signed_claims is None);
                                }
                                assert(c == k);
                            }
                            match &rejected_candidates[k].signed_claims {
                                Some(claims) => {
                                    push_str_chars(&mut out, " username=");
                                    push_str_chars(&mut out, claims.sub.as_str());
                                    push_str_chars(&mut out, " is_admin=");
                                    push_bool(&mut out, claims.is_admin);
                                    push_str_chars(&mut out, " issued_at=");
                                    push_decimal_i64(&mut out, claims.iat);
                                    push_str_chars(&mut out, " expires_at=");
                                    push_decimal_i64(&mut out, claims.exp);
                                },
                                None => {},
                            }
                        },
                        None => {},
                    }
                    push_str_chars(&mut out, " message=\"Rejected expired session cookie\"");
                },
                _ => {
                    push_str_chars(&mut out, " message=\"Rejected invalid session cookies\"");
                },
            }
            events.push(LogEvent { level, line: string_from_chars(&out) });
            let mut cleared: Vec<char> = Vec::new();
            push_str_chars(&mut cleared, "event=auth.session_cleared path=");
            push_str_chars(&mut cleared, path);
            push_str_chars(&mut cleared, " action=");
            push_str_chars(&mut cleared, action);
            push_str_chars(&mut cleared, " cookie_candidate_count=");
            push_decimal_u64(&mut cleared, *candidate_count as u64);
            push_str_chars(&mut cleared, " message=\"Clearing invalid session cookie\"");
            events.push(LogEvent { level: LogLevel::Info, line: string_from_chars(&cleared) });
        },
    }
    events
}

} // verus!
