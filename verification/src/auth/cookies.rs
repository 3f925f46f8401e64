//! The authentication cookie: building `Set-Cookie` values and reading the
//! token back from a `Cookie` header.
use crate::text::{
    chars_of, decimal_int, find_char, has_char, is_whitespace, lemma_first_index,
    lemma_split_concat, lemma_split_without_separator, push_decimal_i64, push_str_chars, slice_eq,
    split_char, split_once, string_from_chars, string_of_range, trim, trim_bounds, trim_end,
    trim_start,
};
use vstd::prelude::*;

verus! {

/// Cookie name for the authentication token.
pub const AUTH_COOKIE_NAME: &'static str = "sherpa_auth";

/// Cookie max-age for normal sessions (7 days, in seconds).
pub const COOKIE_MAX_AGE_NORMAL: i64 = 7 * 24 * 60 * 60;

/// Cookie max-age for "remember me" sessions (30 days, in seconds).
pub const COOKIE_MAX_AGE_REMEMBER: i64 = 30 * 24 * 60 * 60;

/// The attributes that follow the token in an authentication cookie.
pub open spec fn cookie_attributes() -> Seq<char> {
    "; Path=/; HttpOnly; SameSite=Strict; Max-Age="@
}

/// The max-age chosen for a session.
pub open spec fn session_max_age(remember_me: bool) -> i64 {
    if remember_me {
        COOKIE_MAX_AGE_REMEMBER
    } else {
        COOKIE_MAX_AGE_NORMAL
    }
}

/// The `Set-Cookie` value carrying `token`, as sent without TLS.
pub open spec fn auth_cookie(token: Seq<char>, remember_me: bool) -> Seq<char> {
    AUTH_COOKIE_NAME@ + "="@ + token + cookie_attributes() + decimal_int(
        session_max_age(remember_me) as int,
    )
}

/// The `Set-Cookie` value carrying `token`; a server that serves HTTPS
/// (`secure`) marks it `Secure`, so that browsers send it over HTTPS only.
pub open spec fn session_cookie(token: Seq<char>, remember_me: bool, secure: bool) -> Seq<char> {
    if secure {
        auth_cookie(token, remember_me) + "; Secure"@
    } else {
        auth_cookie(token, remember_me)
    }
}

/// The `Set-Cookie` value that expires the authentication cookie: empty,
/// with a zero max-age and an expiry date at the Unix epoch.
pub open spec fn clear_cookie() -> Seq<char> {
    AUTH_COOKIE_NAME@ + "=; Path=/; HttpOnly; SameSite=Strict; Max-Age=0"@
        + "; Expires=Thu, 01 Jan 1970 00:00:00 GMT"@
}

/// Creates the authentication cookie for `token`: HttpOnly, SameSite=Strict,
/// Path=/, valid 30 days with `remember_me` and 7 days otherwise, and
/// `Secure` when the server serves HTTPS (`secure`).
pub fn create_session_cookie(token: &str, remember_me: bool, secure: bool) -> (r: String)
    ensures
        r@ == session_cookie(token@, remember_me, secure),
{
    let max_age = if remember_me {
        COOKIE_MAX_AGE_REMEMBER
    } else {
        COOKIE_MAX_AGE_NORMAL
    };
    let mut out: Vec<char> = Vec::new();
    push_str_chars(&mut out, AUTH_COOKIE_NAME);
    push_str_chars(&mut out, "=");
    push_str_chars(&mut out, token);
    push_str_chars(&mut out, "; Path=/; HttpOnly; SameSite=Strict; Max-Age=");
    push_decimal_i64(&mut out, max_age);
    if secure {
        push_str_chars(&mut out, "; Secure");
    }
    string_from_chars(&out)
}

/// Creates the authentication cookie for `token` as a server without TLS
/// sends it (development and testing): HttpOnly, SameSite=Strict, Path=/,
/// valid 30 days with `remember_me` and 7 days otherwise, without `Secure`.
pub fn create_auth_cookie(token: &str, remember_me: bool) -> (r: String)
    ensures
        r@ == auth_cookie(token@, remember_me),
{
    create_session_cookie(token, remember_me, false)
}

/// Creates a cookie that clears the authentication cookie (Max-Age=0, expired
/// at the epoch).
pub fn create_clear_cookie() -> (r: String)
    ensures
        r@ == clear_cookie(),
{
    let mut out: Vec<char> = Vec::new();
    push_str_chars(&mut out, AUTH_COOKIE_NAME);
    push_str_chars(&mut out, "=; Path=/; HttpOnly; SameSite=Strict; Max-Age=0");
    push_str_chars(&mut out, "; Expires=Thu, 01 Jan 1970 00:00:00 GMT");
    string_from_chars(&out)
}

/// The value of one `name=value` cookie pair when its name is the
/// authentication cookie's (after trimming the pair).
pub open spec fn auth_pair_value(pair: Seq<char>) -> Option<Seq<char>> {
    match split_once(trim(pair), '=') {
        Some((name, value)) => if name == AUTH_COOKIE_NAME@ {
            Some(value)
        } else {
            None
        },
        None => None,
    }
}

/// The authentication-cookie values among `pairs`, in order.
pub open spec fn auth_values(pairs: Seq<Seq<char>>) -> Seq<Seq<char>>
    decreases pairs.len(),
{
    if pairs.len() == 0 {
        Seq::empty()
    } else {
        let p = auth_values(pairs.drop_last());
        match auth_pair_value(pairs.last()) {
            Some(v) => p.push(v),
            None => p,
        }
    }
}

/// Every authentication-cookie value of a `Cookie` header, in order.
pub open spec fn auth_tokens(header: Seq<char>) -> Seq<Seq<char>> {
    auth_values(split_char(header, ';'))
}

/// The first authentication-cookie value of a `Cookie` header.
pub open spec fn auth_token(header: Seq<char>) -> Option<Seq<char>> {
    if auth_tokens(header).len() > 0 {
        Some(auth_tokens(header)[0])
    } else {
        None
    }
}

/// Bounds of the value of the pair `v[a..b]` when it is an authentication-cookie pair.
fn pair_value(v: &[char], a: usize, b: usize, name: &[char]) -> (r: Option<(usize, usize)>)
    requires
        a <= b <= v@.len(),
        name@ == AUTH_COOKIE_NAME@,
    ensures
        match r {
            Some((x, y)) => x <= y <= v@.len() && auth_pair_value(v@.subrange(a as int, b as int))
                == Some(v@.subrange(x as int, y as int)),
            None => auth_pair_value(v@.subrange(a as int, b as int)) is None,
        },
{
    let (ta, tb) = trim_bounds(v, a, b);
    let ghost t = v@.subrange(ta as int, tb as int);
    match find_char(v, ta, tb, '=') {
        None => None,
        Some(e) => {
            proof {
                lemma_first_index(t, '=', e - ta);
                assert(t.take(e - ta) == v@.subrange(ta as int, e as int));
                assert(t.skip(e - ta + 1) == v@.subrange(e + 1, tb as int));
            }
            if slice_eq(v, ta, e, name) {
                Some((e + 1, tb))
            } else {
                None
            }
        },
    }
}

/// Extracts every authentication token from a `Cookie` header value, in the
/// order the cookies appear.
pub fn extract_tokens_from_cookie(cookie_header: &str) -> (r: Vec<String>)
    ensures
        r.deep_view() == auth_tokens(cookie_header@),
{
    let v = chars_of(cookie_header);
    let name = chars_of(AUTH_COOKIE_NAME);
    let ghost s = v@;
    let mut out: Vec<String> = Vec::new();
    let mut start: usize = 0;
    let mut i: usize = 0;
    proof {
        assert(s.take(0) == Seq::<char>::empty());
    }
    while i < v.len()
        invariant
            s == v@,
            s == cookie_header@,
            name@ == AUTH_COOKIE_NAME@,
            start <= i <= v@.len(),
            split_char(s.take(i as int), ';').len() >= 1,
            split_char(s.take(i as int), ';').last() == s.subrange(start as int, i as int),
            out.deep_view() == auth_values(split_char(s.take(i as int), ';').drop_last()),
        decreases v@.len() - i,
    {
        let ghost p = split_char(s.take(i as int), ';');
        assert(s.take(i + 1).drop_last() == s.take(i as int));
        assert(s.take(i + 1).last() == s[i as int]);
        if v[i] == ';' {
            let ghost q = split_char(s.take(i + 1), ';');
            assert(q == p.push(Seq::<char>::empty()));
            assert(q.drop_last() == p);
            assert(p == p.drop_last().push(p.last()));
            match pair_value(&v, start, i, &name) {
                Some((x, y)) => {
                    let tok = string_of_range(&v, x, y);
                    out.push(tok);
                },
                None => {},
            }
            start = i + 1;
        } else {
            let ghost q = split_char(s.take(i + 1), ';');
            assert(q.drop_last() == p.drop_last());
            assert(s.subrange(start as int, i + 1) == s.subrange(start as int, i as int).push(
                s[i as int],
            ));
        }
        i = i + 1;
    }
    assert(s.take(v.len() as int) == s);
    let ghost p = split_char(s, ';');
    assert(p == p.drop_last().push(p.last()));
    match pair_value(&v, start, v.len(), &name) {
        Some((x, y)) => {
            let tok = string_of_range(&v, x, y);
            out.push(tok);
        },
        None => {},
    }
    out
}

/// Extracts the authentication token from a `Cookie` header value: the value
/// of the first `sherpa_auth` cookie, if any.
pub fn extract_token_from_cookie(cookie_header: &str) -> (r: Option<String>)
    ensures
        match r {
            Some(t) => auth_token(cookie_header@) == Some(t@),
            None => auth_token(cookie_header@) is None,
        },
{
    let mut tokens = extract_tokens_from_cookie(cookie_header);
    if tokens.len() == 0 {
        None
    } else {
        let first = tokens.swap_remove(0);
        Some(first)
    }
}

/// The authentication values of two runs of pairs are those of each, in order.
pub proof fn lemma_auth_values_concat(x: Seq<Seq<char>>, y: Seq<Seq<char>>)
    ensures
        auth_values(x + y) == auth_values(x) + auth_values(y),
    decreases y.len(),
{
    if y.len() == 0 {
        assert(x + y == x);
    } else {
        lemma_auth_values_concat(x, y.drop_last());
        assert((x + y).drop_last() == x + y.drop_last());
        assert((x + y).last() == y.last());
        let p = auth_values(x);
        let q = auth_values(y.drop_last());
        match auth_pair_value(y.last()) {
            Some(v) => {
                assert((p + q).push(v) == p + q.push(v));
            },
            None => {},
        }
    }
}

/// The pair `sherpa_auth=<token>` carries `token`, when the token does not end in whitespace.
proof fn lemma_auth_pair(token: Seq<char>)
    requires
        token.len() == 0 || !is_whitespace(token.last()),
    ensures
        auth_pair_value(AUTH_COOKIE_NAME@ + "="@ + token) == Some(token),
{
    reveal_strlit("sherpa_auth");
    reveal_strlit("=");
    let pair = AUTH_COOKIE_NAME@ + "="@ + token;
    assert(pair[0] == 's');
    assert(trim_start(pair) == pair);
    assert(pair.len() > 0 && !is_whitespace(pair.last())) by {
        if token.len() > 0 {
            assert(pair.last() == token.last());
        } else {
            assert(pair.last() == '=');
        }
    }
    assert(trim_end(pair) == pair);
    assert(trim(pair) == pair);
    lemma_first_index(pair, '=', 11);
    assert(pair.take(11) == AUTH_COOKIE_NAME@);
    assert(pair.skip(12) == token);
}

/// Round trip of the authentication cookie: the token that
/// `create_session_cookie` stores is the one that `extract_token_from_cookie`
/// reads back, from the `Set-Cookie` value itself (with or without `Secure`)
/// and from the `Cookie` header that a browser sends for it, for every token
/// without `;` that does not end in whitespace.
pub proof fn law_cookie_token_round_trip(token: Seq<char>, remember_me: bool)
    requires
        !has_char(token, ';'),
        token.len() == 0 || !is_whitespace(token.last()),
    ensures
        auth_token(auth_cookie(token, remember_me)) == Some(token),
        auth_token(session_cookie(token, remember_me, true)) == Some(token),
        auth_token(AUTH_COOKIE_NAME@ + "="@ + token) == Some(token),
{
    reveal_strlit("sherpa_auth");
    reveal_strlit("=");
    reveal_strlit("; Path=/; HttpOnly; SameSite=Strict; Max-Age=");
    let pair = AUTH_COOKIE_NAME@ + "="@ + token;
    lemma_auth_pair(token);
    assert(!has_char(pair, ';')) by {
        if has_char(pair, ';') {
            let i = choose|i: int| 0 <= i < pair.len() && pair[i] == ';';
            if i >= 12 {
                assert(token[i - 12] == ';');
            }
        }
    }
    lemma_split_without_separator(pair, ';');
    assert(auth_values(seq![pair]) == seq![token]) by {
        assert(seq![pair].drop_last() == Seq::<Seq<char>>::empty());
        assert(seq![pair].last() == pair);
        assert(auth_values(Seq::<Seq<char>>::empty()) == Seq::<Seq<char>>::empty());
        assert(Seq::<Seq<char>>::empty().push(token) == seq![token]);
    }
    let rest = cookie_attributes().skip(1) + decimal_int(session_max_age(remember_me) as int);
    assert(auth_cookie(token, remember_me) == pair + seq![';'] + rest);
    lemma_split_concat(pair, rest, ';');
    lemma_auth_values_concat(seq![pair], split_char(rest, ';'));
    let rest2 = rest + "; Secure"@;
    assert(session_cookie(token, remember_me, true) == pair + seq![';'] + rest2);
    lemma_split_concat(pair, rest2, ';');
    lemma_auth_values_concat(seq![pair], split_char(rest2, ';'));
}

} // verus!
