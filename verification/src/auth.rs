//! The interactive login flow's logic: reading the captured redirect
//! request, extracting the authorization code, the login state machine,
//! and the fallback from a rejected refresh to a fresh login.
//!
//! Binding the local listener, exchanging the code and the refresh token
//! are I/O performed by the surrounding runtime; every decision between
//! those steps is computed here.

use vstd::prelude::*;
use vstd::string::*;

use crate::strutil::{concat_str, str_equal};
use crate::token::Token;

verus! {

/// Ways one authentication attempt fails.
#[derive(Clone, Copy, PartialEq, Eq, Structural, Debug)]
pub enum AuthError {
    /// The local listener could not be bound or no redirect arrived.
    RedirectCaptureFailed,
    /// The redirect carried no `code` query parameter.
    CodeMissing,
    /// The upstream rejected the authorization code.
    TokenExchangeFailed,
    /// The upstream rejected the refresh token.
    RefreshFailed,
}

pub open spec fn is_line_break(c: char) -> bool {
    c == '\r' || c == '\n'
}

pub open spec fn is_space(c: char) -> bool {
    c == ' ' || c == '\t'
}

/// Index of the first line break at or after `i`, or the end of `s`.
pub open spec fn spec_line_end(s: Seq<char>, i: int) -> int
    decreases s.len() - i,
    when 0 <= i <= s.len()
{
    if i >= s.len() {
        i
    } else if is_line_break(s[i]) {
        i
    } else {
        spec_line_end(s, i + 1)
    }
}

/// Index of the first non-space character in `s[i..le]`, or `le`.
pub open spec fn spec_skip_space(s: Seq<char>, i: int, le: int) -> int
    decreases le - i,
    when 0 <= i <= le <= s.len()
{
    if i >= le {
        le
    } else if is_space(s[i]) {
        spec_skip_space(s, i + 1, le)
    } else {
        i
    }
}

/// Index of the first space in `s[i..le]`, or `le`.
pub open spec fn spec_token_end(s: Seq<char>, i: int, le: int) -> int
    decreases le - i,
    when 0 <= i <= le <= s.len()
{
    if i >= le {
        le
    } else if is_space(s[i]) {
        i
    } else {
        spec_token_end(s, i + 1, le)
    }
}

/// The target of an HTTP request: the second whitespace-separated token
/// of the request's first line, or `/` when there is none.
pub open spec fn spec_request_target(s: Seq<char>) -> Seq<char> {
    let le = spec_line_end(s, 0);
    let t0 = spec_skip_space(s, 0, le);
    let e0 = spec_token_end(s, t0, le);
    let t1 = spec_skip_space(s, e0, le);
    let e1 = spec_token_end(s, t1, le);
    if t1 < e1 {
        s.subrange(t1, e1)
    } else {
        "/"@
    }
}

fn line_end(s: &str, i: usize, n: usize) -> (r: usize)
    requires
        i <= n,
        n == s@.len(),
    ensures
        r as int == spec_line_end(s@, i as int),
        i <= r <= n,
    decreases n - i,
{
    if i >= n {
        i
    } else {
        let c = s.get_char(i);
        if c == '\r' || c == '\n' {
            i
        } else {
            line_end(s, i + 1, n)
        }
    }
}

fn skip_space(s: &str, i: usize, le: usize, n: usize) -> (r: usize)
    requires
        i <= le <= n,
        n == s@.len(),
    ensures
        r as int == spec_skip_space(s@, i as int, le as int),
        i <= r <= le,
    decreases le - i,
{
    if i >= le {
        le
    } else {
        let c = s.get_char(i);
        if c == ' ' || c == '\t' {
            skip_space(s, i + 1, le, n)
        } else {
            i
        }
    }
}

fn token_end(s: &str, i: usize, le: usize, n: usize) -> (r: usize)
    requires
        i <= le <= n,
        n == s@.len(),
    ensures
        r as int == spec_token_end(s@, i as int, le as int),
        i <= r <= le,
    decreases le - i,
{
    if i >= le {
        le
    } else {
        let c = s.get_char(i);
        if c == ' ' || c == '\t' {
            i
        } else {
            token_end(s, i + 1, le, n)
        }
    }
}

/// Reads the request target out of a captured HTTP request: the second
/// whitespace-separated token of its first line, defaulting to `/`.
pub fn request_target(req: &str) -> (r: String)
    ensures
        r@ == spec_request_target(req@),
{
    let n = req.unicode_len();
    let le = line_end(req, 0, n);
    let t0 = skip_space(req, 0, le, n);
    let e0 = token_end(req, t0, le, n);
    let t1 = skip_space(req, e0, le, n);
    let e1 = token_end(req, t1, le, n);
    if t1 < e1 {
        req.substring_char(t1, e1).to_owned()
    } else {
        let slash = "/";
        slash.to_owned()
    }
}

/// The percent-decoded key/value pairs of the query string of the URL
/// that `s` denotes, in order, or nothing when `s` is not a URL.
pub uninterp spec fn query_pairs_of(s: Seq<char>) -> Option<Seq<(Seq<char>, Seq<char>)>>;

/// The contents of a vector of string pairs.
pub open spec fn pairs_view(v: Seq<(String, String)>) -> Seq<(Seq<char>, Seq<char>)> {
    Seq::new(v.len(), |i: int| (v[i].0@, v[i].1@))
}

/// Relies on url's `Url::parse` and `Url::query_pairs`: parsing an
/// absolute URL and listing its query's percent-decoded key/value pairs
/// in order, both functions of the URL text alone.
#[verifier::external_body]
fn url_query_pairs(u: &str) -> (r: Option<Vec<(String, String)>>)
    ensures
        match r {
            Some(ps) => query_pairs_of(u@) == Some(pairs_view(ps@)),
            None => query_pairs_of(u@) is None,
        },
{
    match url::Url::parse(u) {
        Ok(parsed) => Some(
            parsed.query_pairs().map(|(k, v)| (k.into_owned(), v.into_owned())).collect(),
        ),
        Err(_) => None,
    }
}

/// The value of the first `code` query parameter among `ps`.
pub open spec fn spec_first_code(ps: Seq<(Seq<char>, Seq<char>)>) -> Option<Seq<char>>
    decreases ps.len(),
{
    if ps.len() == 0 {
        None
    } else if ps[0].0 == "code"@ {
        Some(ps[0].1)
    } else {
        spec_first_code(ps.skip(1))
    }
}

/// The authorization code carried by the URL that `u` denotes: the value
/// of its first `code` query parameter, or nothing when `u` is not a URL
/// or has no such parameter.
pub open spec fn spec_parse_code(u: Seq<char>) -> Option<Seq<char>> {
    match query_pairs_of(u) {
        Some(ps) => spec_first_code(ps),
        None => None,
    }
}

/// Extracts the authorization code from a redirect URL: the value of the
/// first `code` query parameter.
pub fn parse_code(url_text: &str) -> (r: Option<String>)
    ensures
        match r {
            Some(c) => spec_parse_code(url_text@) == Some(c@),
            None => spec_parse_code(url_text@) is None,
        },
{
    let pairs = match url_query_pairs(url_text) {
        Some(ps) => ps,
        None => { return None },
    };
    let ghost all = pairs_view(pairs@);
    proof {
        assert(all.skip(0) =~= all);
    }
    let mut i: usize = 0;
    while i < pairs.len()
        invariant
            i <= pairs.len(),
            all == pairs_view(pairs@),
            all.len() == pairs@.len(),
            spec_first_code(all) == spec_first_code(all.skip(i as int)),
            query_pairs_of(url_text@) == Some(all),
        decreases pairs.len() - i,
    {
        proof {
            assert(all.skip(i as int)[0] == all[i as int]);
            assert(all.skip(i as int).skip(1) =~= all.skip(i + 1));
        }
        let p = &pairs[i];
        if str_equal(p.0.as_str(), "code") {
            return Some(p.1.clone());
        }
        i += 1;
    }
    proof {
        assert(all.skip(pairs@.len() as int) =~= Seq::<(Seq<char>, Seq<char>)>::empty());
    }
    None
}

/// Extracts the authorization code from a captured redirect's request
/// target, read against the local listener's base URL.
pub fn extract_code_from_target(target: &str) -> (r: Option<String>)
    ensures
        match r {
            Some(c) => spec_parse_code("http://localhost:8077"@ + target@) == Some(c@),
            None => spec_parse_code("http://localhost:8077"@ + target@) is None,
        },
{
    let full = concat_str("http://localhost:8077", target);
    parse_code(full.as_str())
}

/// One login attempt's position: it awaits the redirect, exchanges the
/// captured code, and ends authenticated or failed; the two ends are
/// terminal for the attempt.
#[derive(Debug)]
pub enum LoginState {
    AwaitingCode,
    ExchangingCode(String),
    Authenticated(Token),
    Failed(AuthError),
}

/// What the surrounding runtime reports back into a login attempt.
#[derive(Debug)]
pub enum LoginEvent {
    /// The local listener could not be bound or saw no request.
    CaptureFailed,
    /// The captured redirect request's target.
    Redirect(String),
    /// The code exchange returned this session.
    ExchangeOk(Token),
    /// The upstream rejected the code.
    ExchangeErr,
}

/// Advances one login attempt by one reported event. Terminal states and
/// events that do not belong to the current state leave it unchanged.
pub fn login_step(state: LoginState, event: LoginEvent) -> (r: LoginState)
    ensures
        state is AwaitingCode && event is CaptureFailed ==> r == LoginState::Failed(
            AuthError::RedirectCaptureFailed,
        ),
        state is AwaitingCode ==> (event matches LoginEvent::Redirect(t) ==> (match spec_parse_code(
            "http://localhost:8077"@ + t@,
        ) {
            Some(c) => r matches LoginState::ExchangingCode(cs) && cs@ == c,
            None => r == LoginState::Failed(AuthError::CodeMissing),
        })),
        state is ExchangingCode ==> (event matches LoginEvent::ExchangeOk(tok) ==> r
            == LoginState::Authenticated(tok)),
        state is ExchangingCode && event is ExchangeErr ==> r == LoginState::Failed(
            AuthError::TokenExchangeFailed,
        ),
        state is AwaitingCode && (event is ExchangeOk || event is ExchangeErr) ==> r == state,
        state is ExchangingCode && (event is CaptureFailed || event is Redirect) ==> r == state,
        state is Authenticated || state is Failed ==> r == state,
{
    match (state, event) {
        (LoginState::AwaitingCode, LoginEvent::CaptureFailed) => LoginState::Failed(
            AuthError::RedirectCaptureFailed,
        ),
        (LoginState::AwaitingCode, LoginEvent::Redirect(t)) => {
            match extract_code_from_target(t.as_str()) {
                Some(code) => LoginState::ExchangingCode(code),
                None => LoginState::Failed(AuthError::CodeMissing),
            }
        },
        (LoginState::ExchangingCode(_), LoginEvent::ExchangeOk(tok)) => LoginState::Authenticated(
            tok,
        ),
        (LoginState::ExchangingCode(_), LoginEvent::ExchangeErr) => LoginState::Failed(
            AuthError::TokenExchangeFailed,
        ),
        (s, _) => s,
    }
}

/// What to do with a finished refresh exchange.
#[derive(Debug)]
pub enum RefreshFollowup {
    /// The exchange produced a new session: use it.
    UseToken(Token),
    /// The upstream rejected the refresh token: fall back to an
    /// interactive login rather than propagating the rejection.
    AttemptLogin,
}

/// Decides the follow-up of a refresh exchange: a rejection is answered
/// by attempting a fresh login, never by giving up the attempt itself.
pub fn refresh_fallback(exchange: Option<Token>) -> (r: RefreshFollowup)
    ensures
        exchange matches Some(t) ==> r == RefreshFollowup::UseToken(t),
        exchange is None ==> r == RefreshFollowup::AttemptLogin,
{
    match exchange {
        Some(t) => RefreshFollowup::UseToken(t),
        None => RefreshFollowup::AttemptLogin,
    }
}

/// How a process entering service obtains its first session.
#[derive(Debug)]
pub enum InitialAuthPlan {
    /// A refresh token is configured: exchange it.
    RefreshWith(String),
    /// No refresh token is configured: log in interactively.
    Interactive,
}

/// Chooses the startup authentication path from the configured refresh
/// token.
pub fn initial_auth_plan(refresh_token: &Option<String>) -> (r: InitialAuthPlan)
    ensures
        refresh_token matches Some(t) ==> (r matches InitialAuthPlan::RefreshWith(s) && s@ == t@),
        refresh_token is None ==> r is Interactive,
{
    match refresh_token {
        Some(t) => InitialAuthPlan::RefreshWith(t.clone()),
        None => InitialAuthPlan::Interactive,
    }
}

} // verus!
