//! OAuth Authorization Code flow: the token state kept in the keychain, when
//! a stored access token may be handed out and when it must be refreshed,
//! how issued tokens are folded in (refresh tokens rotate: only the newest
//! is kept), and the endpoint addresses. The browser flow and the token
//! requests themselves happen in the program around the library.

use vstd::prelude::*;
use crate::error::{Error, Result, is_config_error};
use crate::text::{
    chars_of, clone_opt, decimal, decimal_string, opt_text, trim, trimmed,
};
use crate::cli::transactions::opt_str;
use crate::auth::listener::{form_pairs, query_part};

verus! {

/// YNAB's OAuth host, unless overridden.
pub const DEFAULT_OAUTH_BASE_URL: &'static str = "https://app.ynab.com";

/// The fixed localhost port of the redirect listener.
pub const DEFAULT_PORT: u16 = 53682;

/// Subtracted from `expires_in` when computing `expires_at`, so a token
/// considered unexpired always has a little headroom left.
pub const EXPIRY_SAFETY_MARGIN_SECS: i64 = 60;

/// A stored token is refreshed once fewer than this many seconds remain, so
/// no caller is handed a token that expires mid-request.
pub const REFRESH_LEEWAY_SECS: i64 = 300;

/// Used when a token response omits `expires_in`: YNAB access tokens are
/// documented as valid for about two hours.
pub const FALLBACK_EXPIRES_IN_SECS: i64 = 7200;

/// The only scope a login ever requests.
pub const OAUTH_SCOPE: &'static str = "read-only";

/// A registered OAuth application's credentials.
#[derive(Debug)]
pub struct AppCredentials {
    pub client_id: String,
    pub client_secret: String,
}

/// Every piece of OAuth state, kept together in one keychain entry. Every
/// field is optional because the state is built up in stages: app
/// credentials are stored before the browser flow returns any token.
#[derive(Debug)]
pub struct OauthState {
    pub client_id: Option<String>,
    pub client_secret: Option<String>,
    pub access_token: Option<String>,
    pub expires_at: Option<i64>,
    pub refresh_token: Option<String>,
}

impl Default for OauthState {
    fn default() -> (r: OauthState)
        ensures
            r.client_id is None,
            r.client_secret is None,
            r.access_token is None,
            r.expires_at is None,
            r.refresh_token is None,
    {
        OauthState {
            client_id: None,
            client_secret: None,
            access_token: None,
            expires_at: None,
            refresh_token: None,
        }
    }
}

/// When a token issued now with a lifetime of `expires_in` seconds is
/// recorded as expiring.
pub open spec fn expiry_of(now: int, expires_in: int) -> int {
    now + expires_in - EXPIRY_SAFETY_MARGIN_SECS
}

/// Whether issuing a token now with this lifetime keeps every intermediate
/// sum within `i64`.
pub open spec fn expiry_fits(now: i64, expires_in: i64) -> bool {
    i64::MIN <= now + expires_in <= i64::MAX && i64::MIN <= expiry_of(now as int, expires_in as int)
        <= i64::MAX
}

/// Whether a token issued at `now` with this lifetime has an expiry that
/// `with_tokens` can compute.
pub fn expiry_in_range(now: i64, expires_in: i64) -> (r: bool)
    ensures
        r == expiry_fits(now, expires_in),
{
    match now.checked_add(expires_in) {
        Some(sum) => sum.checked_sub(EXPIRY_SAFETY_MARGIN_SECS).is_some(),
        None => false,
    }
}

/// `state` after a freshly issued token pair is folded in at time `now`: the
/// app credentials are kept, the token pair is replaced.
pub open spec fn with_tokens_spec(
    state: OauthState,
    access: Seq<char>,
    expires_at: int,
    refresh: Seq<char>,
    s: OauthState,
) -> bool {
    &&& opt_text(s.client_id) == opt_text(state.client_id)
    &&& opt_text(s.client_secret) == opt_text(state.client_secret)
    &&& opt_text(s.access_token) == Some(access)
    &&& s.expires_at matches Some(e) && e == expires_at
    &&& opt_text(s.refresh_token) == Some(refresh)
}

/// Returns `state` with a freshly issued token pair folded in, leaving the
/// app credentials untouched.
pub fn with_tokens(state: OauthState, access: &str, expires_in_secs: i64, refresh: &str, now: i64) -> (r:
    OauthState)
    requires
        expiry_fits(now, expires_in_secs),
    ensures
        with_tokens_spec(
            state,
            access@,
            expiry_of(now as int, expires_in_secs as int),
            refresh@,
            r,
        ),
{
    OauthState {
        client_id: state.client_id,
        client_secret: state.client_secret,
        access_token: Some(String::from_str(access)),
        expires_at: Some(now + expires_in_secs - EXPIRY_SAFETY_MARGIN_SECS),
        refresh_token: Some(String::from_str(refresh)),
    }
}

/// What to do when a command asks for the OAuth access token.
#[derive(Debug)]
pub enum TokenStep {
    /// There is no OAuth material at all (never logged in via OAuth).
    NoOauth,
    /// The stored token has enough time left: hand it out.
    Current(String),
    /// Refresh first, with these credentials and refresh token.
    Refresh { credentials: AppCredentials, refresh_token: String },
    /// Refresh is needed but impossible: the user must log in again.
    NotAuthenticated,
}

/// Decides how the access token is obtained at time `now`: no token pair
/// means no OAuth; a token expiring more than `REFRESH_LEEWAY_SECS` from now
/// is used as it is; otherwise it is refreshed, which needs the client id,
/// the client secret and a refresh token.
pub open spec fn token_step_spec(state: OauthState, now: int, step: TokenStep) -> bool {
    match (state.access_token, state.expires_at) {
        (Some(access), Some(expires_at)) => if expires_at > now + REFRESH_LEEWAY_SECS {
            step matches TokenStep::Current(t) && t@ == access@
        } else {
            match (state.client_id, state.client_secret, state.refresh_token) {
                (Some(id), Some(secret), Some(refresh)) => step matches TokenStep::Refresh {
                    credentials,
                    refresh_token,
                } && credentials.client_id@ == id@ && credentials.client_secret@ == secret@
                    && refresh_token@ == refresh@,
                _ => step is NotAuthenticated,
            }
        },
        _ => step is NoOauth,
    }
}

/// The step to take for the access token at time `now`.
pub fn token_step(state: &OauthState, now: i64) -> (step: TokenStep)
    ensures
        token_step_spec(*state, now as int, step),
{
    match (&state.access_token, state.expires_at) {
        (Some(access), Some(expires_at)) => {
            if (expires_at as i128) > (now as i128) + (REFRESH_LEEWAY_SECS as i128) {
                TokenStep::Current(access.clone())
            } else {
                match (&state.client_id, &state.client_secret, &state.refresh_token) {
                    (Some(id), Some(secret), Some(refresh)) => TokenStep::Refresh {
                        credentials: AppCredentials {
                            client_id: id.clone(),
                            client_secret: secret.clone(),
                        },
                        refresh_token: refresh.clone(),
                    },
                    _ => TokenStep::NotAuthenticated,
                }
            }
        },
        _ => TokenStep::NoOauth,
    }
}

/// The lifetime of an issued token: the server's `expires_in`, or the
/// documented two hours when it gives none.
pub fn expires_in_or_fallback(expires_in: Option<i64>) -> (r: i64)
    ensures
        r == match expires_in {
            Some(e) => e,
            None => FALLBACK_EXPIRES_IN_SECS,
        },
{
    match expires_in {
        Some(e) => e,
        None => FALLBACK_EXPIRES_IN_SECS,
    }
}

/// Folds a refresh response into the state. Refresh tokens rotate on every
/// use, so a response without a new one is a failed refresh (the spent token
/// would be rejected next time); otherwise the new pair replaces the old and
/// the new access token is handed out.
pub fn refreshed_state(
    state: OauthState,
    new_access: &str,
    expires_in: Option<i64>,
    new_refresh: Option<&str>,
    now: i64,
) -> (r: Result<(OauthState, String)>)
    requires
        expiry_fits(
            now,
            match expires_in {
                Some(e) => e,
                None => FALLBACK_EXPIRES_IN_SECS,
            },
        ),
    ensures
        match opt_str(new_refresh) {
            None => r matches Err(e) && e is NotAuthenticated,
            Some(refresh) => r matches Ok((s, token)) && token@ == new_access@ && with_tokens_spec(
                state,
                new_access@,
                expiry_of(
                    now as int,
                    match expires_in {
                        Some(e) => e as int,
                        None => FALLBACK_EXPIRES_IN_SECS as int,
                    },
                ),
                refresh,
                s,
            ),
        },
{
    match new_refresh {
        None => Err(Error::NotAuthenticated),
        Some(refresh) => {
            let lifetime = expires_in_or_fallback(expires_in);
            let s = with_tokens(state, new_access, lifetime, refresh, now);
            Ok((s, String::from_str(new_access)))
        },
    }
}

/// The refresh token of a login's token response; a login whose response
/// carries none fails.
pub fn login_refresh_token(refresh: Option<&str>) -> (r: Result<String>)
    ensures
        match opt_str(refresh) {
            Some(t) => r matches Ok(s) && s@ == t,
            None => r matches Err(e) && is_config_error(
                e,
                "OAuth server did not return a refresh token"@,
            ),
        },
{
    match refresh {
        Some(t) => Ok(String::from_str(t)),
        None => Err(Error::Config(String::from_str("OAuth server did not return a refresh token"))),
    }
}

/// The stored app credentials, unless a reset was asked for or either half
/// is missing (then the user is prompted).
pub fn stored_app_credentials(state: &OauthState, reset: bool) -> (r: Option<AppCredentials>)
    ensures
        match r {
            Some(c) => !reset && opt_text(state.client_id) == Some(c.client_id@) && opt_text(
                state.client_secret,
            ) == Some(c.client_secret@),
            None => reset || state.client_id is None || state.client_secret is None,
        },
{
    if reset {
        return None;
    }
    match (&state.client_id, &state.client_secret) {
        (Some(id), Some(secret)) => Some(
            AppCredentials { client_id: id.clone(), client_secret: secret.clone() },
        ),
        _ => None,
    }
}

/// `state` with newly entered app credentials. Any token pair is kept:
/// re-entering app credentials does not log the user out of a valid session.
pub fn with_app_credentials(state: OauthState, credentials: AppCredentials) -> (r: OauthState)
    ensures
        opt_text(r.client_id) == Some(credentials.client_id@),
        opt_text(r.client_secret) == Some(credentials.client_secret@),
        opt_text(r.access_token) == opt_text(state.access_token),
        r.expires_at == state.expires_at,
        opt_text(r.refresh_token) == opt_text(state.refresh_token),
{
    OauthState {
        client_id: Some(credentials.client_id),
        client_secret: Some(credentials.client_secret),
        access_token: state.access_token,
        expires_at: state.expires_at,
        refresh_token: state.refresh_token,
    }
}

/// Whether the legacy split entries need folding into the single entry:
/// only when a legacy client id or a legacy access-token entry exists.
pub fn needs_migration(legacy_client_id: bool, legacy_access_token: bool) -> (r: bool)
    ensures
        r == (legacy_client_id || legacy_access_token),
{
    legacy_client_id || legacy_access_token
}

/// The single-entry state built from the legacy entries. A legacy access
/// token too corrupt to parse arrives as `None` and is dropped; the refresh
/// token may still rescue the session.
pub fn migrated_state(
    client_id: Option<String>,
    client_secret: Option<String>,
    access: Option<(String, i64)>,
    refresh_token: Option<String>,
) -> (r: OauthState)
    ensures
        opt_text(r.client_id) == opt_text(client_id),
        opt_text(r.client_secret) == opt_text(client_secret),
        match access {
            Some((token, expires_at)) => opt_text(r.access_token) == Some(token@) && r.expires_at
                == Some(expires_at),
            None => r.access_token is None && r.expires_at is None,
        },
        opt_text(r.refresh_token) == opt_text(refresh_token),
{
    let (access_token, expires_at) = match access {
        Some((t, e)) => (Some(t), Some(e)),
        None => (None, None),
    };
    OauthState { client_id, client_secret, access_token, expires_at, refresh_token }
}

fn entered_value(raw: &str, missing: &str) -> (r: Result<String>)
    ensures
        trimmed(raw@).len() > 0 ==> (r matches Ok(s) && s@ == trimmed(raw@)),
        trimmed(raw@).len() == 0 ==> (r matches Err(e) && is_config_error(e, missing@)),
{
    let t = trim(raw);
    if t.unicode_len() == 0 {
        return Err(Error::Config(String::from_str(missing)));
    }
    Ok(t)
}

/// The client id typed at the prompt: trimmed, and not blank.
pub fn client_id_input(raw: &str) -> (r: Result<String>)
    ensures
        trimmed(raw@).len() > 0 ==> (r matches Ok(s) && s@ == trimmed(raw@)),
        trimmed(raw@).len() == 0 ==> (r matches Err(e) && is_config_error(
            e,
            "no OAuth client ID provided"@,
        )),
{
    entered_value(raw, "no OAuth client ID provided")
}

/// The client secret typed at the prompt: trimmed, and not blank.
pub fn client_secret_input(raw: &str) -> (r: Result<String>)
    ensures
        trimmed(raw@).len() > 0 ==> (r matches Ok(s) && s@ == trimmed(raw@)),
        trimmed(raw@).len() == 0 ==> (r matches Err(e) && is_config_error(
            e,
            "no OAuth client secret provided"@,
        )),
{
    entered_value(raw, "no OAuth client secret provided")
}

/// The OAuth host: the `YNAB_CLI_OAUTH_BASE_URL` override when set, else
/// YNAB's.
pub fn oauth_base_url(env: Option<&str>) -> (r: String)
    ensures
        r@ == match opt_str(env) {
            Some(u) => u,
            None => DEFAULT_OAUTH_BASE_URL@,
        },
{
    match env {
        Some(u) => String::from_str(u),
        None => String::from_str(DEFAULT_OAUTH_BASE_URL),
    }
}

/// The authorize endpoint under an OAuth host.
pub fn authorize_url_str(base: &str) -> (r: String)
    ensures
        r@ == base@ + "/oauth/authorize"@,
{
    let mut r = String::from_str(base);
    r.append("/oauth/authorize");
    r
}

/// The token endpoint under an OAuth host.
pub fn token_url_str(base: &str) -> (r: String)
    ensures
        r@ == base@ + "/oauth/token"@,
{
    let mut r = String::from_str(base);
    r.append("/oauth/token");
    r
}

/// The redirect URI registered for the app: `http://localhost:<port>/callback`.
pub open spec fn redirect_uri_text(port: u16) -> Seq<char> {
    "http://localhost:"@ + decimal(port as nat) + "/callback"@
}

/// The redirect URI for a port.
pub fn redirect_uri_str(port: u16) -> (r: String)
    ensures
        r@ == redirect_uri_text(port),
{
    let mut r = String::from_str("http://localhost:");
    let p = decimal_string(port as u64);
    r.append(p.as_str());
    r.append("/callback");
    r
}

/// Which OAuth URL failed to parse.
#[derive(Debug, Clone, Copy, PartialEq, Eq, Structural)]
pub enum UrlField {
    Authorize,
    Token,
    Redirect,
}

/// The query pairs of an authorize request, in the order `oauth2` writes
/// them: `response_type=code`, the client id, the state, the redirect URI
/// and the scope.
pub open spec fn authorize_pairs(
    client_id: Seq<char>,
    state: Seq<char>,
    redirect_uri: Seq<char>,
    scope: Seq<char>,
) -> Seq<(Seq<char>, Seq<char>)> {
    seq![
        ("response_type"@, "code"@),
        ("client_id"@, client_id),
        ("state"@, state),
        ("redirect_uri"@, redirect_uri),
        ("scope"@, scope),
    ]
}

/// Whether a URL text has neither a query nor a fragment of its own.
pub open spec fn plain_url(u: Seq<char>) -> bool {
    !u.contains('?') && !u.contains('#')
}

/// What `url::Url::parse` gives for a text (`AuthUrl::new` and
/// `RedirectUrl::new` call it): the parsed URL's serialization, or the
/// parse error's message.
pub uninterp spec fn url_parse(s: Seq<char>) -> core::result::Result<Seq<char>, Seq<char>>;

/// What an authorize request yields for an authorize URL and a redirect URI,
/// given the URL it returns and its state: the authorize URL's parse error,
/// else the redirect URI's; otherwise the URL is the parsed authorize URL,
/// `?`, and a query whose pairs are exactly the authorize pairs (for an
/// authorize URL with no query or fragment of its own, and a non-empty
/// scope).
pub open spec fn authorize_outcome(
    client_id: Seq<char>,
    auth_url: Seq<char>,
    redirect_uri: Seq<char>,
    scope: Seq<char>,
    r: core::result::Result<(String, String), (UrlField, String)>,
) -> bool {
    match url_parse(auth_url) {
        Err(m) => r matches Err((f, d)) && f == UrlField::Authorize && d@ == m,
        Ok(p) => match url_parse(redirect_uri) {
            Err(m) => r matches Err((f, d)) && f == UrlField::Redirect && d@ == m,
            Ok(_) => r matches Ok((url, state)) && (plain_url(auth_url) && scope.len() > 0 ==> (
                url@.len() > p.len()
                && url@.take(p.len() + 1int) == p + seq!['?'] && form_pairs(url@.skip(p.len() + 1int))
                == authorize_pairs(client_id, state@, redirect_uri, scope))),
        },
    }
}

/// Builds the authorize request with `oauth2`: `AuthUrl::new`,
/// `RedirectUrl::new`, a `BasicClient` for `client_id` with those
/// endpoints, `authorize_url(CsrfToken::new_random)`, `add_scope` and `url`,
/// giving the URL's text and the random state. Both URLs are parsed with
/// `Url::parse` (named `url_parse`), the authorize URL first; a URL that does
/// not parse comes back as which one it was and the parser's message, and
/// nothing else fails. `url` pushes `?` after the parsed authorize URL when it
/// has no query, then appends `response_type`, `client_id`, `state`,
/// `redirect_uri` (the text as given) and `scope` as form-encoded pairs, so
/// for an authorize URL with no query or fragment of its own and a non-empty
/// scope those are exactly the query's pairs. The state's value is chance and
/// is not claimed.
#[verifier::external_body]
fn build_authorize_request(client_id: &str, auth_url: &str, redirect_uri: &str, scope: &str) -> (r:
    core::result::Result<(String, String), (UrlField, String)>)
    ensures
        (r is Ok) <==> (url_parse(auth_url@) is Ok && url_parse(redirect_uri@) is Ok),
        authorize_outcome(client_id@, auth_url@, redirect_uri@, scope@, r),
{
    let auth = match oauth2::AuthUrl::new(auth_url.to_string()) {
        Ok(u) => u,
        Err(e) => return Err((UrlField::Authorize, e.to_string())),
    };
    let redirect = match oauth2::RedirectUrl::new(redirect_uri.to_string()) {
        Ok(u) => u,
        Err(e) => return Err((UrlField::Redirect, e.to_string())),
    };
    let (url, state) = oauth2::basic::BasicClient::new(oauth2::ClientId::new(client_id.to_string()))
        .set_auth_uri(auth)
        .set_redirect_uri(redirect)
        .authorize_url(oauth2::CsrfToken::new_random)
        .add_scope(oauth2::Scope::new(scope.to_string()))
        .url();
    Ok((url.to_string(), state.secret().to_string()))
}

/// The message for an OAuth URL that does not parse.
pub open spec fn bad_url_text(field: UrlField, detail: Seq<char>) -> Seq<char> {
    match field {
        UrlField::Authorize => "invalid OAuth authorize URL: "@ + detail,
        UrlField::Token => "invalid OAuth token URL: "@ + detail,
        UrlField::Redirect => "invalid OAuth redirect URL: "@ + detail,
    }
}

/// The error for a URL that does not parse, carrying the parser's message.
pub fn bad_url(field: UrlField, detail: String) -> (e: Error)
    ensures
        is_config_error(e, bad_url_text(field, detail@)),
{
    let mut m = match field {
        UrlField::Authorize => String::from_str("invalid OAuth authorize URL: "),
        UrlField::Token => String::from_str("invalid OAuth token URL: "),
        UrlField::Redirect => String::from_str("invalid OAuth redirect URL: "),
    };
    m.append(detail.as_str());
    Error::Config(m)
}

/// The authorize request of a login: its URL and the state the callback
/// must carry back. It succeeds exactly when both URLs parse. The URL is
/// then the parsed authorize URL, `?`, and (for an authorize URL with no
/// query or fragment of its own) a query of exactly `response_type=code`,
/// the client id, the state, the redirect URI and `scope=read-only`. A URL
/// that does not parse, the authorize URL first, is a configuration error
/// naming it and carrying the parser's message.
pub fn authorize_request(client_id: &str, auth_url: &str, redirect_uri: &str) -> (r: Result<
    (String, String),
>)
    ensures
        (r is Ok) <==> (url_parse(auth_url@) is Ok && url_parse(redirect_uri@) is Ok),
        r matches Ok((url, state)) ==> (url_parse(auth_url@) matches Ok(p) && (plain_url(auth_url@)
            ==> (url@.len() > p.len() && url@.take(p.len() + 1int) == p + seq!['?'] && form_pairs(
            url@.skip(p.len() + 1int),
        ) == authorize_pairs(client_id@, state@, redirect_uri@, OAUTH_SCOPE@)))),
        url_parse(auth_url@) matches Err(m) ==> (r matches Err(e) && is_config_error(
            e,
            bad_url_text(UrlField::Authorize, m),
        )),
        url_parse(auth_url@) is Ok ==> (url_parse(redirect_uri@) matches Err(m) ==> (r matches Err(
            e,
        ) && is_config_error(e, bad_url_text(UrlField::Redirect, m)))),
{
    proof {
        reveal_strlit("read-only");
    }
    match build_authorize_request(client_id, auth_url, redirect_uri, OAUTH_SCOPE) {
        Ok(pair) => Ok(pair),
        Err((field, detail)) => {
            let e = bad_url(field, detail);
            Err(e)
        },
    }
}

/// What a login prints before it waits for the browser: the authorize URL
/// on a line of its own.
pub open spec fn login_prompt_text(url: Seq<char>) -> Seq<char> {
    "Open this URL to authorize ynab-cli:\n"@ + url
}

/// The prompt a login prints, whether or not a browser is opened.
pub fn login_prompt(url: &str) -> (r: String)
    ensures
        r@ == login_prompt_text(url@),
{
    let mut s = String::from_str("Open this URL to authorize ynab-cli:\n");
    s.append(url);
    s
}

/// Every login asks for the `read-only` scope: the last pair of an authorize
/// request's query is `scope=read-only`.
pub proof fn login_requests_read_only_scope(
    client_id: Seq<char>,
    state: Seq<char>,
    redirect_uri: Seq<char>,
)
    ensures
        authorize_pairs(client_id, state, redirect_uri, OAUTH_SCOPE@).last() == (
            "scope"@,
            "read-only"@,
        ),
{
}

/// The value of a run of ASCII digits.
pub open spec fn digits_value(d: Seq<char>) -> nat
    decreases d.len(),
{
    if d.len() == 0 {
        0
    } else {
        digits_value(d.drop_last()) * 10 + ((d.last() as u32) - 48) as nat
    }
}

/// Whether every character is an ASCII digit.
pub open spec fn all_digits(d: Seq<char>) -> bool {
    forall|i: int| 0 <= i < d.len() ==> '0' <= #[trigger] d[i] <= '9'
}

/// How `str::parse::<u16>` reads a text: an optional `+`, then one or more
/// ASCII digits whose value fits in a `u16`.
pub open spec fn parse_u16_text(s: Seq<char>) -> Option<u16> {
    let d = if s.len() > 0 && s[0] == '+' { s.drop_first() } else { s };
    if d.len() > 0 && all_digits(d) && digits_value(d) <= 65535 {
        Some(digits_value(d) as u16)
    } else {
        None
    }
}

/// Reads a port number the way `str::parse::<u16>` does.
pub fn parse_u16(s: &str) -> (r: Option<u16>)
    ensures
        r == parse_u16_text(s@),
{
    let cs = chars_of(s);
    let start: usize = if cs.len() > 0 && cs[0] == '+' { 1 } else { 0 };
    let ghost d = if s@.len() > 0 && s@[0] == '+' { s@.drop_first() } else { s@ };
    assert(d =~= cs@.skip(start as int));
    if start == cs.len() {
        return None;
    }
    let mut value: u32 = 0;
    let mut over = false;
    let mut i: usize = start;
    while i < cs.len()
        invariant
            start <= i <= cs.len(),
            cs@ == s@,
            d == (if s@.len() > 0 && s@[0] == '+' { s@.drop_first() } else { s@ }),
            d == cs@.skip(start as int),
            d.len() > 0,
            all_digits(cs@.subrange(start as int, i as int)),
            !over ==> value == digits_value(cs@.subrange(start as int, i as int)),
            !over ==> value <= 65535,
            over ==> digits_value(cs@.subrange(start as int, i as int)) > 65535,
        decreases cs.len() - i,
    {
        let c = cs[i];
        if c < '0' || c > '9' {
            assert(d[i - start] == c);
            return None;
        }
        let ghost prev = cs@.subrange(start as int, i as int);
        assert(cs@.subrange(start as int, i + 1).drop_last() =~= prev);
        assert(cs@.subrange(start as int, i + 1).last() == c);
        let dv = (c as u32) - 48;
        if !over {
            let next = value * 10 + dv;
            if next > 65535 {
                over = true;
            } else {
                value = next;
            }
        } else {
            assert(digits_value(prev) * 10 + dv >= digits_value(prev)) by (nonlinear_arith);
        }
        i = i + 1;
    }
    assert(cs@.subrange(start as int, cs.len() as int) =~= d);
    if over {
        None
    } else {
        Some(value as u16)
    }
}

/// The redirect listener's port: the `YNAB_CLI_OAUTH_PORT` override when it
/// reads as a port number, else the fixed default.
pub fn oauth_port(env: Option<&str>) -> (r: u16)
    ensures
        r == match opt_str(env) {
            Some(v) => match parse_u16_text(v) {
                Some(p) => p,
                None => DEFAULT_PORT,
            },
            None => DEFAULT_PORT,
        },
{
    match env {
        Some(v) => match parse_u16(v) {
            Some(p) => p,
            None => DEFAULT_PORT,
        },
        None => DEFAULT_PORT,
    }
}

/// A token handed out without a refresh always has more than
/// `REFRESH_LEEWAY_SECS` seconds left.
pub proof fn current_token_has_headroom(state: OauthState, now: int, step: TokenStep)
    requires
        token_step_spec(state, now, step),
        step is Current,
    ensures
        state.expires_at matches Some(e) && e > now + REFRESH_LEEWAY_SECS,
{
}

/// Storing a freshly issued pair and asking for the token at once gives the
/// stored access token back, without a refresh, whenever its lifetime
/// exceeds the safety margin plus the refresh leeway.
pub proof fn stored_token_is_current(
    state: OauthState,
    access: Seq<char>,
    refresh: Seq<char>,
    now: int,
    expires_in: int,
    stored: OauthState,
    step: TokenStep,
)
    requires
        expires_in > EXPIRY_SAFETY_MARGIN_SECS + REFRESH_LEEWAY_SECS,
        with_tokens_spec(state, access, expiry_of(now, expires_in), refresh, stored),
        token_step_spec(stored, now, step),
    ensures
        step matches TokenStep::Current(t) && t@ == access,
{
}

/// A refresh rotates the refresh token and keeps the app credentials: the
/// state afterwards holds the new refresh token, never the spent one.
pub proof fn refresh_rotates_tokens(
    state: OauthState,
    access: Seq<char>,
    expires_at: int,
    refresh: Seq<char>,
    s: OauthState,
)
    requires
        with_tokens_spec(state, access, expires_at, refresh, s),
    ensures
        opt_text(s.refresh_token) == Some(refresh),
        opt_text(s.client_id) == opt_text(state.client_id),
        opt_text(s.client_secret) == opt_text(state.client_secret),
{
}

/// The redirect URI users register for their OAuth application, exactly.
pub proof fn default_redirect_uri()
    ensures
        redirect_uri_text(DEFAULT_PORT) == "http://localhost:53682/callback"@,
{
    reveal_strlit("http://localhost:");
    reveal_strlit("/callback");
    reveal_strlit("http://localhost:53682/callback");
    reveal_with_fuel(decimal, 6);
    assert(redirect_uri_text(DEFAULT_PORT) =~= "http://localhost:53682/callback"@);
}

} // verus!
