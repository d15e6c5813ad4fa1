//! The decisions of the Clerk OAuth sign-in: configuration, addresses and forms, the
//! PKCE challenge, the callback, the access-token claims and the stored tokens.
use vstd::prelude::*;

use crate::codec::{
    append_query_pairs, base64_encoded_len, base64_url_decode, base64_url_decoding,
    base64_url_encode, base64_url_encoding, decode_error_text, is_url_safe_text, pairs_view,
    random_bytes, sha256, sha256_digest, url_parse_error_text, url_with_query_pairs,
};
use crate::error::AuthError;
use crate::identity::{
    AuthSession, AuthState, AuthStateView, PendingAuthorization, SessionView,
    ensure_organization_switching_allowed, switching_outcome,
};
use crate::text::{find_char, trim, trim_str};

verus! {

/// Where Clerk sends the browser back after sign-in.
pub const REDIRECT_URI: &'static str = "meetingly://oauth/callback";

/// The scopes the client asks for.
pub const SCOPES: &'static str = "openid profile email user:org:read";

/// The Connections address used when none is configured.
pub const CONNECTIONS_DEFAULT_URL: &'static str = "https://connections.fractals-solutions.com";

/// The setting that names the Clerk issuer.
pub const ISSUER_SETTING: &'static str = "MEETINGLY_CLERK_ISSUER";

/// The setting that names the OAuth client.
pub const CLIENT_ID_SETTING: &'static str = "MEETINGLY_CLERK_OAUTH_CLIENT_ID";

// ---------------------------------------------------------------------------------
// Configuration.
// ---------------------------------------------------------------------------------
/// `s` without its trailing slashes.
pub open spec fn strip_trailing_slashes(s: Seq<char>) -> Seq<char>
    decreases s.len(),
{
    if s.len() > 0 && s.last() == '/' {
        strip_trailing_slashes(s.drop_last())
    } else {
        s
    }
}

/// Whether `s` holds nothing but white space.
pub open spec fn is_blank(s: Seq<char>) -> bool {
    trim(s).len() == 0
}

/// `s` without its trailing slashes.
pub fn trim_trailing_slashes(s: &str) -> (stripped: String)
    ensures
        stripped@ == strip_trailing_slashes(s@),
{
    let n = s.unicode_len();
    let mut end: usize = n;
    assert(s@.subrange(0, n as int) =~= s@);
    while end > 0 && s.get_char(end - 1) == '/'
        invariant
            end <= n,
            n == s@.len(),
            strip_trailing_slashes(s@) == strip_trailing_slashes(s@.subrange(0, end as int)),
        decreases end,
    {
        assert(s@.subrange(0, end as int).drop_last() =~= s@.subrange(0, end - 1));
        end = end - 1;
    }
    String::from_str(s.substring_char(0, end))
}

/// Whether `s` holds nothing but white space.
pub fn blank(s: &str) -> (is_blank_text: bool)
    ensures
        is_blank_text == is_blank(s@),
{
    trim_str(s).is_empty()
}

pub open spec fn opt_str_view(s: Option<&str>) -> Option<Seq<char>> {
    match s {
        Some(s) => Some(s@),
        None => None,
    }
}

/// The value a setting takes: the environment's unless blank, else the one built in
/// unless blank.
pub open spec fn chosen_setting(env_value: Option<Seq<char>>, built: Option<Seq<char>>) -> Option<
    Seq<char>,
> {
    match env_value {
        Some(e) if !is_blank(e) => Some(e),
        _ => match built {
            Some(b) if !is_blank(b) => Some(b),
            _ => None,
        },
    }
}

/// The setting `name`, without trailing slashes: from the environment (`env_value`), else
/// from the value built into the program; an error when neither holds more than white space.
pub fn config_value(name: &str, env_value: Option<&str>, built: Option<&str>) -> (value: Result<
    String,
    AuthError,
>)
    ensures
        match (value, chosen_setting(opt_str_view(env_value), opt_str_view(built))) {
            (Ok(v), Some(c)) => v@ == strip_trailing_slashes(c),
            (Err(e), None) => e matches AuthError::NotConfigured(n) && n@ == name@,
            _ => false,
        },
{
    let chosen = match env_value {
        Some(e) if !blank(e) => Some(e),
        _ => match built {
            Some(b) if !blank(b) => Some(b),
            _ => None,
        },
    };
    match chosen {
        Some(v) => Ok(trim_trailing_slashes(v)),
        None => Err(AuthError::NotConfigured(String::from_str(name))),
    }
}

/// The Clerk issuer: the setting `MEETINGLY_CLERK_ISSUER`, from the environment or built in.
pub fn issuer(env_value: Option<&str>, built: Option<&str>) -> (value: Result<String, AuthError>)
    ensures
        match (value, chosen_setting(opt_str_view(env_value), opt_str_view(built))) {
            (Ok(v), Some(c)) => v@ == strip_trailing_slashes(c),
            (Err(e), None) => e matches AuthError::NotConfigured(n) && n@ == ISSUER_SETTING@,
            _ => false,
        },
{
    config_value(ISSUER_SETTING, env_value, built)
}

/// The OAuth client id: the setting `MEETINGLY_CLERK_OAUTH_CLIENT_ID`, from the
/// environment or built in.
pub fn client_id(env_value: Option<&str>, built: Option<&str>) -> (value: Result<String, AuthError>)
    ensures
        match (value, chosen_setting(opt_str_view(env_value), opt_str_view(built))) {
            (Ok(v), Some(c)) => v@ == strip_trailing_slashes(c),
            (Err(e), None) => e matches AuthError::NotConfigured(n) && n@ == CLIENT_ID_SETTING@,
            _ => false,
        },
{
    config_value(CLIENT_ID_SETTING, env_value, built)
}

/// The Connections address: the environment's unless blank, else the one built in (even
/// blank), else the default; without trailing slashes.
pub open spec fn connections_url_of(env_value: Option<Seq<char>>, built: Option<Seq<char>>) -> Seq<
    char,
> {
    strip_trailing_slashes(
        match env_value {
            Some(e) if !is_blank(e) => e,
            _ => match built {
                Some(b) => b,
                None => CONNECTIONS_DEFAULT_URL@,
            },
        },
    )
}

/// The Connections address, from the environment (`env_value`), else the value built into
/// the program, else the default.
pub fn connections_url(env_value: Option<&str>, built: Option<&str>) -> (url: String)
    ensures
        url@ == connections_url_of(opt_str_view(env_value), opt_str_view(built)),
        env_value is Some && !is_blank(env_value->0@) ==> url@ == strip_trailing_slashes(
            env_value->0@,
        ),
        !(env_value is Some && !is_blank(env_value->0@)) && built is Some ==> url@
            == strip_trailing_slashes(built->0@),
        !(env_value is Some && !is_blank(env_value->0@)) && built is None ==> url@
            == strip_trailing_slashes(CONNECTIONS_DEFAULT_URL@),
{
    let chosen = match env_value {
        Some(e) if !blank(e) => e,
        _ => match built {
            Some(b) => b,
            None => CONNECTIONS_DEFAULT_URL,
        },
    };
    trim_trailing_slashes(chosen)
}

fn joined(base: &str, suffix: &str) -> (url: String)
    ensures
        url@ == base@ + suffix@,
{
    let mut url = String::from_str(base);
    url.append(suffix);
    url
}

/// Where the issuer publishes its OAuth metadata.
pub fn metadata_url(issuer: &str) -> (url: String)
    ensures
        url@ == issuer@ + "/.well-known/oauth-authorization-server"@,
{
    joined(issuer, "/.well-known/oauth-authorization-server")
}

/// Where Connections verifies a session.
pub fn session_url(connections_url: &str) -> (url: String)
    ensures
        url@ == connections_url@ + "/api/auth/session"@,
{
    joined(connections_url, "/api/auth/session")
}

/// A page of the Clerk account portal.
pub fn portal_url(issuer: &str, path: &str) -> (url: String)
    ensures
        url@ == issuer@ + "/"@ + path@,
{
    let mut url = joined(issuer, "/");
    url.append(path);
    url
}

// ---------------------------------------------------------------------------------
// Forms and queries.
// ---------------------------------------------------------------------------------
fn pair(name: &str, value: &str) -> (p: (String, String))
    ensures
        p.0@ == name@,
        p.1@ == value@,
{
    (String::from_str(name), String::from_str(value))
}

/// The query of the authorization request.
pub open spec fn authorization_query_of(client_id: Seq<char>, state: Seq<char>, challenge: Seq<char>) -> Seq<
    (Seq<char>, Seq<char>),
> {
    seq![
        ("response_type"@, "code"@),
        ("client_id"@, client_id),
        ("redirect_uri"@, REDIRECT_URI@),
        ("scope"@, SCOPES@),
        ("state"@, state),
        ("code_challenge"@, challenge),
        ("code_challenge_method"@, "S256"@),
        ("prompt"@, "consent"@),
    ]
}

/// The query of the authorization request, in order.
pub fn authorization_query(client_id: &str, state: &str, challenge: &str) -> (query: Vec<
    (String, String),
>)
    ensures
        pairs_view(query@) == authorization_query_of(client_id@, state@, challenge@),
{
    let mut query: Vec<(String, String)> = Vec::new();
    query.push(pair("response_type", "code"));
    query.push(pair("client_id", client_id));
    query.push(pair("redirect_uri", REDIRECT_URI));
    query.push(pair("scope", SCOPES));
    query.push(pair("state", state));
    query.push(pair("code_challenge", challenge));
    query.push(pair("code_challenge_method", "S256"));
    query.push(pair("prompt", "consent"));
    assert(pairs_view(query@) =~= authorization_query_of(client_id@, state@, challenge@));
    query
}

/// The form that trades an authorization code for tokens.
pub fn authorization_code_form(code: &str, client_id: &str, verifier: &str) -> (form: Vec<
    (String, String),
>)
    ensures
        pairs_view(form@) == seq![
            ("grant_type"@, "authorization_code"@),
            ("code"@, code@),
            ("client_id"@, client_id@),
            ("redirect_uri"@, REDIRECT_URI@),
            ("code_verifier"@, verifier@),
        ],
{
    let mut form: Vec<(String, String)> = Vec::new();
    form.push(pair("grant_type", "authorization_code"));
    form.push(pair("code", code));
    form.push(pair("client_id", client_id));
    form.push(pair("redirect_uri", REDIRECT_URI));
    form.push(pair("code_verifier", verifier));
    assert(pairs_view(form@) =~= seq![
        ("grant_type"@, "authorization_code"@),
        ("code"@, code@),
        ("client_id"@, client_id@),
        ("redirect_uri"@, REDIRECT_URI@),
        ("code_verifier"@, verifier@),
    ]);
    form
}

/// The form that trades a refresh token for fresh tokens.
pub fn refresh_form(refresh_token: &str, client_id: &str) -> (form: Vec<(String, String)>)
    ensures
        pairs_view(form@) == seq![
            ("grant_type"@, "refresh_token"@),
            ("refresh_token"@, refresh_token@),
            ("client_id"@, client_id@),
        ],
{
    let mut form: Vec<(String, String)> = Vec::new();
    form.push(pair("grant_type", "refresh_token"));
    form.push(pair("refresh_token", refresh_token));
    form.push(pair("client_id", client_id));
    assert(pairs_view(form@) =~= seq![
        ("grant_type"@, "refresh_token"@),
        ("refresh_token"@, refresh_token@),
        ("client_id"@, client_id@),
    ]);
    form
}

/// The form that revokes a refresh token at sign-out; an unknown client id is sent empty.
pub fn revocation_form(refresh_token: &str, client_id: Option<&str>) -> (form: Vec<(String, String)>)
    ensures
        pairs_view(form@) == seq![
            ("token"@, refresh_token@),
            (
                "client_id"@,
                match client_id {
                    Some(c) => c@,
                    None => Seq::<char>::empty(),
                },
            ),
        ],
{
    let mut form: Vec<(String, String)> = Vec::new();
    form.push(pair("token", refresh_token));
    let client = match client_id {
        Some(c) => String::from_str(c),
        None => String::new(),
    };
    form.push((String::from_str("client_id"), client));
    assert(pairs_view(form@) =~= seq![
        ("token"@, refresh_token@),
        (
            "client_id"@,
            match client_id {
                Some(c) => c@,
                None => Seq::<char>::empty(),
            },
        ),
    ]);
    form
}

// ---------------------------------------------------------------------------------
// PKCE and the authorization request.
// ---------------------------------------------------------------------------------
/// The S256 code challenge of a verifier: the unpadded URL-safe base64 of the SHA-256 of
/// its UTF-8 bytes.
pub open spec fn code_challenge_of(verifier: Seq<char>) -> Seq<char> {
    base64_url_encoding(sha256_digest(vstd::utf8::encode_utf8(verifier)))
}

/// The S256 code challenge of a verifier.
pub fn pkce_challenge(verifier: &str) -> (challenge: String)
    ensures
        challenge@ == code_challenge_of(verifier@),
        challenge@.len() == 43,
        is_url_safe_text(challenge@),
{
    let digest = sha256(verifier.as_bytes());
    base64_url_encode(digest.as_slice())
}

/// Whether `text` is the unpadded URL-safe base64 of some `count` bytes.
pub open spec fn is_encoding_of_bytes(text: Seq<char>, count: nat) -> bool {
    exists|bytes: Seq<u8>| bytes.len() == count && text == base64_url_encoding(bytes)
}

/// `bytes` random bytes, in unpadded URL-safe base64.
pub fn random_urlsafe(bytes: usize) -> (text: String)
    requires
        (bytes / 3) * 4 + 3 <= usize::MAX,
    ensures
        is_encoding_of_bytes(text@, bytes as nat),
        text@.len() == base64_encoded_len(bytes as nat),
        is_url_safe_text(text@),
{
    let value = random_bytes(bytes);
    let text = base64_url_encode(value.as_slice());
    assert(value@.len() == bytes && text@ == base64_url_encoding(value@));
    text
}

/// The authorization address for the given client, state and verifier.
pub open spec fn authorization_url_of(
    endpoint: Seq<char>,
    client_id: Seq<char>,
    state: Seq<char>,
    verifier: Seq<char>,
) -> Option<Seq<char>> {
    url_with_query_pairs(
        endpoint,
        authorization_query_of(client_id, state, code_challenge_of(verifier)),
    )
}

/// The address that starts a sign-in at the authorization endpoint.
pub fn authorization_request(
    authorization_endpoint: &str,
    client_id: &str,
    state: &str,
    verifier: &str,
) -> (url: Result<String, AuthError>)
    ensures
        match (url, authorization_url_of(authorization_endpoint@, client_id@, state@, verifier@)) {
            (Ok(u), Some(v)) => u@ == v,
            (Err(e), None) => e is InvalidAuthorizationEndpoint,
            _ => false,
        },
{
    let challenge = pkce_challenge(verifier);
    let query = authorization_query(client_id, state, challenge.as_str());
    match append_query_pairs(authorization_endpoint, &query) {
        Ok(url) => Ok(url),
        Err(error) => Err(AuthError::InvalidAuthorizationEndpoint(url_parse_error_text(&error))),
    }
}

/// Starts a sign-in: draws a fresh verifier (32 random bytes, 43 URL-safe characters) and
/// state (24 random bytes, 32 URL-safe characters), remembers them as the pending sign-in
/// and returns the authorization address.  Refused while a recording
/// is bound to an organization; on any refusal the state is unchanged.
pub fn start_sign_in(
    auth: &mut AuthState,
    authorization_endpoint: &str,
    client_id: &str,
) -> (url: Result<String, AuthError>)
    ensures
        match url {
            Ok(u) => {
                &&& switching_outcome(old(auth)@) is Ok
                &&& final(auth)@.session == old(auth)@.session
                &&& final(auth)@.recording == old(auth)@.recording
                &&& final(auth)@.pending matches Some(p) && {
                    &&& is_encoding_of_bytes(p.verifier, 32)
                    &&& is_encoding_of_bytes(p.state, 24)
                    &&& p.verifier.len() == 43
                    &&& p.state.len() == 32
                    &&& is_url_safe_text(p.verifier)
                    &&& is_url_safe_text(p.state)
                    &&& authorization_url_of(
                        authorization_endpoint@,
                        client_id@,
                        p.state,
                        p.verifier,
                    ) == Some(u@)
                }
            },
            Err(e) => {
                &&& final(auth)@ == old(auth)@
                &&& (switching_outcome(old(auth)@) == Err::<(), AuthError>(e) || {
                    &&& switching_outcome(old(auth)@) is Ok
                    &&& e is InvalidAuthorizationEndpoint
                    &&& exists|state: Seq<char>, verifier: Seq<char>|
                        is_encoding_of_bytes(state, 24) && is_encoding_of_bytes(verifier, 32)
                            && #[trigger] authorization_url_of(
                            authorization_endpoint@,
                            client_id@,
                            state,
                            verifier,
                        ) is None
                })
            },
        },
{
    ensure_organization_switching_allowed(auth)?;
    let verifier = random_urlsafe(32);
    let state = random_urlsafe(24);
    let url = authorization_request(authorization_endpoint, client_id, state.as_str(), verifier.as_str())?;
    auth.set_pending(Some(PendingAuthorization { state, verifier }));
    Ok(url)
}

// ---------------------------------------------------------------------------------
// The callback.
// ---------------------------------------------------------------------------------
/// The parts of the address the browser was sent back to.
pub struct CallbackView {
    pub scheme: Seq<char>,
    pub host: Option<Seq<char>>,
    pub path: Seq<char>,
    pub query: Seq<(Seq<char>, Seq<char>)>,
}

/// The address the browser was sent back to after sign-in: scheme, host, path and the
/// decoded query pairs in order.
#[derive(Debug)]
pub struct CallbackUrl {
    pub scheme: String,
    pub host: Option<String>,
    pub path: String,
    pub query: Vec<(String, String)>,
}

impl View for CallbackUrl {
    type V = CallbackView;

    open spec fn view(&self) -> CallbackView {
        CallbackView {
            scheme: self.scheme@,
            host: match self.host {
                Some(h) => Some(h@),
                None => None,
            },
            path: self.path@,
            query: pairs_view(self.query@),
        }
    }
}

/// Whether the address is the registered redirect `meetingly://oauth/callback`.
pub open spec fn is_callback_shape(cb: CallbackView) -> bool {
    &&& cb.scheme == "meetingly"@
    &&& cb.host == Some("oauth"@)
    &&& cb.path == "/callback"@
}

/// The value of a query parameter: the last pair that names it wins.
pub open spec fn query_lookup(query: Seq<(Seq<char>, Seq<char>)>, name: Seq<char>) -> Option<Seq<char>>
    decreases query.len(),
{
    if query.len() == 0 {
        None
    } else if query.last().0 == name {
        Some(query.last().1)
    } else {
        query_lookup(query.drop_last(), name)
    }
}

/// Whether the address is the registered redirect.
pub fn is_oauth_callback(callback: &CallbackUrl) -> (is_callback: bool)
    ensures
        is_callback == is_callback_shape(callback@),
{
    let host_ok = match &callback.host {
        Some(h) => *h == String::from_str("oauth"),
        None => false,
    };
    callback.scheme == String::from_str("meetingly") && host_ok && callback.path == String::from_str(
        "/callback",
    )
}

/// The value of the named query parameter; the last occurrence wins.
pub fn query_value(query: &Vec<(String, String)>, name: &str) -> (value: Option<String>)
    ensures
        match value {
            Some(v) => query_lookup(pairs_view(query@), name@) == Some(v@),
            None => query_lookup(pairs_view(query@), name@) is None,
        },
{
    let key = String::from_str(name);
    let mut found: Option<String> = None;
    let mut i: usize = 0;
    while i < query.len()
        invariant
            i <= query@.len(),
            key@ == name@,
            match found {
                Some(v) => query_lookup(pairs_view(query@.take(i as int)), name@) == Some(v@),
                None => query_lookup(pairs_view(query@.take(i as int)), name@) is None,
            },
        decreases query@.len() - i,
    {
        proof {
            assert(pairs_view(query@.take(i + 1)).drop_last() =~= pairs_view(query@.take(i as int)));
            assert(pairs_view(query@.take(i + 1)).last() == (query@[i as int].0@, query@[i as int].1@));
        }
        if query[i].0 == key {
            found = Some(query[i].1.clone());
        }
        i = i + 1;
    }
    assert(query@.take(query@.len() as int) =~= query@);
    found
}

/// The code and verifier that an accepted callback yields for the token request.
#[derive(Debug)]
pub struct AuthorizationGrant {
    pub code: String,
    pub verifier: String,
}

/// How a callback is answered in a given state: refused while a recording holds the
/// organization; then the address, Clerk's error, the code and the state are checked in
/// that order; then the pending sign-in is consumed and its state must match.  (The reason
/// carried by a rejection is Clerk's `error` parameter; `accept_callback` states it.)
pub open spec fn callback_outcome(v: AuthStateView, cb: CallbackView) -> Result<
    (Seq<char>, Seq<char>),
    AuthError,
> {
    if v.recording is Some {
        Err(AuthError::SwitchingBlocked)
    } else if !is_callback_shape(cb) {
        Err(AuthError::UnexpectedCallback)
    } else if query_lookup(cb.query, "error"@) is Some {
        Err(AuthError::SignInRejected(arbitrary()))
    } else if query_lookup(cb.query, "code"@) is None {
        Err(AuthError::MissingCode)
    } else if query_lookup(cb.query, "state"@) is None {
        Err(AuthError::MissingState)
    } else {
        match v.pending {
            None => Err(AuthError::NoPendingSignIn),
            Some(p) => if query_lookup(cb.query, "state"@) == Some(p.state) {
                Ok((query_lookup(cb.query, "code"@)->0, p.verifier))
            } else {
                Err(AuthError::StateMismatch)
            },
        }
    }
}

/// Whether the callback reaches the pending sign-in (and so consumes it).
pub open spec fn callback_consumes_pending(v: AuthStateView, cb: CallbackView) -> bool {
    &&& v.recording is None
    &&& is_callback_shape(cb)
    &&& query_lookup(cb.query, "error"@) is None
    &&& query_lookup(cb.query, "code"@) is Some
    &&& query_lookup(cb.query, "state"@) is Some
}

/// The state after a callback.
pub open spec fn after_callback(v: AuthStateView, cb: CallbackView) -> AuthStateView {
    if callback_consumes_pending(v, cb) {
        AuthStateView { pending: None, ..v }
    } else {
        v
    }
}

/// Checks the OAuth callback against the pending sign-in and, when it matches, yields the
/// code and the verifier for the token request.  The pending sign-in is consumed as soon as
/// the callback reaches it, whether its state matches or not.
pub fn accept_callback(auth: &mut AuthState, callback: &CallbackUrl) -> (grant: Result<
    AuthorizationGrant,
    AuthError,
>)
    ensures
        final(auth)@ == after_callback(old(auth)@, callback@),
        match (grant, callback_outcome(old(auth)@, callback@)) {
            (Ok(g), Ok(expected)) => g.code@ == expected.0 && g.verifier@ == expected.1,
            (Err(AuthError::SignInRejected(reason)), Err(AuthError::SignInRejected(_))) => Some(reason@)
                == query_lookup(callback@.query, "error"@),
            (Err(e), Err(f)) => e == f && !(f is SignInRejected),
            _ => false,
        },
{
    ensure_organization_switching_allowed(auth)?;
    if !is_oauth_callback(callback) {
        return Err(AuthError::UnexpectedCallback);
    }
    if let Some(error) = query_value(&callback.query, "error") {
        return Err(AuthError::SignInRejected(error));
    }
    let code = match query_value(&callback.query, "code") {
        Some(c) => c,
        None => return Err(AuthError::MissingCode),
    };
    let state = match query_value(&callback.query, "state") {
        Some(s) => s,
        None => return Err(AuthError::MissingState),
    };
    let pending = match auth.take_pending() {
        Some(p) => p,
        None => return Err(AuthError::NoPendingSignIn),
    };
    if state != pending.state {
        return Err(AuthError::StateMismatch);
    }
    Ok(AuthorizationGrant { code, verifier: pending.verifier })
}

// ---------------------------------------------------------------------------------
// The access token.
// ---------------------------------------------------------------------------------
/// The `aud` claim of an access token: one text, a list (with `None` for an entry that
/// is not text), or a value of another kind.
#[derive(Debug)]
pub enum Audience {
    Text(String),
    List(Vec<Option<String>>),
    Other,
}

/// Whether an audience entry is the client.
pub open spec fn entry_names(entry: Option<String>, client_id: Seq<char>) -> bool {
    entry matches Some(v) && v@ == client_id
}

/// Whether the audience names the client.
pub open spec fn audience_names(aud: Audience, client_id: Seq<char>) -> bool {
    match aud {
        Audience::Text(t) => t@ == client_id,
        Audience::List(values) => exists|i: int|
            0 <= i < values@.len() && entry_names(#[trigger] values@[i], client_id),
        Audience::Other => false,
    }
}

/// Whether the audience names the client: it is that text, or a list holding it.
pub fn audience_contains(audience: &Audience, client_id: &str) -> (contains: bool)
    ensures
        contains == audience_names(*audience, client_id@),
        audience matches Audience::Text(t) ==> (contains <==> t@ == client_id@),
        audience matches Audience::List(values) ==> (contains <==> exists|i: int|
            0 <= i < values@.len() && #[trigger] values@[i] is Some && values@[i]->0@
                == client_id@),
        audience is Other ==> !contains,
{
    let client = String::from_str(client_id);
    match audience {
        Audience::Text(t) => *t == client,
        Audience::List(values) => {
            let mut i: usize = 0;
            while i < values.len()
                invariant
                    i <= values@.len(),
                    client@ == client_id@,
                    *audience == Audience::List(*values),
                    forall|j: int|
                        0 <= j < i ==> !entry_names(#[trigger] values@[j], client_id@),
                decreases values@.len() - i,
            {
                if let Some(v) = &values[i] {
                    if *v == client {
                        assert(entry_names(values@[i as int], client_id@));
                        assert(audience_names(*audience, client_id@)) by {
                            let vs = match *audience {
                                Audience::List(vs) => vs,
                                _ => arbitrary(),
                            };
                            assert(vs@[i as int] == values@[i as int]);
                        }
                        return true;
                    }
                }
                i = i + 1;
            }
            false
        },
        Audience::Other => false,
    }
}

/// The claims of a Clerk access token.
#[derive(Debug)]
pub struct AccessClaims {
    pub sub: String,
    pub org_id: String,
    pub aud: Option<Audience>,
    pub exp: i64,
    pub iss: String,
}

/// The payload part of a JWT: what lies between its first and its second dot.
pub open spec fn jwt_payload_of(token: Seq<char>) -> Option<Seq<char>> {
    match find_char(token, '.', 0) {
        None => None,
        Some(first) => match find_char(token, '.', first + 1) {
            Some(second) => Some(token.subrange(first + 1, second)),
            None => Some(token.subrange(first + 1, token.len() as int)),
        },
    }
}

proof fn lemma_find_char_in_range(s: Seq<char>, c: char, from: int)
    ensures
        find_char(s, c, from) matches Some(i) ==> from <= i < s.len() && s[i] == c,
    decreases s.len() - from,
{
    if 0 <= from < s.len() && s[from] != c {
        lemma_find_char_in_range(s, c, from + 1);
    }
}

/// The payload part of a JWT: the text between its first and second dot.
pub fn jwt_payload(token: &str) -> (payload: Result<&str, AuthError>)
    ensures
        match (payload, jwt_payload_of(token@)) {
            (Ok(p), Some(q)) => p@ == q,
            (Err(e), None) => e == AuthError::NotJwt,
            _ => false,
        },
{
    let n = token.unicode_len();
    let mut first: usize = 0;
    while first < n && token.get_char(first) != '.'
        invariant
            first <= n,
            n == token@.len(),
            find_char(token@, '.', 0) == find_char(token@, '.', first as int),
        decreases n - first,
    {
        first = first + 1;
    }
    if first == n {
        return Err(AuthError::NotJwt);
    }
    let mut second: usize = first + 1;
    while second < n && token.get_char(second) != '.'
        invariant
            first < second <= n,
            n == token@.len(),
            find_char(token@, '.', first + 1) == find_char(token@, '.', second as int),
        decreases n - second,
    {
        second = second + 1;
    }
    Ok(token.substring_char(first + 1, second))
}

/// The decoded payload of a JWT, for the claims parser.
pub fn decode_jwt_payload(token: &str) -> (decoded: Result<Vec<u8>, AuthError>)
    ensures
        match jwt_payload_of(token@) {
            None => decoded == Err::<Vec<u8>, AuthError>(AuthError::NotJwt),
            Some(p) => match (decoded, base64_url_decoding(vstd::utf8::encode_utf8(p))) {
                (Ok(bytes), Some(expected)) => bytes@ == expected,
                (Err(e), None) => e is TokenPayloadEncoding,
                _ => false,
            },
        },
{
    let payload = jwt_payload(token)?;
    match base64_url_decode(payload.as_bytes()) {
        Ok(bytes) => Ok(bytes),
        Err(error) => Err(AuthError::TokenPayloadEncoding(decode_error_text(&error))),
    }
}

/// How the claims of a token are judged: issued by the issuer (trailing slashes aside) and,
/// where an audience is given, for the client; then not expired at `now`.
pub open spec fn claims_outcome(
    claims: AccessClaims,
    issuer: Seq<char>,
    client_id: Seq<char>,
    now: i64,
) -> Result<(), AuthError> {
    if strip_trailing_slashes(claims.iss@) != issuer || (claims.aud matches Some(a)
        && !audience_names(a, client_id)) {
        Err(AuthError::IssuerOrAudienceInvalid)
    } else if claims.exp <= now {
        Err(AuthError::TokenExpired)
    } else {
        Ok(())
    }
}

/// Checks the issuer, the audience and the expiry of an access token's claims; `now` is
/// the current time in seconds since the epoch.
pub fn check_access_claims(claims: &AccessClaims, issuer: &str, client_id: &str, now: i64) -> (checked:
    Result<(), AuthError>)
    ensures
        checked == claims_outcome(*claims, issuer@, client_id@, now),
{
    let iss = trim_trailing_slashes(claims.iss.as_str());
    let audience_ok = match &claims.aud {
        Some(a) => audience_contains(a, client_id),
        None => true,
    };
    if !(iss == String::from_str(issuer)) || !audience_ok {
        return Err(AuthError::IssuerOrAudienceInvalid);
    }
    if claims.exp <= now {
        return Err(AuthError::TokenExpired);
    }
    Ok(())
}

/// What Connections answered about a session: the user, and the organization as found
/// in the session claims, at `org_id` or else at `o.id` (`None` where absent or not text).
#[derive(Debug)]
pub struct VerifiedSession {
    pub user_id: String,
    pub org_id: Option<String>,
    pub nested_org_id: Option<String>,
}

/// The organization Connections verified: `org_id`, else `o.id`.
pub open spec fn verified_org_of(v: VerifiedSession) -> Option<Seq<char>> {
    match v.org_id {
        Some(o) => Some(o@),
        None => match v.nested_org_id {
            Some(o) => Some(o@),
            None => None,
        },
    }
}

/// The session a token stands for, once Connections has verified the same user and
/// organization as the claims name.
pub fn confirm_session(claims: AccessClaims, verified: &VerifiedSession) -> (session: Result<
    AuthSession,
    AuthError,
>)
    ensures
        match session {
            Ok(s) => {
                &&& verified.user_id@ == claims.sub@
                &&& verified_org_of(*verified) == Some(claims.org_id@)
                &&& s@ == (SessionView {
                    user_id: claims.sub@,
                    clerk_org_id: claims.org_id@,
                    expires_at: claims.exp,
                })
            },
            Err(e) => {
                &&& e == AuthError::ConnectionsRejected
                &&& !(verified.user_id@ == claims.sub@ && verified_org_of(*verified) == Some(
                    claims.org_id@,
                ))
            },
        },
{
    let org_matches = match &verified.org_id {
        Some(o) => *o == claims.org_id,
        None => match &verified.nested_org_id {
            Some(o) => *o == claims.org_id,
            None => false,
        },
    };
    if !(verified.user_id == claims.sub) || !org_matches {
        return Err(AuthError::ConnectionsRejected);
    }
    Ok(AuthSession { user_id: claims.sub, clerk_org_id: claims.org_id, expires_at: claims.exp })
}

// ---------------------------------------------------------------------------------
// Stored tokens.
// ---------------------------------------------------------------------------------
/// The tokens kept in the keychain.
#[derive(Debug)]
pub struct StoredTokens {
    pub access_token: String,
    pub refresh_token: String,
    pub expires_at: i64,
}

/// What the token endpoint answered.
#[derive(Debug)]
pub struct TokenResponse {
    pub access_token: String,
    pub refresh_token: Option<String>,
    pub expires_in: Option<i64>,
}

/// Whether tokens are refreshed before use: when they expire within a minute of `now`.
pub fn needs_refresh(tokens: &StoredTokens, now: i64) -> (refresh: bool)
    requires
        now <= i64::MAX - 60,
    ensures
        refresh == (tokens.expires_at <= now + 60),
{
    tokens.expires_at <= now + 60
}

/// When the expiry is in range: `now + expires_in` fits in an `i64`.
pub open spec fn expiry_in_range(expires_in: Option<i64>, now: i64) -> bool {
    expires_in matches Some(seconds) ==> i64::MIN <= now + seconds <= i64::MAX
}

/// The expiry of new tokens: `expires_in` seconds from `now`, else the token's own expiry.
pub open spec fn expiry_of(expires_in: Option<i64>, session_expires_at: i64, now: i64) -> int {
    match expires_in {
        Some(seconds) => now + seconds,
        None => session_expires_at as int,
    }
}

fn expiry(expires_in: Option<i64>, session_expires_at: i64, now: i64) -> (at: i64)
    requires
        expiry_in_range(expires_in, now),
    ensures
        at == expiry_of(expires_in, session_expires_at, now),
{
    match expires_in {
        Some(seconds) => now + seconds,
        None => session_expires_at,
    }
}

/// The tokens to keep after a sign-in: the access token, the refresh token (required) and
/// the expiry.
pub fn tokens_from_authorization(response: TokenResponse, session: &AuthSession, now: i64) -> (tokens:
    Result<StoredTokens, AuthError>)
    requires
        response.refresh_token is Some ==> expiry_in_range(response.expires_in, now),
    ensures
        match tokens {
            Ok(t) => {
                &&& response.refresh_token matches Some(r) && t.refresh_token@ == r@
                &&& t.access_token@ == response.access_token@
                &&& t.expires_at == expiry_of(response.expires_in, session.expires_at, now)
            },
            Err(e) => e == AuthError::MissingRefreshToken && response.refresh_token is None,
        },
{
    let refresh_token = match response.refresh_token {
        Some(r) => r,
        None => return Err(AuthError::MissingRefreshToken),
    };
    let expires_at = expiry(response.expires_in, session.expires_at, now);
    Ok(StoredTokens { access_token: response.access_token, refresh_token, expires_at })
}

/// The tokens to keep after a refresh: a refresh token that the endpoint did not renew is
/// kept.
pub fn refreshed_tokens(current: StoredTokens, response: TokenResponse, session: &AuthSession, now: i64) -> (tokens: StoredTokens)
    requires
        expiry_in_range(response.expires_in, now),
    ensures
        tokens.access_token@ == response.access_token@,
        tokens.refresh_token@ == match response.refresh_token {
            Some(r) => r@,
            None => current.refresh_token@,
        },
        tokens.expires_at == expiry_of(response.expires_in, session.expires_at, now),
{
    let refresh_token = match response.refresh_token {
        Some(r) => r,
        None => current.refresh_token,
    };
    let expires_at = expiry(response.expires_in, session.expires_at, now);
    StoredTokens { access_token: response.access_token, refresh_token, expires_at }
}

} // verus!
