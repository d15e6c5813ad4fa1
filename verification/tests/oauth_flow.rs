use base64::Engine;
use meetingly::error::AuthError;
use meetingly::identity::{
    begin_recording_identity, set_current_session, AuthSession, AuthState,
};
use meetingly::oauth::{
    accept_callback, audience_contains, authorization_code_form, authorization_query,
    authorization_request, check_access_claims, client_id, config_value, confirm_session,
    connections_url, decode_jwt_payload, is_oauth_callback, issuer, jwt_payload, metadata_url,
    needs_refresh, pkce_challenge, portal_url, query_value, random_urlsafe, refresh_form,
    refreshed_tokens, revocation_form, session_url, start_sign_in, tokens_from_authorization,
    trim_trailing_slashes, AccessClaims, Audience, CallbackUrl, StoredTokens, TokenResponse,
    VerifiedSession,
};

fn callback_from(url: &url::Url) -> CallbackUrl {
    CallbackUrl {
        scheme: url.scheme().to_string(),
        host: url.host_str().map(str::to_string),
        path: url.path().to_string(),
        query: url
            .query_pairs()
            .map(|(k, v)| (k.into_owned(), v.into_owned()))
            .collect(),
    }
}

fn pairs(items: &[(&str, &str)]) -> Vec<(String, String)> {
    items
        .iter()
        .map(|(k, v)| (k.to_string(), v.to_string()))
        .collect()
}

#[test]
fn validates_callback_and_audience_shapes() {
    assert!(audience_contains(&Audience::Text("client".to_string()), "client"));
    assert!(audience_contains(
        &Audience::List(vec![Some("other".to_string()), Some("client".to_string())]),
        "client"
    ));
    assert!(!audience_contains(
        &Audience::List(vec![Some("other".to_string())]),
        "client"
    ));
    let url = url::Url::parse("meetingly://oauth/callback?code=x&state=y").unwrap();
    assert_eq!(url.host_str(), Some("oauth"));
    assert_eq!(url.path(), "/callback");
    assert!(is_oauth_callback(&callback_from(&url)));
}

#[test]
fn audience_of_other_kinds_names_no_client() {
    assert!(!audience_contains(&Audience::Other, "client"));
    assert!(!audience_contains(&Audience::List(vec![None]), "client"));
    assert!(!audience_contains(&Audience::Text("client2".to_string()), "client"));
}

#[test]
fn config_value_prefers_environment_and_strips_slashes() {
    assert_eq!(
        config_value("X", Some("https://a.example//"), Some("https://b.example")).unwrap(),
        "https://a.example"
    );
    assert_eq!(
        config_value("X", Some("   "), Some("https://b.example/")).unwrap(),
        "https://b.example"
    );
    assert_eq!(
        config_value("X", None, Some("https://b.example")).unwrap(),
        "https://b.example"
    );
    let missing = config_value("X", Some(" "), Some("\t")).unwrap_err();
    assert_eq!(missing.message(), "X is not configured.");
    assert!(matches!(
        issuer(None, None),
        Err(AuthError::NotConfigured(name)) if name == "MEETINGLY_CLERK_ISSUER"
    ));
    assert!(matches!(
        client_id(None, None),
        Err(AuthError::NotConfigured(name)) if name == "MEETINGLY_CLERK_OAUTH_CLIENT_ID"
    ));
    assert_eq!(client_id(Some("abc"), None).unwrap(), "abc");
}

#[test]
fn connections_url_falls_back_to_default() {
    assert_eq!(
        connections_url(None, None),
        "https://connections.fractals-solutions.com"
    );
    assert_eq!(connections_url(Some(" "), Some("https://c.example/")), "https://c.example");
    assert_eq!(connections_url(Some("https://e.example/"), None), "https://e.example");
    assert_eq!(connections_url(None, Some("")), "");
    assert_eq!(trim_trailing_slashes("a/b///"), "a/b");
}

#[test]
fn addresses_are_built_from_the_base() {
    assert_eq!(
        metadata_url("https://clerk.example"),
        "https://clerk.example/.well-known/oauth-authorization-server"
    );
    assert_eq!(
        session_url("https://c.example"),
        "https://c.example/api/auth/session"
    );
    assert_eq!(
        portal_url("https://clerk.example", "organization"),
        "https://clerk.example/organization"
    );
}

#[test]
fn forms_hold_their_fields_in_order() {
    assert_eq!(
        authorization_query("cid", "st", "ch"),
        pairs(&[
            ("response_type", "code"),
            ("client_id", "cid"),
            ("redirect_uri", "meetingly://oauth/callback"),
            ("scope", "openid profile email user:org:read"),
            ("state", "st"),
            ("code_challenge", "ch"),
            ("code_challenge_method", "S256"),
            ("prompt", "consent"),
        ])
    );
    assert_eq!(
        authorization_code_form("c", "cid", "v"),
        pairs(&[
            ("grant_type", "authorization_code"),
            ("code", "c"),
            ("client_id", "cid"),
            ("redirect_uri", "meetingly://oauth/callback"),
            ("code_verifier", "v"),
        ])
    );
    assert_eq!(
        refresh_form("r", "cid"),
        pairs(&[("grant_type", "refresh_token"), ("refresh_token", "r"), ("client_id", "cid")])
    );
    assert_eq!(
        revocation_form("r", None),
        pairs(&[("token", "r"), ("client_id", "")])
    );
}

#[test]
fn pkce_challenge_is_base64url_of_sha256() {
    assert_eq!(
        pkce_challenge("dBjftJeZ4CVP-mJ92IJN2oPBf0dxCtN-E3P-SfGSYGk"),
        "iq6JGzzSQjrDW49okdkTKjIWGiQ_-IO7CSG30fKwmhI"
    );
    assert_eq!(pkce_challenge(""), "47DEQpj8HBSa-_TImW-5JCeuQeRkm5NMpJWZG3hSuFU");
}

#[test]
fn random_urlsafe_has_unpadded_length() {
    let verifier = random_urlsafe(32);
    assert_eq!(verifier.len(), 43);
    assert!(verifier
        .chars()
        .all(|c| c.is_ascii_alphanumeric() || c == '-' || c == '_'));
    assert_eq!(random_urlsafe(24).len(), 32);
    assert_ne!(random_urlsafe(32), random_urlsafe(32));
}

#[test]
fn authorization_request_appends_the_query() {
    let url = authorization_request("https://clerk.example/oauth/authorize", "cid", "st", "v").unwrap();
    let parsed = url::Url::parse(&url).unwrap();
    let query: Vec<(String, String)> = parsed
        .query_pairs()
        .map(|(k, v)| (k.into_owned(), v.into_owned()))
        .collect();
    assert_eq!(parsed.path(), "/oauth/authorize");
    assert_eq!(
        query,
        pairs(&[
            ("response_type", "code"),
            ("client_id", "cid"),
            ("redirect_uri", "meetingly://oauth/callback"),
            ("scope", "openid profile email user:org:read"),
            ("state", "st"),
            ("code_challenge", &pkce_challenge("v")),
            ("code_challenge_method", "S256"),
            ("prompt", "consent"),
        ])
    );
    match authorization_request("not a url", "cid", "st", "v") {
        Err(error @ AuthError::InvalidAuthorizationEndpoint(_)) => assert_eq!(
            error.message(),
            url::Url::parse("not a url").unwrap_err().to_string()
        ),
        other => panic!("unexpected {other:?}"),
    }
}

#[test]
fn sign_in_round_trip_yields_the_pending_verifier() {
    let mut state = AuthState::new();
    let url = start_sign_in(&mut state, "https://clerk.example/authorize", "cid").unwrap();
    let parsed = url::Url::parse(&url).unwrap();
    let lookup = |name: &str| {
        parsed
            .query_pairs()
            .find(|(k, _)| k == name)
            .map(|(_, v)| v.into_owned())
            .unwrap()
    };
    let oauth_state = lookup("state");
    let challenge = lookup("code_challenge");
    let url_safe = |text: &str| text.chars().all(|c| c.is_ascii_alphanumeric() || c == '-' || c == '_');
    assert_eq!(oauth_state.len(), 32);
    assert!(url_safe(&oauth_state));
    assert!(url_safe(&challenge));
    let callback = url::Url::parse(&format!(
        "meetingly://oauth/callback?code=the-code&state={oauth_state}"
    ))
    .unwrap();
    let grant = accept_callback(&mut state, &callback_from(&callback)).unwrap();
    assert_eq!(grant.code, "the-code");
    assert_eq!(pkce_challenge(&grant.verifier), challenge);
    assert_eq!(grant.verifier.len(), 43);
    assert!(url_safe(&grant.verifier));
    assert!(matches!(
        accept_callback(&mut state, &callback_from(&callback)),
        Err(AuthError::NoPendingSignIn)
    ));
}

#[test]
fn sign_in_is_refused_while_recording() {
    let mut state = AuthState::new();
    set_current_session(
        &mut state,
        Some(AuthSession {
            user_id: "u".to_string(),
            clerk_org_id: "o".to_string(),
            expires_at: 10,
        }),
    );
    begin_recording_identity(&mut state).unwrap().commit();
    assert!(matches!(
        start_sign_in(&mut state, "https://clerk.example/authorize", "cid"),
        Err(AuthError::SwitchingBlocked)
    ));
}

#[test]
fn callback_checks_come_in_order() {
    let mut state = AuthState::new();
    let cb = |s: &str| callback_from(&url::Url::parse(s).unwrap());
    assert!(matches!(
        accept_callback(&mut state, &cb("meetingly://other/callback?code=x&state=y")),
        Err(AuthError::UnexpectedCallback)
    ));
    match accept_callback(&mut state, &cb("meetingly://oauth/callback?error=denied&code=x")) {
        Err(AuthError::SignInRejected(reason)) => assert_eq!(reason, "denied"),
        other => panic!("unexpected {other:?}"),
    }
    assert!(matches!(
        accept_callback(&mut state, &cb("meetingly://oauth/callback?state=y")),
        Err(AuthError::MissingCode)
    ));
    assert!(matches!(
        accept_callback(&mut state, &cb("meetingly://oauth/callback?code=x")),
        Err(AuthError::MissingState)
    ));
    assert!(matches!(
        accept_callback(&mut state, &cb("meetingly://oauth/callback?code=x&state=y")),
        Err(AuthError::NoPendingSignIn)
    ));
    start_sign_in(&mut state, "https://clerk.example/authorize", "cid").unwrap();
    assert!(matches!(
        accept_callback(&mut state, &cb("meetingly://oauth/callback?code=x&state=wrong")),
        Err(AuthError::StateMismatch)
    ));
    assert!(matches!(
        accept_callback(&mut state, &cb("meetingly://oauth/callback?code=x&state=wrong")),
        Err(AuthError::NoPendingSignIn)
    ));
}

#[test]
fn last_query_occurrence_wins() {
    let query = pairs(&[("state", "a"), ("code", "c"), ("state", "b")]);
    assert_eq!(query_value(&query, "state"), Some("b".to_string()));
    assert_eq!(query_value(&query, "missing"), None);
}

#[test]
fn jwt_payload_is_the_second_part() {
    assert_eq!(jwt_payload("a.b.c").unwrap(), "b");
    assert_eq!(jwt_payload("a.b").unwrap(), "b");
    assert_eq!(jwt_payload("a.").unwrap(), "");
    assert!(matches!(jwt_payload("abc"), Err(AuthError::NotJwt)));
    assert_eq!(
        decode_jwt_payload("h.eyJzdWIiOiJ1c2VyLWEifQ.s").unwrap(),
        b"{\"sub\":\"user-a\"}".to_vec()
    );
    let expected = base64::engine::general_purpose::URL_SAFE_NO_PAD
        .decode("!!!")
        .unwrap_err()
        .to_string();
    match decode_jwt_payload("h.!!!.s") {
        Err(error @ AuthError::TokenPayloadEncoding(_)) => assert_eq!(error.message(), expected),
        other => panic!("unexpected {other:?}"),
    }
}

fn claims(aud: Option<Audience>, exp: i64, iss: &str) -> AccessClaims {
    AccessClaims {
        sub: "user-a".to_string(),
        org_id: "org-a".to_string(),
        aud,
        exp,
        iss: iss.to_string(),
    }
}

#[test]
fn access_claims_are_checked() {
    assert!(check_access_claims(&claims(None, 100, "https://clerk.example/"), "https://clerk.example", "cid", 50).is_ok());
    assert!(matches!(
        check_access_claims(&claims(None, 100, "https://other.example"), "https://clerk.example", "cid", 50),
        Err(AuthError::IssuerOrAudienceInvalid)
    ));
    assert!(matches!(
        check_access_claims(
            &claims(Some(Audience::Text("x".to_string())), 100, "https://clerk.example"),
            "https://clerk.example",
            "cid",
            50
        ),
        Err(AuthError::IssuerOrAudienceInvalid)
    ));
    assert!(matches!(
        check_access_claims(&claims(None, 50, "https://clerk.example"), "https://clerk.example", "cid", 50),
        Err(AuthError::TokenExpired)
    ));
}

#[test]
fn verified_session_must_match_claims() {
    let verified = VerifiedSession {
        user_id: "user-a".to_string(),
        org_id: None,
        nested_org_id: Some("org-a".to_string()),
    };
    let session = confirm_session(claims(None, 7, "i"), &verified).unwrap();
    assert_eq!(session.user_id, "user-a");
    assert_eq!(session.clerk_org_id, "org-a");
    assert_eq!(session.expires_at, 7);
    let other = VerifiedSession {
        user_id: "user-a".to_string(),
        org_id: Some("org-b".to_string()),
        nested_org_id: Some("org-a".to_string()),
    };
    assert!(matches!(
        confirm_session(claims(None, 7, "i"), &other),
        Err(AuthError::ConnectionsRejected)
    ));
}

#[test]
fn tokens_follow_the_response() {
    let session = AuthSession {
        user_id: "u".to_string(),
        clerk_org_id: "o".to_string(),
        expires_at: 500,
    };
    let tokens = tokens_from_authorization(
        TokenResponse {
            access_token: "a".to_string(),
            refresh_token: Some("r".to_string()),
            expires_in: Some(60),
        },
        &session,
        1000,
    )
    .unwrap();
    assert_eq!(tokens.expires_at, 1060);
    assert_eq!(tokens.refresh_token, "r");
    assert!(matches!(
        tokens_from_authorization(
            TokenResponse { access_token: "a".to_string(), refresh_token: None, expires_in: None },
            &session,
            1000
        ),
        Err(AuthError::MissingRefreshToken)
    ));
    let refreshed = refreshed_tokens(
        StoredTokens { access_token: "old".to_string(), refresh_token: "keep".to_string(), expires_at: 1 },
        TokenResponse { access_token: "new".to_string(), refresh_token: None, expires_in: None },
        &session,
        1000,
    );
    assert_eq!(refreshed.access_token, "new");
    assert_eq!(refreshed.refresh_token, "keep");
    assert_eq!(refreshed.expires_at, 500);
    assert!(needs_refresh(&refreshed, 440));
    assert!(!needs_refresh(&refreshed, 439));
}
