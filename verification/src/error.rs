use vstd::prelude::*;

verus! {

/// Everything the authentication logic can refuse.
#[derive(Debug)]
pub enum AuthError {
    /// No organization can be attributed to the operation.
    OrganizationRequired,
    /// No user can be attributed to the operation.
    UserRequired,
    /// Starting a recording needs a verified session.
    SessionRequiredToRecord,
    /// A recording already holds the organization lock.
    RecordingAlreadyLocked,
    /// The organization may not change while a recording is retained.
    SwitchingBlocked,
    /// The retained recording was started by another user or organization.
    RecordingScopeMismatch,
    /// The named setting has no value.
    NotConfigured(String),
    /// The sign-in callback is not the registered redirect address.
    UnexpectedCallback,
    /// Clerk refused the sign-in, with the given reason.
    SignInRejected(String),
    /// The callback carries no authorization code.
    MissingCode,
    /// The callback carries no state.
    MissingState,
    /// No sign-in waits for a callback.
    NoPendingSignIn,
    /// The callback's state is not the pending sign-in's.
    StateMismatch,
    /// The authorization endpoint is not a URL; the text is the parser's.
    InvalidAuthorizationEndpoint(String),
    /// The access token has no payload part.
    NotJwt,
    /// The access token's payload is not unpadded URL-safe base64; the text is the decoder's.
    TokenPayloadEncoding(String),
    /// The access token was issued by another issuer, or for another client.
    IssuerOrAudienceInvalid,
    /// The access token has expired.
    TokenExpired,
    /// Connections verified another user or organization than the token names.
    ConnectionsRejected,
    /// The token endpoint returned no refresh token.
    MissingRefreshToken,
}

/// The text shown to the user for each refusal.
pub open spec fn auth_error_text(e: AuthError) -> Seq<char> {
    match e {
        AuthError::OrganizationRequired => "A Clerk organization is required."@,
        AuthError::UserRequired => "A Clerk user is required."@,
        AuthError::SessionRequiredToRecord => "A verified Clerk session is required to record."@,
        AuthError::RecordingAlreadyLocked => "A recording organization is already locked."@,
        AuthError::SwitchingBlocked =>
            "Stop and finish saving the active recording before switching organizations or signing out."@,
        AuthError::RecordingScopeMismatch =>
            "The retained recording belongs to a different Clerk user or organization."@,
        AuthError::NotConfigured(name) => name@ + " is not configured."@,
        AuthError::UnexpectedCallback => "Unexpected OAuth callback URL."@,
        AuthError::SignInRejected(reason) => "Clerk rejected sign-in: "@ + reason@,
        AuthError::MissingCode => "OAuth callback did not include a code."@,
        AuthError::MissingState => "OAuth callback did not include state."@,
        AuthError::NoPendingSignIn => "No sign-in is pending."@,
        AuthError::StateMismatch => "OAuth state did not match."@,
        AuthError::InvalidAuthorizationEndpoint(reason) => reason@,
        AuthError::NotJwt => "Clerk access token is not a JWT."@,
        AuthError::TokenPayloadEncoding(reason) => reason@,
        AuthError::IssuerOrAudienceInvalid => "Clerk access token issuer or audience is invalid."@,
        AuthError::TokenExpired => "Clerk access token has expired."@,
        AuthError::ConnectionsRejected => "Connections rejected the Clerk user or organization."@,
        AuthError::MissingRefreshToken => "Clerk did not return a refresh token."@,
    }
}

impl AuthError {
    /// The message of this error, as the user sees it.
    pub fn message(&self) -> (text: String)
        ensures
            text@ == auth_error_text(*self),
    {
        match self {
            AuthError::OrganizationRequired => String::from_str("A Clerk organization is required."),
            AuthError::UserRequired => String::from_str("A Clerk user is required."),
            AuthError::SessionRequiredToRecord => String::from_str(
                "A verified Clerk session is required to record.",
            ),
            AuthError::RecordingAlreadyLocked => String::from_str(
                "A recording organization is already locked.",
            ),
            AuthError::SwitchingBlocked => String::from_str(
                "Stop and finish saving the active recording before switching organizations or signing out.",
            ),
            AuthError::RecordingScopeMismatch => String::from_str(
                "The retained recording belongs to a different Clerk user or organization.",
            ),
            AuthError::NotConfigured(name) => {
                let mut text = name.clone();
                text.append(" is not configured.");
                text
            },
            AuthError::UnexpectedCallback => String::from_str("Unexpected OAuth callback URL."),
            AuthError::SignInRejected(reason) => {
                let mut text = String::from_str("Clerk rejected sign-in: ");
                text.append(reason.as_str());
                text
            },
            AuthError::MissingCode => String::from_str("OAuth callback did not include a code."),
            AuthError::MissingState => String::from_str("OAuth callback did not include state."),
            AuthError::NoPendingSignIn => String::from_str("No sign-in is pending."),
            AuthError::StateMismatch => String::from_str("OAuth state did not match."),
            AuthError::InvalidAuthorizationEndpoint(reason) => reason.clone(),
            AuthError::NotJwt => String::from_str("Clerk access token is not a JWT."),
            AuthError::TokenPayloadEncoding(reason) => reason.clone(),
            AuthError::IssuerOrAudienceInvalid => String::from_str(
                "Clerk access token issuer or audience is invalid.",
            ),
            AuthError::TokenExpired => String::from_str("Clerk access token has expired."),
            AuthError::ConnectionsRejected => String::from_str(
                "Connections rejected the Clerk user or organization.",
            ),
            AuthError::MissingRefreshToken => String::from_str("Clerk did not return a refresh token."),
        }
    }
}

} // verus!
