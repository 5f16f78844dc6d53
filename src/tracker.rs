use vstd::prelude::*;

verus! {

/// oauth2's CSRF token, held opaque in a session. Nothing is assumed of it.
#[verifier::external_type_specification]
#[verifier::external_body]
pub struct ExCsrfToken(oauth2::CsrfToken);

/// oauth2's PKCE code verifier, held opaque in a session. Nothing is assumed of it.
#[verifier::external_type_specification]
#[verifier::external_body]
pub struct ExPkceCodeVerifier(oauth2::PkceCodeVerifier);

/// An authorization in progress with a tracking service.
pub struct Session {
    pub authorize_url: String,
    pub csrf_state: oauth2::CsrfToken,
    pub pkce_code_verifier: Option<oauth2::PkceCodeVerifier>,
}

/// The token a tracking service grants.
pub struct Token {
    pub token_type: Option<String>,
    pub expires_in: Option<i64>,
    pub access_token: String,
    pub refresh_token: Option<String>,
}

} // verus!
