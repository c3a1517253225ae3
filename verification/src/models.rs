//! Request, response and record types exchanged with the service's callers.

use vstd::prelude::*;

verus! {

/// Lifetime of every issued token, in seconds.
pub const TOKEN_TTL_SECONDS: usize = 3600;

/// Identity claims carried by a token.
#[derive(Debug)]
pub struct Claims {
    /// Subject: the username the token was issued for.
    pub sub: String,
    /// Role assigned to the subject.
    pub role: String,
    /// Expiry, in seconds since the epoch.
    pub exp: usize,
    /// Time of issue, in seconds since the epoch.
    pub iat: usize,
}

impl Claims {
    /// The claims expire exactly one token lifetime after they were issued.
    pub open spec fn wf(&self) -> bool {
        self.exp == self.iat + TOKEN_TTL_SECONDS
    }
}

/// Answer to a successful login.
#[derive(Debug)]
pub struct TokenResponse {
    pub access_token: String,
    pub token_type: String,
    pub expires_in: i64,
}

/// Credentials submitted with a login. The type has no `Debug` form, so that
/// the password cannot end up in a log by accident.
pub struct LoginRequest {
    pub username: String,
    pub password: String,
}

/// Data submitted with a registration. The type has no `Debug` form, so
/// that the password cannot end up in a log by accident.
pub struct RegisterRequest {
    pub username: String,
    pub email: String,
    pub password: String,
}

/// A user as the credential store holds it.
#[derive(Debug)]
pub struct User {
    pub id: i32,
    pub username: String,
    pub email: String,
    pub password_hash: String,
    pub role: String,
}

/// A user about to be stored: everything but the identifier, which the
/// credential store assigns.
#[derive(Debug)]
pub struct NewUser {
    pub username: String,
    pub email: String,
    pub password_hash: String,
    pub role: String,
}

/// Answer to a successful registration.
#[derive(Debug)]
pub struct RegisterResponse {
    pub message: String,
    pub user_id: i32,
    pub username: String,
}

/// Answer to a status request.
#[derive(Debug)]
pub struct StatusResponse {
    pub authenticated: bool,
    pub message: String,
}

/// The set of published keys.
#[derive(Debug)]
pub struct JwksResponse {
    pub keys: Vec<JwkKey>,
}

/// One published key. `key_use` is the member that the document calls `use`.
#[derive(Debug)]
pub struct JwkKey {
    pub kty: String,
    pub key_use: String,
    pub kid: String,
    pub alg: String,
    pub n: String,
    pub e: String,
}

/// The discovery document.
#[derive(Debug)]
pub struct OpenIdConfiguration {
    pub issuer: String,
    pub jwks_uri: String,
    pub authorization_endpoint: String,
    pub token_endpoint: String,
    pub userinfo_endpoint: String,
    pub response_types_supported: Vec<String>,
    pub subject_types_supported: Vec<String>,
    pub id_token_signing_alg_values_supported: Vec<String>,
}

} // verus!
