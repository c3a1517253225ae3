//! Login: check the submitted credentials, then issue a token.

use crate::config::Config;
use crate::errors::AppError;
use crate::errors::ErrorView;
use crate::keys::SigningKey;
use crate::models::LoginRequest;
use crate::models::TokenResponse;
use crate::models::User;
use crate::models::TOKEN_TTL_SECONDS;
use crate::password::bcrypt_verdict;
use crate::password::verify_password;
use crate::token::issue;
use crate::token::issue_outcome;
use vstd::prelude::*;
use vstd::string::StringExecFns;

verus! {

/// Where a login ends up once the store has answered and the password has
/// been checked.
pub enum LoginState {
    /// The store holds no user of that name.
    UserNotFound,
    /// The user exists and the password does not match the stored hash.
    PasswordMismatch,
    /// The user exists and the password matches.
    PasswordMatch,
    /// The stored hash could not be checked; the text says why.
    CheckFailed(Seq<char>),
}

/// The state that a login reaches for what the store returned and the
/// password that was submitted.
pub open spec fn login_state(user: Option<User>, password: Seq<char>) -> LoginState {
    match user {
        None => LoginState::UserNotFound,
        Some(found) => match bcrypt_verdict(password, found.password_hash@) {
            Ok(true) => LoginState::PasswordMatch,
            Ok(false) => LoginState::PasswordMismatch,
            Err(reason) => LoginState::CheckFailed(reason),
        },
    }
}

/// Whether `result` is what the credential check owes: the user on a match,
/// the same refusal for an unknown user and for a wrong password, and the
/// algorithm's complaint where the stored hash could not be checked.
pub open spec fn is_authentication_of(
    user: Option<User>,
    password: Seq<char>,
    result: Result<User, AppError>,
) -> bool {
    match login_state(user, password) {
        LoginState::UserNotFound => result matches Err(e) && e@ == ErrorView::Unauthorized,
        LoginState::PasswordMismatch => result matches Err(e) && e@ == ErrorView::Unauthorized,
        LoginState::PasswordMatch => result matches Ok(found) && Some(found) == user,
        LoginState::CheckFailed(reason) => result matches Err(e) && e@ == ErrorView::Bcrypt(
            reason,
        ),
    }
}

/// Whether `response` answers a login that issued `token`.
pub open spec fn carries(response: TokenResponse, token: Seq<char>) -> bool {
    &&& response.access_token@ == token
    &&& response.token_type@ == "Bearer"@
    &&& response.expires_in == TOKEN_TTL_SECONDS
}

/// What a login comes to for these inputs: a refusal where the credential
/// check refuses, otherwise the token for the user's name and role, issued at
/// `now` under `key_id`, or the error that says why it could not be issued.
pub open spec fn login_outcome(
    user: Option<User>,
    password: Seq<char>,
    key_id: Seq<char>,
    der: Seq<u8>,
    now: int,
) -> Result<Seq<char>, ErrorView> {
    match login_state(user, password) {
        LoginState::UserNotFound => Err(ErrorView::Unauthorized),
        LoginState::PasswordMismatch => Err(ErrorView::Unauthorized),
        LoginState::CheckFailed(reason) => Err(ErrorView::Bcrypt(reason)),
        LoginState::PasswordMatch => issue_outcome(
            user->Some_0.username@,
            user->Some_0.role@,
            key_id,
            der,
            now,
        ),
    }
}

/// An unknown user and a wrong password are refused alike: both logins come
/// to the same error, which is answered with status 401 and one fixed message,
/// so nothing in the answer tells the two apart.
pub proof fn lemma_refusals_alike(
    any_password: Seq<char>,
    user: User,
    wrong_password: Seq<char>,
    key_id: Seq<char>,
    der: Seq<u8>,
    now: int,
)
    requires
        bcrypt_verdict(wrong_password, user.password_hash@) == Ok::<bool, Seq<char>>(false),
    ensures
        login_outcome(None, any_password, key_id, der, now) == Err::<Seq<char>, ErrorView>(
            ErrorView::Unauthorized,
        ),
        login_outcome(Some(user), wrong_password, key_id, der, now) == Err::<
            Seq<char>,
            ErrorView,
        >(ErrorView::Unauthorized),
        ErrorView::Unauthorized.status() == 401,
        ErrorView::Unauthorized.public_message() == "Invalid credentials"@,
{
}

/// Checks the submitted password against the user that the store returned
/// for the submitted name. An unknown user and a wrong password are refused
/// alike.
pub fn authenticate(user: Option<User>, password: &str) -> (r: Result<User, AppError>)
    ensures
        is_authentication_of(user, password@, r),
{
    match user {
        None => Err(AppError::Unauthorized),
        Some(found) => match verify_password(password, found.password_hash.as_str()) {
            Ok(true) => Ok(found),
            Ok(false) => Err(AppError::Unauthorized),
            Err(e) => Err(e),
        },
    }
}

/// Serves a login. `user` is what the credential store returned for
/// `payload.username`, `now` the current time in seconds since the epoch.
pub fn login(
    user: Option<User>,
    payload: &LoginRequest,
    config: &Config,
    signing_key: &SigningKey,
    now: i64,
) -> (r: Result<TokenResponse, AppError>)
    ensures
        match login_outcome(
            user,
            payload.password@,
            config.product_key_id@,
            signing_key@,
            now as int,
        ) {
            Ok(token) => r matches Ok(response) && carries(response, token),
            Err(error) => r matches Err(e) && e@ == error,
        },
{
    let found = authenticate(user, payload.password.as_str())?;
    let issued = issue(
        found.username.as_str(),
        found.role.as_str(),
        config.product_key_id.as_str(),
        signing_key,
        now,
    )?;
    Ok(
        TokenResponse {
            access_token: issued.0,
            token_type: String::from_str("Bearer"),
            expires_in: TOKEN_TTL_SECONDS as i64,
        },
    )
}

} // verus!
