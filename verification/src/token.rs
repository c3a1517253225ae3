//! Construction and signing of identity tokens.

use crate::errors::AppError;
use crate::errors::ErrorView;
use crate::keys::SigningKey;
use crate::models::Claims;
use crate::models::TOKEN_TTL_SECONDS;
use jsonwebtoken::Algorithm;
use jsonwebtoken::EncodingKey;
use jsonwebtoken::Header;
use serde_json::Value;
use vstd::prelude::*;
use vstd::string::StringExecFns;

verus! {

/// The compact RS256 token for the given claims, whose header names the key
/// `kid`, signed with the RSA private key that `der` holds; or the signer's
/// complaint.
pub uninterp spec fn rs256_token(
    der: Seq<u8>,
    kid: Seq<char>,
    sub: Seq<char>,
    role: Seq<char>,
    exp: nat,
    iat: nat,
) -> Result<Seq<char>, Seq<char>>;

/// `jsonwebtoken::encode`, for a header with algorithm RS256 and the key
/// identifier `kid`, the four claims as a JSON object in the order `sub`,
/// `role`, `exp`, `iat`, and the RSA key held in `der`. The signer is the one
/// that `jsonwebtoken` is built with here; this crate installs no other. Its
/// signature scheme is deterministic, so the token is a function of the
/// arguments; it is the one named by [`rs256_token`]. An error is handed on as
/// its text.
#[verifier::external_body]
fn encode_rs256(der: &[u8], kid: &str, claims: &Claims) -> (r: Result<String, String>)
    ensures
        match r {
            Ok(token) => rs256_token(
                der@,
                kid@,
                claims.sub@,
                claims.role@,
                claims.exp as nat,
                claims.iat as nat,
            ) == Ok::<Seq<char>, Seq<char>>(token@),
            Err(reason) => rs256_token(
                der@,
                kid@,
                claims.sub@,
                claims.role@,
                claims.exp as nat,
                claims.iat as nat,
            ) == Err::<Seq<char>, Seq<char>>(reason@),
        },
{
    let mut header = Header::new(Algorithm::RS256);
    header.kid = Some(kid.to_string());
    let mut body = serde_json::Map::new();
    body.insert("sub".to_string(), Value::from(claims.sub.as_str()));
    body.insert("role".to_string(), Value::from(claims.role.as_str()));
    body.insert("exp".to_string(), Value::from(claims.exp));
    body.insert("iat".to_string(), Value::from(claims.iat));
    jsonwebtoken::encode(&header, &body, &EncodingKey::from_rsa_der(der)).map_err(
        |e| e.to_string(),
    )
}

/// Whether a token can be issued at `now`: the clock is not before the epoch,
/// and issue time and expiry fit the claims' integer type.
pub open spec fn issuable(now: int) -> bool {
    0 <= now && now + TOKEN_TTL_SECONDS <= usize::MAX
}

/// The error for an issue time that the claims cannot hold.
pub open spec fn out_of_range() -> ErrorView {
    ErrorView::Jwt("issue time out of range"@)
}

/// What issuing a token comes to for these inputs: the signed token for
/// `subject` and `role`, issued at `now` and expiring one lifetime later; or
/// the error that says why there is none.
pub open spec fn issue_outcome(
    subject: Seq<char>,
    role: Seq<char>,
    key_id: Seq<char>,
    der: Seq<u8>,
    now: int,
) -> Result<Seq<char>, ErrorView> {
    if !issuable(now) {
        Err(out_of_range())
    } else {
        match rs256_token(
            der,
            key_id,
            subject,
            role,
            (now + TOKEN_TTL_SECONDS) as nat,
            now as nat,
        ) {
            Ok(token) => Ok(token),
            Err(reason) => Err(ErrorView::Jwt(reason)),
        }
    }
}

/// Every issued token expires exactly one lifetime after its issue: the
/// token that an issue at `now` comes to is the one signed over the issue time
/// `now` and an expiry that lies [`TOKEN_TTL_SECONDS`] later.
pub proof fn lemma_issued_lifetime(
    subject: Seq<char>,
    role: Seq<char>,
    key_id: Seq<char>,
    der: Seq<u8>,
    now: int,
    token: Seq<char>,
)
    requires
        issue_outcome(subject, role, key_id, der, now) == Ok::<Seq<char>, ErrorView>(token),
    ensures
        exists|exp: nat, iat: nat|
            {
                &&& #[trigger] rs256_token(der, key_id, subject, role, exp, iat) == Ok::<
                    Seq<char>,
                    Seq<char>,
                >(token)
                &&& iat == now
                &&& exp - iat == TOKEN_TTL_SECONDS
            },
{
    let exp = (now + TOKEN_TTL_SECONDS) as nat;
    let iat = now as nat;
    assert(rs256_token(der, key_id, subject, role, exp, iat) == Ok::<Seq<char>, Seq<char>>(token));
}

/// Builds the claims for `subject` and `role`, issued at `issued_at`.
pub fn claims_at(subject: &str, role: &str, issued_at: usize) -> (claims: Claims)
    requires
        issued_at + TOKEN_TTL_SECONDS <= usize::MAX,
    ensures
        claims.sub@ == subject@,
        claims.role@ == role@,
        claims.iat == issued_at,
        claims.wf(),
{
    Claims {
        sub: String::from_str(subject),
        role: String::from_str(role),
        exp: issued_at + TOKEN_TTL_SECONDS,
        iat: issued_at,
    }
}

/// Issues a token for `subject` with `role` at the time `now` (seconds since
/// the epoch), signed with `signing_key` and naming `key_id` in its header.
/// Returns the token and its expiry.
pub fn issue(subject: &str, role: &str, key_id: &str, signing_key: &SigningKey, now: i64) -> (r:
    Result<(String, usize), AppError>)
    ensures
        match issue_outcome(subject@, role@, key_id@, signing_key@, now as int) {
            Ok(token) => r matches Ok(issued) && issued.0@ == token && issued.1 == now
                + TOKEN_TTL_SECONDS,
            Err(error) => r matches Err(e) && e@ == error,
        },
{
    if now < 0 || now as u64 > usize::MAX as u64 - TOKEN_TTL_SECONDS as u64 {
        return Err(AppError::Jwt(String::from_str("issue time out of range")));
    }
    let claims = claims_at(subject, role, now as usize);
    match encode_rs256(signing_key.as_der().as_slice(), key_id, &claims) {
        Ok(token) => Ok((token, claims.exp)),
        Err(reason) => Err(AppError::Jwt(reason)),
    }
}

} // verus!
