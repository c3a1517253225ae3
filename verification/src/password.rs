//! Password hashing and checking with bcrypt.

use crate::errors::AppError;
use crate::errors::ErrorView;
use vstd::prelude::*;

verus! {

/// Work factor used for every new hash.
pub const HASH_COST: u32 = 12;

/// What bcrypt's check of `password` against `hash` gives: whether the two
/// match, or the algorithm's complaint about a hash it cannot read.
pub uninterp spec fn bcrypt_verdict(password: Seq<char>, hash: Seq<char>) -> Result<
    bool,
    Seq<char>,
>;

/// How every hash string made at `cost` begins: the marker of version 2a and
/// the cost in two decimal digits, each followed by a dollar sign.
pub open spec fn hash_prefix(cost: u32) -> Seq<char> {
    seq!['$', '2', 'a', '$', (48 + cost / 10) as char, (48 + cost % 10) as char, '$']
}

/// Whether `hash` has the shape of a version 2a hash string made at `cost`:
/// sixty characters, of which the first seven are [`hash_prefix`].
pub open spec fn is_hash_at(hash: Seq<char>, cost: u32) -> bool {
    hash.len() == 60 && hash.take(7) == hash_prefix(cost)
}

/// `bcrypt::verify`. The result is the verdict named by [`bcrypt_verdict`]; an
/// error is handed on as its text. Nothing is claimed about which hashes are
/// readable or which passwords match.
#[verifier::external_body]
fn bcrypt_verify(password: &str, hash: &str) -> (r: Result<bool, String>)
    ensures
        match r {
            Ok(matches) => bcrypt_verdict(password@, hash@) == Ok::<bool, Seq<char>>(matches),
            Err(reason) => bcrypt_verdict(password@, hash@) == Err::<bool, Seq<char>>(reason@),
        },
{
    bcrypt::verify(password, hash).map_err(|e| e.to_string())
}

/// `bcrypt::hash_with_result`, formatted as a version 2a hash string. The
/// salt is random, so the hash is not determined by the arguments. What holds
/// of every hash that comes back: the cost was one that bcrypt allows, the
/// string has the fixed shape of such a hash, and `bcrypt::verify` accepts the
/// same password against it, since it recomputes the hash from the salt and
/// cost that the string carries. Failure (no randomness, cost out of range)
/// is handed on as its text.
#[verifier::external_body]
fn bcrypt_hash(password: &str, cost: u32) -> (r: Result<String, String>)
    ensures
        match r {
            Ok(hash) => {
                &&& 4 <= cost <= 31
                &&& is_hash_at(hash@, cost)
                &&& bcrypt_verdict(password@, hash@) == Ok::<bool, Seq<char>>(true)
            },
            Err(_) => true,
        },
{
    bcrypt::hash_with_result(password, cost).map(
        |parts| parts.format_for_version(bcrypt::Version::TwoA),
    ).map_err(|e| e.to_string())
}

/// Whether `result` is what the password check owes for `password` against
/// `hash`: the verdict where bcrypt reaches one, its complaint as a
/// [`AppError::Bcrypt`] where it does not.
pub open spec fn is_verification_of(
    password: Seq<char>,
    hash: Seq<char>,
    result: Result<bool, AppError>,
) -> bool {
    match bcrypt_verdict(password, hash) {
        Ok(matches) => result matches Ok(answer) && answer == matches,
        Err(reason) => result matches Err(e) && e@ == ErrorView::Bcrypt(reason),
    }
}

/// Whether `hash` is a hash of `password` as this service makes them: a
/// version 2a hash string at [`HASH_COST`] that the password check accepts
/// for that password.
pub open spec fn is_hash_of(password: Seq<char>, hash: Seq<char>) -> bool {
    is_hash_at(hash, HASH_COST) && bcrypt_verdict(password, hash) == Ok::<bool, Seq<char>>(true)
}

/// Whether `result` is an acceptable outcome of hashing `password`: a hash
/// of it, or a [`AppError::Bcrypt`].
pub open spec fn is_hashing_of(password: Seq<char>, result: Result<String, AppError>) -> bool {
    match result {
        Ok(hash) => is_hash_of(password, hash@),
        Err(e) => e@ is Bcrypt,
    }
}

/// Every hash that this service makes begins with `$2a$12$`.
pub proof fn lemma_hash_prefix()
    ensures
        hash_prefix(HASH_COST) == "$2a$12$"@,
{
    reveal_strlit("$2a$12$");
    assert(hash_prefix(HASH_COST) =~= "$2a$12$"@);
}

/// Maps what the hashing algorithm handed back to the service's result: the
/// hash as it is, a failure as [`AppError::Bcrypt`] with the same text.
pub fn hashing_result(outcome: Result<String, String>) -> (r: Result<String, AppError>)
    ensures
        match outcome {
            Ok(hash) => r matches Ok(h) && h@ == hash@,
            Err(reason) => r matches Err(e) && e@ == ErrorView::Bcrypt(reason@),
        },
{
    match outcome {
        Ok(hash) => Ok(hash),
        Err(reason) => Err(AppError::Bcrypt(reason)),
    }
}

/// Hashes `password` with a fresh random salt at [`HASH_COST`].
///
/// The work is deliberately expensive; callers that serve other requests
/// meanwhile run it on a worker.
pub fn hash_password(password: &str) -> (r: Result<String, AppError>)
    ensures
        is_hashing_of(password@, r),
{
    hashing_result(bcrypt_hash(password, HASH_COST))
}

/// Checks `password` against a stored `hash`.
///
/// The work is as expensive as the hashing was; callers that serve other
/// requests meanwhile run it on a worker.
pub fn verify_password(password: &str, hash: &str) -> (r: Result<bool, AppError>)
    ensures
        is_verification_of(password@, hash@, r),
{
    match bcrypt_verify(password, hash) {
        Ok(matches) => Ok(matches),
        Err(reason) => Err(AppError::Bcrypt(reason)),
    }
}

} // verus!
