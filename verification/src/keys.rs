//! Loading of the RSA key material.
//!
//! A key file is read by the caller; this module turns what was read into a
//! key, or into the error that says what went wrong. Keys are plain values:
//! once loaded they never change and can be shared freely.

use crate::config::Config;
use crate::errors::AppError;
use crate::errors::ErrorView;
use rsa::pkcs1::DecodeRsaPrivateKey;
use rsa::pkcs1::DecodeRsaPublicKey;
use rsa::pkcs8::DecodePublicKey;
use rsa::traits::PublicKeyParts;
use vstd::prelude::*;
use vstd::string::StringExecFns;

verus! {

/// The private key that signs tokens: the DER bytes of an RSA private key.
/// The type has no `Debug` form, so that the key cannot end up in a log by
/// accident.
pub struct SigningKey {
    der: Vec<u8>,
}

impl View for SigningKey {
    type V = Seq<u8>;

    closed spec fn view(&self) -> Seq<u8> {
        self.der@
    }
}

/// The public key that verifies tokens: modulus and exponent as big-endian
/// unsigned integers.
#[derive(Debug)]
pub struct VerificationKey {
    modulus: Vec<u8>,
    exponent: Vec<u8>,
}

impl View for VerificationKey {
    type V = (Seq<u8>, Seq<u8>);

    closed spec fn view(&self) -> (Seq<u8>, Seq<u8>) {
        (self.modulus@, self.exponent@)
    }
}

/// The DER bytes that a PEM text holds as an RSA private key, or the parser's
/// complaint.
pub uninterp spec fn rsa_private_der(pem: Seq<char>) -> Result<Seq<u8>, Seq<char>>;

/// Modulus and exponent of the RSA public key that a PEM text holds in the
/// SubjectPublicKeyInfo encoding, or the parser's complaint.
pub uninterp spec fn spki_public_key(pem: Seq<char>) -> Result<(Seq<u8>, Seq<u8>), Seq<char>>;

/// Modulus and exponent of the RSA public key that a PEM text holds in the
/// PKCS#1 encoding, or the parser's complaint.
pub uninterp spec fn pkcs1_public_key(pem: Seq<char>) -> Result<(Seq<u8>, Seq<u8>), Seq<char>>;

/// `jsonwebtoken::EncodingKey::from_rsa_pem`, with the key handed out as the
/// DER bytes it holds. The result is the one named by [`rsa_private_der`]; an
/// error is handed on as its text.
#[verifier::external_body]
fn parse_private_pem(pem: &str) -> (r: Result<Vec<u8>, String>)
    ensures
        match r {
            Ok(der) => rsa_private_der(pem@) == Ok::<Seq<u8>, Seq<char>>(der@),
            Err(reason) => rsa_private_der(pem@) == Err::<Seq<u8>, Seq<char>>(reason@),
        },
{
    jsonwebtoken::EncodingKey::from_rsa_pem(pem.as_bytes()).map(
        |key| key.as_bytes().to_vec(),
    ).map_err(|e| e.to_string())
}

/// `rsa::RsaPublicKey::from_public_key_pem`, with the key handed out as the
/// big-endian bytes of its modulus and exponent. The result is the one named
/// by [`spki_public_key`]; an error is handed on as its text.
#[verifier::external_body]
fn parse_spki_pem(pem: &str) -> (r: Result<(Vec<u8>, Vec<u8>), String>)
    ensures
        match r {
            Ok(key) => spki_public_key(pem@) == Ok::<(Seq<u8>, Seq<u8>), Seq<char>>(
                (key.0@, key.1@),
            ),
            Err(reason) => spki_public_key(pem@) == Err::<(Seq<u8>, Seq<u8>), Seq<char>>(reason@),
        },
{
    rsa::RsaPublicKey::from_public_key_pem(pem).map(
        |key| (key.n().to_bytes_be(), key.e().to_bytes_be()),
    ).map_err(|e| e.to_string())
}

/// `rsa::RsaPublicKey::from_pkcs1_pem`, with the key handed out as the
/// big-endian bytes of its modulus and exponent. The result is the one named
/// by [`pkcs1_public_key`]; an error is handed on as its text.
#[verifier::external_body]
fn parse_pkcs1_pem(pem: &str) -> (r: Result<(Vec<u8>, Vec<u8>), String>)
    ensures
        match r {
            Ok(key) => pkcs1_public_key(pem@) == Ok::<(Seq<u8>, Seq<u8>), Seq<char>>(
                (key.0@, key.1@),
            ),
            Err(reason) => pkcs1_public_key(pem@) == Err::<(Seq<u8>, Seq<u8>), Seq<char>>(
                reason@,
            ),
        },
{
    rsa::RsaPublicKey::from_pkcs1_pem(pem).map(
        |key| (key.n().to_bytes_be(), key.e().to_bytes_be()),
    ).map_err(|e| e.to_string())
}

/// Modulus and exponent of the public half of the RSA private key that `der`
/// holds in the PKCS#1 encoding, or the parser's complaint.
pub uninterp spec fn public_half(der: Seq<u8>) -> Result<(Seq<u8>, Seq<u8>), Seq<char>>;

/// `rsa::RsaPrivateKey::from_pkcs1_der`, with the key's public half handed
/// out as the big-endian bytes of its modulus and exponent. The result is the
/// one named by [`public_half`]; an error is handed on as its text.
#[verifier::external_body]
fn parse_private_der(der: &[u8]) -> (r: Result<(Vec<u8>, Vec<u8>), String>)
    ensures
        match r {
            Ok(key) => public_half(der@) == Ok::<(Seq<u8>, Seq<u8>), Seq<char>>((key.0@, key.1@)),
            Err(reason) => public_half(der@) == Err::<(Seq<u8>, Seq<u8>), Seq<char>>(reason@),
        },
{
    rsa::RsaPrivateKey::from_pkcs1_der(der).map(
        |key| (key.n().to_bytes_be(), key.e().to_bytes_be()),
    ).map_err(|e| e.to_string())
}

/// The error for a key file that could not be read.
pub open spec fn unreadable(which: Seq<char>, path: Seq<char>, reason: Seq<char>) -> ErrorView {
    ErrorView::KeyLoading("Failed to read "@ + which + " key from "@ + path + ": "@ + reason)
}

/// The error for a key file whose contents are not a key.
pub open spec fn unparsable(which: Seq<char>, reason: Seq<char>) -> ErrorView {
    ErrorView::KeyLoading("Failed to parse RSA "@ + which + " key: "@ + reason)
}

/// What loading the private key owes, given what reading the file at `path`
/// gave: the key that the text holds, or the error that names the step that
/// failed.
pub open spec fn private_key_loaded(
    path: Seq<char>,
    contents: Result<String, String>,
    result: Result<SigningKey, AppError>,
) -> bool {
    match contents {
        Err(reason) => result matches Err(e) && e@ == unreadable("private"@, path, reason@),
        Ok(pem) => match rsa_private_der(pem@) {
            Ok(der) => result matches Ok(key) && key@ == der,
            Err(reason) => result matches Err(e) && e@ == unparsable("private"@, reason),
        },
    }
}

/// What loading the public key owes, given what reading the file at `path`
/// gave: the key that the text holds in the SubjectPublicKeyInfo encoding;
/// failing that, the key it holds in the PKCS#1 encoding; failing that too,
/// the error with the second parser's complaint.
pub open spec fn public_key_loaded(
    path: Seq<char>,
    contents: Result<String, String>,
    result: Result<VerificationKey, AppError>,
) -> bool {
    match contents {
        Err(reason) => result matches Err(e) && e@ == unreadable("public"@, path, reason@),
        Ok(pem) => match spki_public_key(pem@) {
            Ok(key) => result matches Ok(k) && k@ == key,
            Err(_) => match pkcs1_public_key(pem@) {
                Ok(key) => result matches Ok(k) && k@ == key,
                Err(reason) => result matches Err(e) && e@ == unparsable("public"@, reason),
            },
        },
    }
}

/// Builds the error for a key file that could not be read.
fn read_failure(which: &str, path: &str, reason: &str) -> (e: AppError)
    ensures
        e@ == unreadable(which@, path@, reason@),
{
    let text = String::from_str("Failed to read ").concat(which).concat(" key from ").concat(
        path,
    ).concat(": ").concat(reason);
    AppError::KeyLoading(text)
}

/// Builds the error for a key file whose contents are not a key.
fn parse_failure(which: &str, reason: &str) -> (e: AppError)
    ensures
        e@ == unparsable(which@, reason@),
{
    let text = String::from_str("Failed to parse RSA ").concat(which).concat(" key: ").concat(
        reason,
    );
    AppError::KeyLoading(text)
}

/// Loads the signing key. `contents` is what reading the file at
/// `config.rsa_private_key_path` gave: its text, or why it could not be read.
pub fn load_private_key(config: &Config, contents: Result<String, String>) -> (r: Result<
    SigningKey,
    AppError,
>)
    ensures
        private_key_loaded(config.rsa_private_key_path@, contents, r),
{
    match contents {
        Err(reason) => Err(
            read_failure("private", config.rsa_private_key_path.as_str(), reason.as_str()),
        ),
        Ok(pem) => match parse_private_pem(pem.as_str()) {
            Ok(der) => Ok(SigningKey { der }),
            Err(reason) => Err(parse_failure("private", reason.as_str())),
        },
    }
}

/// Loads the verification key for publication. `contents` is what reading the
/// file at `config.rsa_public_key_path` gave: its text, or why it could not be
/// read. The SubjectPublicKeyInfo encoding is tried first, PKCS#1 second.
pub fn load_public_key_for_jwks(config: &Config, contents: Result<String, String>) -> (r: Result<
    VerificationKey,
    AppError,
>)
    ensures
        public_key_loaded(config.rsa_public_key_path@, contents, r),
{
    match contents {
        Err(reason) => Err(
            read_failure("public", config.rsa_public_key_path.as_str(), reason.as_str()),
        ),
        Ok(pem) => match parse_spki_pem(pem.as_str()) {
            Ok(key) => Ok(VerificationKey { modulus: key.0, exponent: key.1 }),
            Err(_) => match parse_pkcs1_pem(pem.as_str()) {
                Ok(key) => Ok(VerificationKey { modulus: key.0, exponent: key.1 }),
                Err(reason) => Err(parse_failure("public", reason.as_str())),
            },
        },
    }
}

/// Whether two byte strings are the same.
fn same_bytes(a: &[u8], b: &[u8]) -> (same: bool)
    ensures
        same == (a@ == b@),
{
    if a.len() != b.len() {
        return false;
    }
    let mut i: usize = 0;
    while i < a.len()
        invariant
            a@.len() == b@.len(),
            i <= a@.len(),
            a@.take(i as int) == b@.take(i as int),
        decreases a.len() - i,
    {
        if a[i] != b[i] {
            return false;
        }
        assert(a@.take(i + 1) =~= a@.take(i as int).push(a@[i as int]));
        assert(b@.take(i + 1) =~= b@.take(i as int).push(b@[i as int]));
        i = i + 1;
    }
    assert(a@.take(i as int) =~= a@ && b@.take(i as int) =~= b@);
    true
}

/// What the check of a key pair owes: whether the verification key is the
/// public half of the signing key, or the error for a signing key whose
/// public half cannot be read.
pub open spec fn pair_checked(
    signing: Seq<u8>,
    verification: (Seq<u8>, Seq<u8>),
    result: Result<bool, AppError>,
) -> bool {
    match public_half(signing) {
        Ok(half) => result matches Ok(same) && same == (half == verification),
        Err(reason) => result matches Err(e) && e@ == unparsable("private"@, reason),
    }
}

/// Checks that a published key belongs to the key that signs: that
/// `verification` is the public half of `signing`. A service that publishes
/// a key other than the one it signs with issues tokens that nobody can
/// verify; this check, run once after loading, catches that before any
/// request is served.
pub fn corresponds(signing: &SigningKey, verification: &VerificationKey) -> (r: Result<
    bool,
    AppError,
>)
    ensures
        pair_checked(signing@, verification@, r),
{
    match parse_private_der(signing.der.as_slice()) {
        Ok(half) => Ok(
            same_bytes(half.0.as_slice(), verification.modulus.as_slice()) && same_bytes(
                half.1.as_slice(),
                verification.exponent.as_slice(),
            ),
        ),
        Err(reason) => Err(parse_failure("private", reason.as_str())),
    }
}

impl SigningKey {
    /// The DER bytes of the key.
    pub fn as_der(&self) -> (der: &Vec<u8>)
        ensures
            der@ == self@,
    {
        &self.der
    }
}

impl VerificationKey {
    /// The modulus, as a big-endian unsigned integer.
    pub fn modulus(&self) -> (n: &Vec<u8>)
        ensures
            n@ == self@.0,
    {
        &self.modulus
    }

    /// The public exponent, as a big-endian unsigned integer.
    pub fn exponent(&self) -> (e: &Vec<u8>)
        ensures
            e@ == self@.1,
    {
        &self.exponent
    }
}

} // verus!
