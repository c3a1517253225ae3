//! Publication of the verification key and of the discovery document.

use crate::base64url::encode;
use crate::base64url::decoded;
use crate::base64url::encoded;
use crate::base64url::lemma_encoded_digits;
use crate::base64url::lemma_round_trip;
use crate::config::Config;
use crate::keys::public_half;
use crate::keys::VerificationKey;
use crate::models::JwkKey;
use crate::models::JwksResponse;
use crate::models::OpenIdConfiguration;
use vstd::prelude::*;
use vstd::string::StringExecFns;

verus! {

/// Whether `jwk` publishes the RSA key with the given modulus and exponent
/// under the identifier `kid`, for verifying RS256 signatures.
pub open spec fn is_jwk_of(jwk: JwkKey, kid: Seq<char>, key: (Seq<u8>, Seq<u8>)) -> bool {
    &&& jwk.kty@ == "RSA"@
    &&& jwk.key_use@ == "sig"@
    &&& jwk.kid@ == kid
    &&& jwk.alg@ == "RS256"@
    &&& jwk.n@ == encoded(key.0)
    &&& jwk.e@ == encoded(key.1)
}

/// Whether `document` is the discovery document of the issuer at `base`.
pub open spec fn is_discovery_of(document: OpenIdConfiguration, base: Seq<char>) -> bool {
    &&& document.issuer@ == base
    &&& document.jwks_uri@ == base + "/.well-known/jwks.json"@
    &&& document.authorization_endpoint@ == base + "/api/auth/login"@
    &&& document.token_endpoint@ == base + "/api/auth/login"@
    &&& document.userinfo_endpoint@ == base + "/api/auth/status"@
    &&& document.response_types_supported@.len() == 2
    &&& document.response_types_supported@[0]@ == "code"@
    &&& document.response_types_supported@[1]@ == "token"@
    &&& document.subject_types_supported@.len() == 1
    &&& document.subject_types_supported@[0]@ == "public"@
    &&& document.id_token_signing_alg_values_supported@.len() == 1
    &&& document.id_token_signing_alg_values_supported@[0]@ == "RS256"@
}

/// What a key set entry publishes can be read back: decoding its `n` and `e`
/// gives the modulus and the exponent of the key it was made from, and neither
/// text holds a padding character.
pub proof fn lemma_published_key_reads_back(jwk: JwkKey, kid: Seq<char>, key: (Seq<u8>, Seq<u8>))
    requires
        is_jwk_of(jwk, kid, key),
    ensures
        decoded(jwk.n@) == Some(key.0),
        decoded(jwk.e@) == Some(key.1),
        !jwk.n@.contains('='),
        !jwk.e@.contains('='),
{
    lemma_round_trip(key.0);
    lemma_round_trip(key.1);
    lemma_encoded_digits(key.0);
    lemma_encoded_digits(key.1);
}

/// Where the published key is the public half of the key that signs, a
/// relying party that decodes `n` and `e` of the key set entry holds exactly
/// the modulus and exponent that belong to the signing key.
pub proof fn lemma_published_key_is_the_signers(
    signing: Seq<u8>,
    jwk: JwkKey,
    kid: Seq<char>,
    key: (Seq<u8>, Seq<u8>),
)
    requires
        public_half(signing) == Ok::<(Seq<u8>, Seq<u8>), Seq<char>>(key),
        is_jwk_of(jwk, kid, key),
    ensures
        public_half(signing) matches Ok(half) && decoded(jwk.n@) == Some(half.0) && decoded(jwk.e@)
            == Some(half.1),
{
    lemma_published_key_reads_back(jwk, kid, key);
}

/// The key set that publishes `key` under the configured key identifier. It
/// has exactly one entry.
pub fn jwks(config: &Config, key: &VerificationKey) -> (response: JwksResponse)
    ensures
        response.keys@.len() == 1,
        is_jwk_of(response.keys@[0], config.product_key_id@, key@),
{
    let entry = JwkKey {
        kty: String::from_str("RSA"),
        key_use: String::from_str("sig"),
        kid: config.product_key_id.clone(),
        alg: String::from_str("RS256"),
        n: encode(key.modulus().as_slice()),
        e: encode(key.exponent().as_slice()),
    };
    let mut keys: Vec<JwkKey> = Vec::new();
    keys.push(entry);
    JwksResponse { keys }
}

/// The discovery document, with every address derived from the configured
/// base address.
pub fn openid_configuration(config: &Config) -> (document: OpenIdConfiguration)
    ensures
        is_discovery_of(document, config.base_url@),
{
    let base = config.base_url.as_str();
    let mut response_types: Vec<String> = Vec::new();
    response_types.push(String::from_str("code"));
    response_types.push(String::from_str("token"));
    let mut subject_types: Vec<String> = Vec::new();
    subject_types.push(String::from_str("public"));
    let mut algorithms: Vec<String> = Vec::new();
    algorithms.push(String::from_str("RS256"));
    OpenIdConfiguration {
        issuer: String::from_str(base),
        jwks_uri: String::from_str(base).concat("/.well-known/jwks.json"),
        authorization_endpoint: String::from_str(base).concat("/api/auth/login"),
        token_endpoint: String::from_str(base).concat("/api/auth/login"),
        userinfo_endpoint: String::from_str(base).concat("/api/auth/status"),
        response_types_supported: response_types,
        subject_types_supported: subject_types,
        id_token_signing_alg_values_supported: algorithms,
    }
}

} // verus!
