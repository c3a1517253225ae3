//! The discovery document, the status answer and the administrative guard.

use authentication::config::Config;
use authentication::errors::AppError;
use authentication::handlers::openid::openid_configuration;
use authentication::handlers::status::auth_status;
use authentication::middleware::auth;

#[test]
fn discovery_document_for_the_default_base() {
    let document = openid_configuration(&Config::from_env(&Vec::new()));
    assert_eq!(document.issuer, "http://authentication:8082");
    assert_eq!(document.jwks_uri, "http://authentication:8082/.well-known/jwks.json");
    assert_eq!(document.authorization_endpoint, "http://authentication:8082/api/auth/login");
    assert_eq!(document.token_endpoint, "http://authentication:8082/api/auth/login");
    assert_eq!(document.userinfo_endpoint, "http://authentication:8082/api/auth/status");
    assert_eq!(document.response_types_supported, vec!["code", "token"]);
    assert_eq!(document.subject_types_supported, vec!["public"]);
    assert_eq!(document.id_token_signing_alg_values_supported, vec!["RS256"]);
}

#[test]
fn discovery_document_follows_the_configured_base() {
    let vars = vec![("BASE_URL".to_string(), "https://id.example".to_string())];
    let document = openid_configuration(&Config::from_env(&vars));
    assert_eq!(document.issuer, "https://id.example");
    assert_eq!(document.jwks_uri, "https://id.example/.well-known/jwks.json");
    assert_eq!(document.userinfo_endpoint, "https://id.example/api/auth/status");
}

#[test]
fn discovery_document_for_an_empty_base() {
    let vars = vec![("BASE_URL".to_string(), String::new())];
    let document = openid_configuration(&Config::from_env(&vars));
    assert_eq!(document.issuer, "");
    assert_eq!(document.token_endpoint, "/api/auth/login");
}

#[test]
fn status_is_the_placeholder() {
    let status = auth_status();
    assert_eq!(status.authenticated, false);
    assert_eq!(status.message, "Authentication service is ready for implementation");
}

#[test]
fn guard_admits_the_configured_key() {
    let config = Config::from_env(&Vec::new());
    assert!(auth(Some("a-super-secret-key"), &config).is_ok());
}

#[test]
fn guard_refuses_another_key() {
    let config = Config::from_env(&Vec::new());
    assert!(matches!(auth(Some("a-super-secret-key "), &config), Err(AppError::Unauthorized)));
    assert!(matches!(auth(Some("A-SUPER-SECRET-KEY"), &config), Err(AppError::Unauthorized)));
    assert!(matches!(auth(Some(""), &config), Err(AppError::Unauthorized)));
}

#[test]
fn guard_refuses_a_missing_key() {
    let config = Config::from_env(&Vec::new());
    let refused = auth(None, &config).unwrap_err();
    assert_eq!(refused.into_response().status, 401);
}

#[test]
fn guard_follows_the_configured_key() {
    let vars = vec![("INTERNAL_API_KEY".to_string(), "k2".to_string())];
    let config = Config::from_env(&vars);
    assert!(auth(Some("k2"), &config).is_ok());
    assert!(auth(Some("a-super-secret-key"), &config).is_err());
}
