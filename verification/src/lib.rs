//! Credential verification and token issuance for an identity service.
//!
//! The crate checks submitted credentials against stored bcrypt hashes, mints
//! RS256-signed tokens carrying identity claims, and derives the documents a
//! relying party needs to verify those tokens on its own: the key set and the
//! discovery metadata. Storage, transport and process wiring are left to the
//! caller, which hands this crate plain values and takes plain values back.

pub mod base64url;
pub mod config;
pub mod errors;
pub mod handlers;
pub mod keys;
pub mod middleware;
pub mod models;
pub mod password;
pub mod token;
