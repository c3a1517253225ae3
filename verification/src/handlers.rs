//! The service's operations, one module each.

pub mod login;
pub mod openid;
pub mod register;
pub mod status;
