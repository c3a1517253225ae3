//! The guard in front of the administrative endpoints.

use crate::config::Config;
use crate::errors::AppError;
use crate::errors::ErrorView;
use vstd::prelude::*;
use vstd::string::StringExecFns;

verus! {

/// Whether a request that presents `api_key` may pass: it presents a key, and
/// the key is the configured one.
pub open spec fn admitted(api_key: Option<&str>, expected: Seq<char>) -> bool {
    api_key matches Some(key) && key@ == expected
}

/// Admits a request to an administrative endpoint. `api_key` is the value of
/// the request's internal key header, if it has one that is text.
pub fn auth(api_key: Option<&str>, config: &Config) -> (r: Result<(), AppError>)
    ensures
        match r {
            Ok(_) => admitted(api_key, config.internal_api_key@),
            Err(e) => !admitted(api_key, config.internal_api_key@) && e@
                == ErrorView::Unauthorized,
        },
{
    match api_key {
        Some(key) => {
            if String::from_str(key) == config.internal_api_key {
                Ok(())
            } else {
                Err(AppError::Unauthorized)
            }
        },
        None => Err(AppError::Unauthorized),
    }
}

} // verus!
