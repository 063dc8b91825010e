//! The access guard: writes are gated by an optional shared secret
//! carried in a request header and compared by exact string equality.

use vstd::prelude::*;

use crate::config::UploaderConfiguration;
use crate::response::UploadResponse;

verus! {

/// The view of an optional owned credential string.
pub open spec fn opt_string_view(o: Option<String>) -> Option<Seq<char>> {
    match o {
        Some(s) => Some(s@),
        None => None,
    }
}

/// The view of an optional borrowed credential string.
pub open spec fn opt_str_view(o: Option<&str>) -> Option<Seq<char>> {
    match o {
        Some(s) => Some(s@),
        None => None,
    }
}

/// A request is authorized when no secret is configured, or when the
/// caller supplied exactly the configured secret.
pub open spec fn spec_authorized(auth_key: Option<Seq<char>>, authorization: Option<Seq<char>>) -> bool {
    match auth_key {
        None => true,
        Some(k) => authorization == Some(k),
    }
}

/// Witness that the access guard has run and passed for this request.
pub struct RequiresAuthentication;

impl RequiresAuthentication {
    /// Runs the guard against the configured secret and the
    /// `Authorization` header value, if any. Succeeds exactly when the
    /// request is authorized; any mismatch, including an absent header,
    /// yields the error envelope (served with an unauthorized status).
    pub fn from_request(config: &UploaderConfiguration, authorization: Option<&str>) -> (r: Result<
        RequiresAuthentication,
        UploadResponse,
    >)
        ensures
            r is Ok <==> spec_authorized(
                opt_string_view(config.auth_key),
                opt_str_view(authorization),
            ),
            r matches Err(e) ==> e.is_error(),
    {
        match &config.auth_key {
            Some(actual_key) => {
                match authorization {
                    Some(extern_key) => {
                        if *actual_key == extern_key.to_owned() {
                            Ok(RequiresAuthentication)
                        } else {
                            Err(UploadResponse::error())
                        }
                    },
                    None => Err(UploadResponse::error()),
                }
            },
            None => Ok(RequiresAuthentication),
        }
    }
}

} // verus!
