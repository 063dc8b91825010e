//! The result envelope returned to upload callers, and the catchers that
//! turn error statuses into the same envelope shape.

use vstd::prelude::*;

verus! {

/// The envelope returned for every upload: a success flag and, on
/// success, the derived identifier of the stored media.
pub struct UploadResponse {
    pub successful: bool,
    pub file_id: Option<String>,
}

impl UploadResponse {
    /// The failure shape: not successful, and no identifier.
    pub open spec fn is_error(&self) -> bool {
        !self.successful && self.file_id is None
    }

    pub fn new(successful: bool, file_id: Option<String>) -> (r: Self)
        ensures
            r.successful == successful,
            r.file_id == file_id,
    {
        Self { successful, file_id }
    }

    pub fn error() -> (r: Self)
        ensures
            r.is_error(),
    {
        Self { successful: false, file_id: None }
    }
}

/// Catcher for an unauthorized write: the same error envelope as every
/// other failure, so the caller cannot tell the gates apart by shape.
pub fn unauthorized() -> (r: UploadResponse)
    ensures
        r.is_error(),
{
    UploadResponse::error()
}

/// Catcher for an internal failure.
pub fn internal_server_err() -> (r: UploadResponse)
    ensures
        r.is_error(),
{
    UploadResponse::error()
}

/// Catcher for a request that matched no route or no stored media.
pub fn not_found() -> (r: UploadResponse)
    ensures
        r.is_error(),
{
    UploadResponse::error()
}

} // verus!
