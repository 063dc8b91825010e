//! The process-wide uploader configuration: read once at startup and
//! passed by reference into every handler invocation.

use vstd::prelude::*;

use crate::store::ext_views;

verus! {

/// Immutable configuration for the store: the upload size ceiling in
/// mebibytes, the optional shared secret that gates writes, and the
/// ordered list of file extensions that uploads may be stored under
/// and that retrieval probes in order.
pub struct UploaderConfiguration {
    pub max_size: u32,
    pub auth_key: Option<String>,
    pub allowed_extensions: Vec<String>,
}

impl UploaderConfiguration {
    /// The upload ceiling in bytes: `max_size` mebibytes.
    pub open spec fn spec_max_bytes(&self) -> int {
        self.max_size * 1048576
    }

    /// The allowed extensions as character sequences, in configured order.
    pub open spec fn spec_allowed(&self) -> Seq<Seq<char>> {
        ext_views(self.allowed_extensions@)
    }

    pub fn max_bytes(&self) -> (r: u64)
        ensures
            r == self.spec_max_bytes(),
    {
        (self.max_size as u64) * 1048576
    }
}

} // verus!
