//! The type validator: maps a declared content type to the file
//! extension it is stored under, rejecting everything off the allow-list.

use vstd::prelude::*;

verus! {

/// The fixed allow-list: PNG images and MP4 videos; every other
/// declared content type is rejected.
pub open spec fn spec_extension_for(content_type: Seq<char>) -> Option<Seq<char>> {
    if content_type == "image/png"@ {
        Some("png"@)
    } else if content_type == "video/mp4"@ {
        Some("mp4"@)
    } else {
        None
    }
}

/// Decides whether an upload with the declared content type is accepted
/// and, if so, under which file extension it is persisted.
pub fn extension_for(content_type: &str) -> (r: Option<String>)
    ensures
        match r {
            Some(ext) => spec_extension_for(content_type@) == Some(ext@),
            None => spec_extension_for(content_type@) is None,
        },
{
    let ct: String = content_type.to_owned();
    if ct == "image/png".to_owned() {
        Some("png".to_owned())
    } else if ct == "video/mp4".to_owned() {
        Some("mp4".to_owned())
    } else {
        None
    }
}

} // verus!
