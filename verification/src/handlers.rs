//! The upload and retrieve handlers: the pipeline that gates, buffers,
//! identifies and stores an inbound payload, and the probe that serves
//! a stored payload back by identifier.

use vstd::prelude::*;

use crate::auth::opt_str_view;
use crate::auth::opt_string_view;
use crate::auth::spec_authorized;
use crate::auth::RequiresAuthentication;
use crate::config::UploaderConfiguration;
use crate::ident::derive_media_id;
use crate::ident::media_id_of;
use crate::media_type::extension_for;
use crate::media_type::spec_extension_for;
use crate::response::UploadResponse;
use crate::store::spec_probe;
use crate::store::MediaStore;

verus! {

/// The payload as buffered: truncated to the configured ceiling when it
/// exceeds it, unchanged otherwise.
pub open spec fn spec_truncated(body: Seq<u8>, max_bytes: int) -> Seq<u8> {
    if body.len() > max_bytes {
        body.take(max_bytes)
    } else {
        body
    }
}

/// Handles an authenticated upload: validates the declared content
/// type, buffers the payload up to the configured ceiling, derives the
/// content identifier, and stores the bytes under it. A rejected
/// content type leaves the store untouched and yields the error
/// envelope; an accepted one stores the (possibly truncated) payload
/// under its derived identifier and returns that identifier.
pub fn upload_media(
    file: Vec<u8>,
    config: &UploaderConfiguration,
    _a: RequiresAuthentication,
    content_type: &str,
    store: &mut MediaStore,
) -> (r: UploadResponse)
    ensures
        spec_extension_for(content_type@) is None ==> r.is_error() && final(store)@ == old(
            store,
        )@,
        spec_extension_for(content_type@) matches Some(ext) ==> {
            let stored = spec_truncated(file@, config.spec_max_bytes());
            &&& r.successful
            &&& r.file_id matches Some(s) && s@ == media_id_of(stored)
            &&& final(store)@ == old(store)@.insert((media_id_of(stored), ext), stored)
        },
{
    match extension_for(content_type) {
        Some(ext) => {
            let mut raw_data = file;
            let cap = config.max_bytes();
            if (raw_data.len() as u64) > cap {
                raw_data.truncate(cap as usize);
            }
            let file_id = derive_media_id(&raw_data);
            store.write(file_id.as_str(), ext.as_str(), raw_data);
            UploadResponse::new(true, Some(file_id))
        },
        None => UploadResponse::error(),
    }
}

/// Serves a stored payload: probes the allowed extensions in configured
/// order for the given identifier and returns the first match with its
/// bytes; an identifier with no stored match under any allowed
/// extension is a not-found outcome with no body.
pub fn retrieve_media(file_id: &str, config: &UploaderConfiguration, store: &MediaStore) -> (r:
    Option<(String, Vec<u8>)>)
    ensures
        match r {
            Some(found) => spec_probe(store@, file_id@, config.spec_allowed()) == Some(
                (found.0@, found.1@),
            ),
            None => spec_probe(store@, file_id@, config.spec_allowed()) is None,
        },
{
    store.probe_and_read(file_id, &config.allowed_extensions)
}

/// The full write path for one request: the access guard, then the
/// authenticated upload. An unauthorized request is answered with
/// status 401 and the error envelope and leaves the store untouched;
/// an authorized one is answered with status 200 and the envelope that
/// `upload_media` produced.
pub fn handle_upload(
    config: &UploaderConfiguration,
    store: &mut MediaStore,
    authorization: Option<&str>,
    content_type: &str,
    body: Vec<u8>,
) -> (r: (u16, UploadResponse))
    ensures
        !spec_authorized(opt_string_view(config.auth_key), opt_str_view(authorization)) ==> r.0
            == 401 && r.1.is_error() && final(store)@ == old(store)@,
        spec_authorized(opt_string_view(config.auth_key), opt_str_view(authorization)) ==> {
            &&& r.0 == 200
            &&& spec_extension_for(content_type@) is None ==> r.1.is_error() && final(store)@
                == old(store)@
            &&& spec_extension_for(content_type@) matches Some(ext) ==> {
                let stored = spec_truncated(body@, config.spec_max_bytes());
                &&& r.1.successful
                &&& r.1.file_id matches Some(s) && s@ == media_id_of(stored)
                &&& final(store)@ == old(store)@.insert((media_id_of(stored), ext), stored)
            }
        },
{
    match RequiresAuthentication::from_request(config, authorization) {
        Ok(a) => {
            let resp = upload_media(body, config, a, content_type, store);
            (200u16, resp)
        },
        Err(e) => (401u16, e),
    }
}

/// The usage text served at the root.
pub open spec fn spec_usage_text() -> Seq<char> {
    "USAGE
        GET /
            what are you reading right now

        PUT /
            upload a file, send as raw body

        GET /:id
            gets the file <:id>
    "@
}

/// Serves the usage text.
pub fn index() -> (r: &'static str)
    ensures
        r@ == spec_usage_text(),
{
    "USAGE
        GET /
            what are you reading right now

        PUT /
            upload a file, send as raw body

        GET /:id
            gets the file <:id>
    "
}

/// The assembled application state: the configuration read at startup
/// and the store it serves from.
pub struct App {
    pub config: UploaderConfiguration,
    pub store: MediaStore,
}

/// Assembles the application with its default configuration — a
/// ten-mebibyte upload ceiling, no shared secret, and the PNG and MP4
/// extensions probed in that order — and an empty store.
pub fn rocket() -> (r: App)
    ensures
        r.config.max_size == 10,
        r.config.auth_key is None,
        r.config.allowed_extensions@.len() == 2,
        r.config.allowed_extensions@[0]@ == "png"@,
        r.config.allowed_extensions@[1]@ == "mp4"@,
        r.store@ == Map::<(Seq<char>, Seq<char>), Seq<u8>>::empty(),
{
    let mut allowed: Vec<String> = Vec::new();
    allowed.push("png".to_owned());
    allowed.push("mp4".to_owned());
    App {
        config: UploaderConfiguration { max_size: 10, auth_key: None, allowed_extensions: allowed },
        store: MediaStore::new(),
    }
}

} // verus!
