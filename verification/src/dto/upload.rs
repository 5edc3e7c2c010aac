//! Requests and responses of the upload route.

use vstd::prelude::*;

verus! {

/// What a client asks to upload: the file's name, optionally its media type, and
/// optionally how many seconds the upload URL stays valid.
pub struct GenerateUploadUrlRequest {
    pub name: String,
    pub mimetype: Option<String>,
    pub expiration: Option<u64>,
}

/// The presigned URL to `PUT` the file to, and the file's public URL.
pub struct GenerateUploadUrlResponse {
    pub upload_url: String,
    pub url: String,
}

} // verus!
