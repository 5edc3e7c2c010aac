//! Deciding what to presign or sign for uploads and reads.
//!
//! Signing a request with S3 credentials, reading the CDN key file and reading the
//! clock are left to the caller; each step here takes their results as arguments.

use vstd::prelude::*;
use std::sync::Arc;
use crate::config::Config;
use crate::dto::object::{chosen_media, filename_key, resolution_base, FileObject};
use crate::dto::upload::{GenerateUploadUrlRequest, GenerateUploadUrlResponse};
use crate::error::{ServiceError, ServiceResult};
use crate::links::url_resolve;
use crate::signing::{canned_signed_url, cloudfront_signed_url, sign_url};
use crate::storage::{presigning_config, Presigning, MAX_PRESIGN_SECS};
use crate::text::trim_char;

verus! {

/// Issues presigned and signed URLs for uploading to and reading from the
/// configured bucket and, optionally, its CDN.
pub struct UploadService {
    config: Arc<Config>,
}

/// How long an upload URL stays valid when the request does not say: 60 seconds.
pub const DEFAULT_UPLOAD_EXPIRATION_SECS: u64 = 60;

/// The validity asked for an upload URL, in seconds.
pub open spec fn upload_expiration(requested: Option<u64>) -> u64 {
    match requested {
        Some(s) => s,
        None => DEFAULT_UPLOAD_EXPIRATION_SECS,
    }
}

/// The public URL of the file stored under `key`: the base URL, `/`, the key.
pub open spec fn public_url(base_url: Seq<char>, key: Seq<char>) -> Seq<char> {
    base_url + "/"@ + key
}

/// The moment, in seconds since the epoch, that a URL signed at `now` for
/// `expires_in` seconds stops being valid.
pub open spec fn expiry_time(now: u64, expires_in: u64) -> nat {
    (now + expires_in) as nat
}

/// What an upload needs signed: a `PUT` of `file.key` into `bucket`, with the
/// content type (when one is to be set) and the presigning settings, which hold
/// the validity.
pub struct UploadPlan {
    pub bucket: String,
    pub file: FileObject,
    pub content_type: Option<String>,
    pub presigning: Presigning,
}

/// How a read URL is made: signed for the CDN, or presigned for S3.
pub enum ReadPlan {
    /// Sign `resource_url` with the key pair `key_pair_id`, whose private key is
    /// in the file at `private_key_path`, for `expires_in_seconds` from now.
    SignCdn {
        resource_url: String,
        key_pair_id: String,
        private_key_path: String,
        expires_in_seconds: u64,
    },
    /// Presign a `GET` of `key` in `bucket` with `presigning`, which holds the
    /// validity.
    PresignGet { bucket: String, key: String, presigning: Presigning },
}

impl UploadService {
    /// The bucket, the base URL and the CDN key pair (id, key path) that the
    /// service was made with.
    pub closed spec fn settings(&self) -> (Seq<char>, Seq<char>, Option<(Seq<char>, Seq<char>)>) {
        (
            self.config.bucket@,
            self.config.base_url@,
            match self.config.cdn_key {
                Some(k) => Some(k@),
                None => None,
            },
        )
    }

    /// A service backed by `config`.
    pub fn new(config: Arc<Config>) -> (s: Self)
        ensures
            s.settings() == (
                config.bucket@,
                config.base_url@,
                match config.cdn_key {
                    Some(k) => Some(k@),
                    None => None,
                },
            ),
    {
        UploadService { config: config.clone() }
    }

    /// The first step of issuing an upload URL: the file to store (see
    /// [`FileObject::from_filename`]), the validity (60 seconds unless the request
    /// says otherwise) and the content type, which is set only when the request
    /// gives a media type. A validity above one week is a server error.
    pub fn prepare_upload(&self, payload: GenerateUploadUrlRequest) -> (r: ServiceResult<UploadPlan>)
        ensures
            upload_expiration(payload.expiration) > MAX_PRESIGN_SECS ==> r
                == Err::<UploadPlan, ServiceError>(ServiceError::ServerError),
            upload_expiration(payload.expiration) <= MAX_PRESIGN_SECS ==> (r matches Ok(p) && {
                &&& p.bucket@ == self.settings().0
                &&& p.file.key@ == filename_key(payload.name@, payload.mimetype.deep_view())
                &&& p.file.mimetype@ == chosen_media(payload.name@, payload.mimetype.deep_view()).0
                &&& p.file.url is None
                &&& p.presigning@ == upload_expiration(payload.expiration)
                &&& p.content_type.deep_view() == match payload.mimetype {
                    Some(_) => Some(p.file.mimetype@),
                    None => None,
                }
            }),
            payload.expiration matches Some(secs) ==> (secs <= MAX_PRESIGN_SECS ==> (r matches Ok(
                p,
            ) && p.presigning@ == secs)),
            payload.expiration is None ==> (r matches Ok(p) && p.presigning@ == 60),
    {
        let given: Option<&str> = match &payload.mimetype {
            Some(m) => Some(m.as_str()),
            None => None,
        };
        let file = FileObject::from_filename(payload.name.as_str(), given);
        let secs = match payload.expiration {
            Some(s) => s,
            None => DEFAULT_UPLOAD_EXPIRATION_SECS,
        };
        proof {
            law_upload_validity_is_the_requested_one(payload.expiration);
        }
        let presigning = match presigning_config(secs) {
            Ok(c) => c,
            Err(_) => {
                return Err(ServiceError::ServerError);
            },
        };
        let content_type = match &payload.mimetype {
            Some(_) => Some(file.mimetype.clone()),
            None => None,
        };
        Ok(UploadPlan {
            bucket: self.config.bucket.clone(),
            file,
            content_type,
            presigning,
        })
    }

    /// The last step of issuing an upload URL: the presigned `PUT` URL, and the
    /// public URL that the file will have (the base URL, `/`, its key).
    pub fn upload_response(&self, file: &FileObject, presigned_uri: String) -> (r: GenerateUploadUrlResponse)
        ensures
            r.upload_url == presigned_uri,
            r.url@ == public_url(self.settings().1, file.key@),
            r.url@.len() == self.settings().1.len() + 1 + file.key@.len(),
            r.url@.take(self.settings().1.len() as int) == self.settings().1,
            r.url@[self.settings().1.len() as int] == '/',
            r.url@.skip(self.settings().1.len() + 1int) == file.key@,
    {
        let mut url = self.config.base_url.clone();
        url.append("/");
        url.append(file.key.as_str());
        proof {
            law_public_url_is_base_slash_key(self.settings().1, file.key@);
        }
        GenerateUploadUrlResponse { upload_url: presigned_uri, url }
    }

    /// The first step of issuing a read URL for `url` (a key, a path or an earlier
    /// URL, see [`FileObject::from_url`]): with a CDN key, the public URL of the file
    /// is to be signed with it; without one, a `GET` of the key is to be presigned,
    /// which fails for a validity above one week. A URL that does not resolve is a
    /// server error.
    pub fn plan_read(&self, url: &str, expires_in_seconds: u64) -> (r: ServiceResult<ReadPlan>)
        ensures
            url_resolve(resolution_base(), url@) is None ==> r
                == Err::<ReadPlan, ServiceError>(ServiceError::ServerError),
            url_resolve(resolution_base(), url@) matches Some((href, path)) ==> match self.settings().2 {
                Some((key_id, key_path)) => r matches Ok(ReadPlan::SignCdn {
                    resource_url,
                    key_pair_id,
                    private_key_path,
                    expires_in_seconds: e,
                }) && resource_url@ == public_url(self.settings().1, trim_char(path, '/'))
                    && key_pair_id@ == key_id && private_key_path@ == key_path && e
                    == expires_in_seconds,
                None => if expires_in_seconds > MAX_PRESIGN_SECS {
                    r == Err::<ReadPlan, ServiceError>(ServiceError::ServerError)
                } else {
                    r matches Ok(ReadPlan::PresignGet { bucket, key, presigning })
                        && bucket@ == self.settings().0 && key@ == trim_char(path, '/')
                        && presigning@ == expires_in_seconds
                },
            },
            url_resolve(resolution_base(), url@) matches Some((href, path)) ==> (r matches Ok(
                ReadPlan::SignCdn { resource_url, .. },
            ) ==> resource_url@.take(self.settings().1.len() as int) == self.settings().1
                && resource_url@[self.settings().1.len() as int] == '/' && resource_url@.skip(
                self.settings().1.len() + 1int,
            ) == trim_char(path, '/')),
    {
        let file = match FileObject::from_url(url) {
            Ok(f) => f,
            Err(e) => {
                return Err(e);
            },
        };
        match &self.config.cdn_key {
            Some(cdn_key) => {
                let mut resource_url = self.config.base_url.clone();
                resource_url.append("/");
                resource_url.append(file.key.as_str());
                proof {
                    law_public_url_is_base_slash_key(self.settings().1, file.key@);
                }
                Ok(ReadPlan::SignCdn {
                    resource_url,
                    key_pair_id: cdn_key.key_id.clone(),
                    private_key_path: cdn_key.private_key_path.clone(),
                    expires_in_seconds,
                })
            },
            None => {
                let presigning = match presigning_config(expires_in_seconds) {
                    Ok(c) => c,
                    Err(_) => {
                        return Err(ServiceError::ServerError);
                    },
                };
                Ok(ReadPlan::PresignGet {
                    bucket: self.config.bucket.clone(),
                    key: file.key,
                    presigning,
                })
            },
        }
    }

    /// Signs `resource_url` for the CDN with the key pair `key_pair_id` and its PEM
    /// key `private_key`, valid until `now_secs + expires_in_seconds`. Signing that
    /// fails is a server error.
    pub fn sign_cdn_url(
        resource_url: &str,
        key_pair_id: &str,
        private_key: &str,
        now_secs: u64,
        expires_in_seconds: u64,
    ) -> (r: ServiceResult<String>)
        requires
            now_secs + expires_in_seconds <= u64::MAX,
        ensures
            match cloudfront_signed_url(
                resource_url@,
                key_pair_id@,
                private_key@,
                (now_secs + expires_in_seconds) as u64,
            ) {
                Some(s) => r matches Ok(t) && t@ == s,
                None => r == Err::<String, ServiceError>(ServiceError::ServerError),
            },
            r matches Ok(t) ==> exists|sig: Seq<char>|
                t@ == canned_signed_url(
                    resource_url@,
                    key_pair_id@,
                    expiry_time(now_secs, expires_in_seconds),
                    sig,
                ),
    {
        let expires_at = now_secs + expires_in_seconds;
        let signed = sign_url(resource_url, key_pair_id, private_key, expires_at);
        proof {
            if let Ok(s) = &signed {
                let sig = choose|sig: Seq<char>|
                    s@ == canned_signed_url(resource_url@, key_pair_id@, expires_at as nat, sig);
                assert(s@ == canned_signed_url(
                    resource_url@,
                    key_pair_id@,
                    expiry_time(now_secs, expires_in_seconds),
                    sig,
                ));
            }
        }
        Self::signed_url_outcome(signed)
    }

    /// The answer for a signing result: the signed URL, or a server error.
    pub fn signed_url_outcome(signed: Result<String, cloudfront_sign::EncodingError>) -> (r: ServiceResult<String>)
        ensures
            match signed {
                Ok(s) => r == Ok::<String, ServiceError>(s),
                Err(_) => r == Err::<String, ServiceError>(ServiceError::ServerError),
            },
    {
        match signed {
            Ok(s) => Ok(s),
            Err(_) => Err(ServiceError::ServerError),
        }
    }
}

/// An upload URL is valid for exactly the seconds the request asks for, and for
/// 60 seconds when it asks for none.
pub proof fn law_upload_validity_is_the_requested_one(requested: Option<u64>)
    ensures
        requested matches Some(secs) ==> upload_expiration(requested) == secs,
        requested is None ==> upload_expiration(requested) == 60,
{
}

/// A public URL is the base URL, then `/`, then the key, character for character:
/// the key is neither changed nor cut, and nothing stands after it.
pub proof fn law_public_url_is_base_slash_key(base_url: Seq<char>, key: Seq<char>)
    ensures
        public_url(base_url, key).len() == base_url.len() + 1 + key.len(),
        public_url(base_url, key).take(base_url.len() as int) == base_url,
        public_url(base_url, key)[base_url.len() as int] == '/',
        public_url(base_url, key).skip(base_url.len() + 1int) == key,
{
    reveal_strlit("/");
    let u = public_url(base_url, key);
    assert(u.take(base_url.len() as int) =~= base_url);
    assert(u.skip(base_url.len() + 1int) =~= key);
}

} // verus!
