//! Where the service stores files and how it signs reads.

use vstd::prelude::*;
use std::sync::Arc;
use crate::text::{
    lemma_trim_end_char_ends_clean, lemma_trim_end_char_idempotent, trim_end_char,
    trim_end_matches_char,
};

verus! {

/// The CloudFront key pair that signs CDN reads.
pub struct CdnKey {
    pub key_id: String,
    pub private_key_path: String,
}

impl View for CdnKey {
    type V = (Seq<char>, Seq<char>);

    open spec fn view(&self) -> (Seq<char>, Seq<char>) {
        (self.key_id@, self.private_key_path@)
    }
}

/// The S3 client, the bucket, the public base URL (never ending in `/` when it
/// comes from [`ConfigBuilder`]) and the optional CDN key.
pub struct Config {
    pub client: aws_sdk_s3::Client,
    pub bucket: String,
    pub base_url: String,
    pub cdn_key: Option<CdnKey>,
}

impl Config {
    /// Puts the parts together behind a shared pointer.
    pub fn new(
        client: aws_sdk_s3::Client,
        bucket: String,
        base_url: String,
        cdn_key: Option<CdnKey>,
    ) -> (r: Arc<Config>)
        ensures
            r.bucket == bucket,
            r.base_url == base_url,
            r.cdn_key == cdn_key,
    {
        Arc::new(Config { client, bucket, base_url, cdn_key })
    }
}

/// What the builder holds: region, bucket, base URL and CDN key, each as set.
pub type ConfigBuilderView = (Option<Seq<char>>, Option<Seq<char>>, Option<Seq<char>>, Option<(Seq<char>, Seq<char>)>);

/// Collects the settings of a [`Config`].
pub struct ConfigBuilder {
    region: Option<String>,
    bucket: Option<String>,
    base_url: Option<String>,
    cdn_key: Option<CdnKey>,
}

/// A setting that a [`Config`] cannot do without.
#[derive(Debug, PartialEq, Eq, Clone, Copy)]
pub enum RequiredSetting {
    Region,
    Bucket,
    BaseUrl,
}

impl RequiredSetting {
    /// The message that a build without this setting fails with.
    pub fn message(&self) -> (m: &'static str)
        ensures
            *self == RequiredSetting::Region ==> m@ == "Region is required"@,
            *self == RequiredSetting::Bucket ==> m@ == "Bucket is required"@,
            *self == RequiredSetting::BaseUrl ==> m@ == "Base URL is required"@,
    {
        match self {
            RequiredSetting::Region => "Region is required",
            RequiredSetting::Bucket => "Bucket is required",
            RequiredSetting::BaseUrl => "Base URL is required",
        }
    }
}

/// The settings that [`ConfigBuilder::build`] hands on: the region to load the S3
/// client for, and the rest of the [`Config`].
pub struct ConfigSettings {
    pub region: String,
    pub bucket: String,
    pub base_url: String,
    pub cdn_key: Option<CdnKey>,
}

/// A setting counts as given when it was set to a non-empty text.
pub open spec fn given(s: Option<Seq<char>>) -> bool {
    s matches Some(t) && t.len() > 0
}

/// The first required setting, in the order region, bucket, base URL, that is not
/// given.
pub open spec fn first_missing(b: ConfigBuilderView) -> Option<RequiredSetting> {
    if !given(b.0) {
        Some(RequiredSetting::Region)
    } else if !given(b.1) {
        Some(RequiredSetting::Bucket)
    } else if !given(b.2) {
        Some(RequiredSetting::BaseUrl)
    } else {
        None
    }
}

impl View for ConfigBuilder {
    type V = ConfigBuilderView;

    closed spec fn view(&self) -> ConfigBuilderView {
        (
            self.region.deep_view(),
            self.bucket.deep_view(),
            self.base_url.deep_view(),
            match self.cdn_key {
                Some(k) => Some(k@),
                None => None,
            },
        )
    }
}

impl ConfigBuilder {
    /// A builder with nothing set.
    pub fn new() -> (b: Self)
        ensures
            b@ == (None::<Seq<char>>, None::<Seq<char>>, None::<Seq<char>>, None::<(Seq<char>, Seq<char>)>),
    {
        ConfigBuilder { region: None, bucket: None, base_url: None, cdn_key: None }
    }

    /// Sets the AWS region.
    pub fn region(self, region: &str) -> (b: Self)
        ensures
            b@ == (Some(region@), self@.1, self@.2, self@.3),
    {
        let mut b = self;
        b.region = Some(region.to_string());
        b
    }

    /// Sets the CloudFront key pair id and the path of its private key.
    pub fn cdn_key(self, key_id: &str, private_key: &str) -> (b: Self)
        ensures
            b@ == (self@.0, self@.1, self@.2, Some((key_id@, private_key@))),
    {
        let mut b = self;
        b.cdn_key = Some(CdnKey { key_id: key_id.to_string(), private_key_path: private_key.to_string() });
        b
    }

    /// Sets the bucket.
    pub fn bucket(self, bucket: &str) -> (b: Self)
        ensures
            b@ == (self@.0, Some(bucket@), self@.2, self@.3),
    {
        let mut b = self;
        b.bucket = Some(bucket.to_string());
        b
    }

    /// Sets the public base URL, without the `/` characters it ends with.
    pub fn base_url(self, base_url: &str) -> (b: Self)
        ensures
            b@ == (self@.0, self@.1, Some(trim_end_char(base_url@, '/')), self@.3),
    {
        let mut b = self;
        b.base_url = Some(trim_end_matches_char(base_url, '/'));
        b
    }

    /// The first required setting that is missing or empty, in the order region,
    /// bucket, base URL; `None` when all are given.
    pub fn missing_setting(&self) -> (r: Option<RequiredSetting>)
        ensures
            r == first_missing(self@),
    {
        if !Self::is_given(&self.region) {
            Some(RequiredSetting::Region)
        } else if !Self::is_given(&self.bucket) {
            Some(RequiredSetting::Bucket)
        } else if !Self::is_given(&self.base_url) {
            Some(RequiredSetting::BaseUrl)
        } else {
            None
        }
    }

    fn is_given(s: &Option<String>) -> (r: bool)
        ensures
            r == given(s.deep_view()),
    {
        match s {
            Some(t) => t.as_str().unicode_len() > 0,
            None => false,
        }
    }

    /// The settings, once region, bucket and base URL are all given.
    pub fn build(self) -> (r: ConfigSettings)
        requires
            first_missing(self@) is None,
        ensures
            Some(r.region@) == self@.0,
            Some(r.bucket@) == self@.1,
            Some(r.base_url@) == self@.2,
            match r.cdn_key {
                Some(k) => self@.3 == Some(k@),
                None => self@.3 is None,
            },
    {
        let region = match self.region {
            Some(r) => r,
            None => String::new(),
        };
        let bucket = match self.bucket {
            Some(b) => b,
            None => String::new(),
        };
        let base_url = match self.base_url {
            Some(u) => u,
            None => String::new(),
        };
        ConfigSettings { region, bucket, base_url, cdn_key: self.cdn_key }
    }
}

/// The base URL that the builder stores never ends with `/`, and storing it again
/// stores the same text.
pub proof fn law_base_url_has_no_trailing_slash(base_url: Seq<char>)
    ensures
        trim_end_char(base_url, '/').len() > 0 ==> trim_end_char(base_url, '/').last() != '/',
        trim_end_char(trim_end_char(base_url, '/'), '/') == trim_end_char(base_url, '/'),
{
    lemma_trim_end_char_ends_clean(base_url, '/');
    lemma_trim_end_char_idempotent(base_url, '/');
}

} // verus!
