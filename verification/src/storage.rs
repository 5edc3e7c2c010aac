//! The S3 client and presigning settings of the `aws-sdk-s3` crate.

use vstd::prelude::*;

verus! {

#[verifier::external_type_specification]
#[verifier::external_body]
pub struct ExClient(aws_sdk_s3::Client);

#[verifier::external_type_specification]
#[verifier::external_body]
pub struct ExPresigningConfig(aws_sdk_s3::presigning::PresigningConfig);

#[verifier::external_type_specification]
#[verifier::external_body]
pub struct ExPresigningConfigError(aws_sdk_s3::presigning::PresigningConfigError);

/// The longest validity that S3 accepts for a presigned request: one week.
pub const MAX_PRESIGN_SECS: u64 = 604800;

/// S3 presigning settings together with the validity, in seconds, that they hold.
///
/// Only [`presigning_config`] makes one, and it reads the validity back from the
/// settings it got, so the two never part: the settings that [`Presigning::into_config`]
/// hands on hold exactly the validity `self@`.
pub struct Presigning {
    config: aws_sdk_s3::presigning::PresigningConfig,
    validity_secs: u64,
}

impl View for Presigning {
    /// The validity, in seconds, that the settings hold.
    type V = u64;

    closed spec fn view(&self) -> u64 {
        self.validity_secs
    }
}

impl Presigning {
    /// The settings held.
    pub closed spec fn held(&self) -> aws_sdk_s3::presigning::PresigningConfig {
        self.config
    }

    /// The validity, in seconds, that the settings hold.
    pub fn validity_secs(&self) -> (s: u64)
        ensures
            s == self@,
    {
        self.validity_secs
    }

    /// The settings, to hand to the S3 presigning call.
    pub fn into_config(self) -> (c: aws_sdk_s3::presigning::PresigningConfig)
        ensures
            c == self.held(),
    {
        self.config
    }
}

/// Calls `PresigningConfig::expires_in` with a validity of `expires_in_secs`
/// seconds, and reads the validity back from the settings (`expires`). The crate
/// fails exactly when the validity is longer than one week, and otherwise stores
/// the duration it was given. The start time it records is the current time, of
/// which nothing is stated.
#[verifier::external_body]
pub(crate) fn presigning_config(expires_in_secs: u64) -> (r: Result<
    Presigning,
    aws_sdk_s3::presigning::PresigningConfigError,
>)
    ensures
        r is Ok <==> expires_in_secs <= MAX_PRESIGN_SECS,
        r matches Ok(p) ==> p@ == expires_in_secs,
{
    let config = aws_sdk_s3::presigning::PresigningConfig::expires_in(
        std::time::Duration::from_secs(expires_in_secs),
    )?;
    Ok(Presigning { validity_secs: config.expires().as_secs(), config })
}

} // verus!
