//! CloudFront signed URLs through the `cloudfront_sign` crate.

use vstd::prelude::*;

verus! {

#[verifier::external_type_specification]
#[verifier::external_body]
pub struct ExEncodingError(cloudfront_sign::EncodingError);

/// The URL that `cloudfront_sign::get_signed_url` gives for `url` with the key pair
/// `key_pair_id`, the PEM key `private_key`, the resource `url` itself and the
/// expiry `expires_at`, or `None` when signing fails.
pub uninterp spec fn cloudfront_signed_url(
    url: Seq<char>,
    key_pair_id: Seq<char>,
    private_key: Seq<char>,
    expires_at: u64,
) -> Option<Seq<char>>;

/// The digit for `d`, below ten.
pub open spec fn digit_char(d: nat) -> char {
    ('0' as nat + d) as char
}

/// The decimal text of `n`.
pub open spec fn decimal(n: nat) -> Seq<char>
    decreases n,
{
    if n < 10 {
        seq![digit_char(n)]
    } else {
        decimal(n / 10).push(digit_char(n % 10))
    }
}

/// `&` when `url` already holds a query, `?` otherwise.
pub open spec fn query_separator(url: Seq<char>) -> char {
    if url.contains('?') {
        '&'
    } else {
        '?'
    }
}

/// The shape of a canned-policy signed URL: the URL, then the expiry, the
/// signature and the key pair id as query parameters.
pub open spec fn canned_signed_url(
    url: Seq<char>,
    key_pair_id: Seq<char>,
    expires_at: nat,
    signature: Seq<char>,
) -> Seq<char> {
    url.push(query_separator(url)) + "Expires="@ + decimal(expires_at) + "&Signature="@ + signature
        + "&Key-Pair-Id="@ + key_pair_id
}

/// Calls `cloudfront_sign::get_signed_url(url, options)` with the key pair id, the
/// private key, `url` as the resource and `expires_at` as the expiry, and no start
/// date or IP range. Its source shows the canned-policy shape that the second
/// clause states; the signature inside it is left unstated.
#[verifier::external_body]
pub(crate) fn sign_url(url: &str, key_pair_id: &str, private_key: &str, expires_at: u64) -> (r: Result<
    String,
    cloudfront_sign::EncodingError,
>)
    ensures
        match r {
            Ok(s) => cloudfront_signed_url(url@, key_pair_id@, private_key@, expires_at) == Some(s@),
            Err(_) => cloudfront_signed_url(url@, key_pair_id@, private_key@, expires_at) is None,
        },
        r matches Ok(s) ==> exists|sig: Seq<char>|
            s@ == canned_signed_url(url@, key_pair_id@, expires_at as nat, sig),
{
    let options = cloudfront_sign::SignedOptions {
        key_pair_id: std::borrow::Cow::from(key_pair_id),
        private_key: std::borrow::Cow::from(private_key),
        date_less_than: expires_at,
        date_greater_than: None,
        ip_address: None,
        resource: Some(std::borrow::Cow::from(url)),
    };
    cloudfront_sign::get_signed_url(url, &options)
}

} // verus!
