//! URL resolution through the `url` crate.

use vstd::prelude::*;

verus! {

#[verifier::external_type_specification]
#[verifier::external_body]
pub struct ExUrlParseError(url::ParseError);

/// A resolved URL: its full text and its path.
pub struct ResolvedUrl {
    pub href: String,
    pub path: String,
}

impl View for ResolvedUrl {
    type V = (Seq<char>, Seq<char>);

    open spec fn view(&self) -> (Seq<char>, Seq<char>) {
        (self.href@, self.path@)
    }
}

/// The URL that `url::Url::parse(base)` then `join(input)` give, as (its text,
/// its path), or `None` when the `url` crate refuses either.
pub uninterp spec fn url_resolve(base: Seq<char>, input: Seq<char>) -> Option<(Seq<char>, Seq<char>)>;

/// Calls `url::Url::join` on the URL that `base` spells, with `input`, and reports
/// the result's text (`as_str`) and path (`path`).
#[verifier::external_body]
pub(crate) fn resolve_url(base: &str, input: &str) -> (r: Result<ResolvedUrl, url::ParseError>)
    ensures
        match r {
            Ok(u) => url_resolve(base@, input@) == Some(u@),
            Err(_) => url_resolve(base@, input@) is None,
        },
{
    let joined = url::Url::parse(base).and_then(|b| b.join(input))?;
    Ok(ResolvedUrl { path: joined.path().to_string(), href: joined.into() })
}

} // verus!
