//! Media types, read and guessed through the `mime_guess` crate.

use vstd::prelude::*;
use crate::paths::{extension_of, path_file_name};

verus! {

/// A media type as the `mime` crate reports it: its text (what `Display` prints),
/// its top-level type and its subtype.
pub struct MediaType {
    pub text: String,
    pub top: String,
    pub sub: String,
}

impl View for MediaType {
    type V = (Seq<char>, Seq<char>, Seq<char>);

    open spec fn view(&self) -> (Seq<char>, Seq<char>, Seq<char>) {
        (self.text@, self.top@, self.sub@)
    }
}

/// What `mime_guess::Mime::from_str` reads from `text`, as (text, type, subtype),
/// or `None` when it refuses the text.
pub uninterp spec fn mime_parse(text: Seq<char>) -> Option<(Seq<char>, Seq<char>, Seq<char>)>;

/// The first media type that `mime_guess::from_path(path).first()` gives, as
/// (text, type, subtype).
pub uninterp spec fn mime_guess_first(path: Seq<char>) -> Option<(Seq<char>, Seq<char>, Seq<char>)>;

/// The extensions that `mime_guess::get_extensions(top, sub)` lists.
pub uninterp spec fn mime_known_extensions(top: Seq<char>, sub: Seq<char>) -> Option<Seq<Seq<char>>>;

/// `application/octet-stream`, the type of an unknown binary file.
pub open spec fn octet_stream_parts() -> (Seq<char>, Seq<char>, Seq<char>) {
    ("application/octet-stream"@, "application"@, "octet-stream"@)
}

/// Calls `Mime::from_str` (the `mime` crate, as `mime_guess` re-exports it) and
/// reports the parsed type's text, type and subtype; `None` when parsing fails.
#[verifier::external_body]
pub(crate) fn parse_media_type(text: &str) -> (r: Option<MediaType>)
    ensures
        match r {
            Some(m) => mime_parse(text@) == Some(m@),
            None => mime_parse(text@) is None,
        },
{
    text.parse::<mime_guess::Mime>().ok().map(|m| MediaType {
        text: m.to_string(),
        top: m.type_().as_str().to_string(),
        sub: m.subtype().as_str().to_string(),
    })
}

/// Calls `mime_guess::from_path(path).first()`. The crate documents that a path
/// without an extension gets an empty guess, so no type then.
#[verifier::external_body]
pub(crate) fn guess_media_type(path: &str) -> (r: Option<MediaType>)
    ensures
        match r {
            Some(m) => mime_guess_first(path@) == Some(m@),
            None => mime_guess_first(path@) is None,
        },
        extension_of(path_file_name(path@)) is None ==> r is None,
{
    mime_guess::from_path(path).first().map(|m| MediaType {
        text: m.to_string(),
        top: m.type_().as_str().to_string(),
        sub: m.subtype().as_str().to_string(),
    })
}

/// Reads the constant `mime::APPLICATION_OCTET_STREAM`: its text is
/// `application/octet-stream`, its type `application`, its subtype `octet-stream`.
#[verifier::external_body]
pub(crate) fn octet_stream() -> (m: MediaType)
    ensures
        m@ == octet_stream_parts(),
{
    let m = mime_guess::mime::APPLICATION_OCTET_STREAM;
    MediaType {
        text: m.to_string(),
        top: m.type_().as_str().to_string(),
        sub: m.subtype().as_str().to_string(),
    }
}

/// Calls `mime_guess::get_extensions(top, sub)`, the lookup that
/// `get_mime_extensions` makes with a type's top-level type and subtype, and
/// copies out the extensions it lists.
#[verifier::external_body]
pub(crate) fn known_extensions(top: &str, sub: &str) -> (r: Option<Vec<String>>)
    ensures
        match r {
            Some(v) => mime_known_extensions(top@, sub@) == Some(v.deep_view()),
            None => mime_known_extensions(top@, sub@) is None,
        },
{
    mime_guess::get_extensions(top, sub).map(|e| e.iter().map(|s| s.to_string()).collect())
}

} // verus!
