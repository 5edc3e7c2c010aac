//! A stored file: its key in the bucket, its media type and its URL.

use vstd::prelude::*;
use crate::error::{ServiceError, ServiceResult};
use crate::links::{resolve_url, url_resolve, ResolvedUrl};
use crate::media::{
    guess_media_type, known_extensions, mime_guess_first, mime_known_extensions, mime_parse,
    octet_stream, octet_stream_parts, parse_media_type, MediaType,
};
use crate::paths::{extension_of, file_extension, file_stem, path_file_name, stem_of};
use crate::text::{
    each_after, join_strings, join_with, lemma_join_first_then_rest, lemma_join_starts_with_first, lemma_trim_char_clean, trim_char,
    trim_matches_char,
};

verus! {

/// A file in the bucket.
pub struct FileObject {
    pub key: String,
    pub mimetype: String,
    pub url: Option<String>,
}

/// The base that a file's URL or path is resolved against.
pub open spec fn resolution_base() -> Seq<char> {
    "https://example.com"@
}

/// The media type of a file named `file_name`: the given type when one is given
/// (`application/octet-stream` when it does not parse; the name is then not
/// consulted), else the type guessed from the name's extension, else
/// `application/octet-stream`.
pub open spec fn chosen_media(file_name: Seq<char>, given: Option<Seq<char>>) -> (Seq<char>, Seq<char>, Seq<char>) {
    let found = match given {
        Some(t) => mime_parse(t),
        None => mime_guess_first(file_name),
    };
    match found {
        Some(m) => m,
        None => octet_stream_parts(),
    }
}

/// The parts of a key, joined with `.` to make it: the stem (the whole name when it
/// has none), then every extension known for the media type, or else the name's
/// own extension (empty when it has none).
pub open spec fn key_parts(
    file_name: Seq<char>,
    stem: Option<Seq<char>>,
    extension: Option<Seq<char>>,
    known: Option<Seq<Seq<char>>>,
) -> Seq<Seq<char>> {
    let base = match stem {
        Some(s) => s,
        None => file_name,
    };
    let tail = match known {
        Some(e) => e,
        None => seq![match extension { Some(x) => x, None => Seq::<char>::empty() }],
    };
    seq![base] + tail
}

/// The key under which a file named `file_name`, of the given media type if any,
/// is stored.
pub open spec fn filename_key(file_name: Seq<char>, given: Option<Seq<char>>) -> Seq<char> {
    let m = chosen_media(file_name, given);
    join_with(
        key_parts(
            file_name,
            stem_of(path_file_name(file_name)),
            extension_of(path_file_name(file_name)),
            mime_known_extensions(m.1, m.2),
        ),
        "."@,
    )
}

/// The view of an optional `&str`.
pub open spec fn opt_str_view(o: Option<&str>) -> Option<Seq<char>> {
    match o {
        Some(t) => Some(t@),
        None => None,
    }
}

/// The file that a URL or path resolved to `(href, path)` names: the path without
/// its leading and trailing `/` as key, the type guessed from the path (or
/// `application/octet-stream`) as media type, and the resolved URL.
pub open spec fn resolved_file(href: Seq<char>, path: Seq<char>) -> (Seq<char>, Seq<char>, Option<Seq<char>>) {
    let media = match mime_guess_first(path) {
        Some(m) => m,
        None => octet_stream_parts(),
    };
    (trim_char(path, '/'), media.0, Some(href))
}

impl FileObject {
    /// The file's key, media type and URL, as a triple of texts.
    pub open spec fn parts(&self) -> (Seq<char>, Seq<char>, Option<Seq<char>>) {
        (self.key@, self.mimetype@, self.url.deep_view())
    }

    /// A file with the given key, media type and URL.
    pub fn new(key: String, mimetype: String, url: Option<String>) -> (f: FileObject)
        ensures
            f.key == key,
            f.mimetype == mimetype,
            f.url == url,
    {
        FileObject { key, mimetype, url }
    }

    /// The file to store for an upload of `file_name`, of type `mimetype` when the
    /// client gave one: its key is the name's stem followed by the extensions known
    /// for its media type, it has that media type, and no URL yet.
    pub fn from_filename(file_name: &str, mimetype: Option<&str>) -> (f: FileObject)
        ensures
            f.key@ == filename_key(file_name@, opt_str_view(mimetype)),
            f.mimetype@ == chosen_media(file_name@, opt_str_view(mimetype)).0,
            f.url is None,
            match stem_of(path_file_name(file_name@)) {
                Some(s) => s,
                None => file_name@,
            }.is_prefix_of(f.key@),
            stem_of(path_file_name(file_name@)) matches Some(s) ==> !s.contains('/'),
            mime_known_extensions(
                chosen_media(file_name@, opt_str_view(mimetype)).1,
                chosen_media(file_name@, opt_str_view(mimetype)).2,
            ) matches Some(e) ==> f.key@ == match stem_of(path_file_name(file_name@)) {
                Some(s) => s,
                None => file_name@,
            } + each_after(e, "."@),
            mimetype is None && extension_of(path_file_name(file_name@)) is None ==> f.mimetype@
                == octet_stream_parts().0,
            mimetype matches Some(t) && mime_parse(t@) is None ==> f.mimetype@
                == octet_stream_parts().0,
    {
        let found = match mimetype {
            Some(v) => parse_media_type(v),
            None => guess_media_type(file_name),
        };
        let media = match found {
            Some(m) => m,
            None => octet_stream(),
        };
        let stem = file_stem(file_name);
        let extension = file_extension(file_name);
        let known = known_extensions(media.top.as_str(), media.sub.as_str());
        proof {
            lemma_join_starts_with_first(
                key_parts(file_name@, stem.deep_view(), extension.deep_view(), known.deep_view()),
                "."@,
            );
        }
        Self::assemble(file_name, stem, extension, media, known)
    }

    /// The file for `file_name` once its stem, its extension, its media type and the
    /// extensions known for that type are found.
    pub fn assemble(
        file_name: &str,
        stem: Option<String>,
        extension: Option<String>,
        media: MediaType,
        known: Option<Vec<String>>,
    ) -> (f: FileObject)
        ensures
            f.key@ == join_with(
                key_parts(file_name@, stem.deep_view(), extension.deep_view(), known.deep_view()),
                "."@,
            ),
            known.deep_view() matches Some(e) ==> f.key@ == match stem.deep_view() {
                Some(s) => s,
                None => file_name@,
            } + each_after(e, "."@),
            known is None ==> f.key@ == match stem.deep_view() {
                Some(s) => s,
                None => file_name@,
            } + "."@ + match extension.deep_view() {
                Some(x) => x,
                None => Seq::<char>::empty(),
            },
            f.mimetype@ == media.text@,
            f.url is None,
    {
        let ghost want = key_parts(file_name@, stem.deep_view(), extension.deep_view(), known.deep_view());
        let base = match stem {
            Some(s) => s,
            None => file_name.to_string(),
        };
        let mut parts: Vec<String> = Vec::new();
        parts.push(base);
        match known {
            Some(exts) => {
                let mut exts = exts;
                parts.append(&mut exts);
                assert(parts.deep_view() =~= want);
            },
            None => {
                let last = match extension {
                    Some(x) => x,
                    None => String::new(),
                };
                parts.push(last);
                assert(parts.deep_view() =~= want);
            },
        }
        let key = join_strings(&parts, ".");
        proof {
            match known.deep_view() {
                Some(e) => law_key_lists_every_known_extension(
                    file_name@,
                    stem.deep_view(),
                    extension.deep_view(),
                    e,
                ),
                None => law_key_falls_back_to_the_name_extension(
                    file_name@,
                    stem.deep_view(),
                    extension.deep_view(),
                ),
            }
        }
        FileObject { key, mimetype: media.text, url: None }
    }

    /// A file known only by its key: no media type, no URL.
    pub fn from_key(key: &str) -> (f: FileObject)
        ensures
            f.key@ == key@,
            f.mimetype@ == Seq::<char>::empty(),
            f.url is None,
    {
        FileObject { key: key.to_string(), mimetype: String::new(), url: None }
    }

    /// The file that `url` names: `url` (a full URL, or a path resolved against
    /// `https://example.com`) is resolved, its path without the surrounding `/`
    /// becomes the key, and its media type is guessed from that path. A URL that
    /// does not resolve is a server error.
    pub fn from_url(url: &str) -> (r: ServiceResult<FileObject>)
        ensures
            match url_resolve(resolution_base(), url@) {
                None => r == Err::<FileObject, ServiceError>(ServiceError::ServerError),
                Some((href, path)) => r matches Ok(f) && f.parts() == resolved_file(href, path),
            },
            r matches Ok(f) ==> (f.key@.len() > 0 ==> f.key@[0] != '/' && f.key@.last() != '/'),
    {
        Self::from_resolved(resolve_url("https://example.com", url))
    }

    /// The file that a resolved URL names, or a server error when it did not resolve.
    pub fn from_resolved(resolved: Result<ResolvedUrl, url::ParseError>) -> (r: ServiceResult<FileObject>)
        ensures
            match resolved {
                Err(_) => r == Err::<FileObject, ServiceError>(ServiceError::ServerError),
                Ok(u) => r matches Ok(f) && f.parts() == resolved_file(u.href@, u.path@),
            },
            r matches Ok(f) ==> (f.key@.len() > 0 ==> f.key@[0] != '/' && f.key@.last() != '/'),
    {
        match resolved {
            Err(_) => Err(ServiceError::ServerError),
            Ok(u) => {
                let media = match guess_media_type(u.path.as_str()) {
                    Some(m) => m,
                    None => octet_stream(),
                };
                let key = trim_matches_char(u.path.as_str(), '/');
                proof {
                    lemma_trim_char_clean(u.path@, '/');
                }
                Ok(FileObject { key, mimetype: media.text, url: Some(u.href) })
            },
        }
    }
}

/// When extensions are known for the media type, the key is the stem (the whole
/// name when there is none) followed by every known extension, in the order the
/// type lists them, each preceded by `.`: none is dropped, repeated or changed,
/// and the name's own extension plays no part.
pub proof fn law_key_lists_every_known_extension(
    file_name: Seq<char>,
    stem: Option<Seq<char>>,
    extension: Option<Seq<char>>,
    known: Seq<Seq<char>>,
)
    ensures
        join_with(key_parts(file_name, stem, extension, Some(known)), "."@) == match stem {
            Some(s) => s,
            None => file_name,
        } + each_after(known, "."@),
{
    let base = match stem {
        Some(s) => s,
        None => file_name,
    };
    assert(key_parts(file_name, stem, extension, Some(known)) =~= seq![base] + known);
    lemma_join_first_then_rest(base, known, "."@);
}

/// When no extension is known for the media type, the key is the stem (the whole
/// name when there is none), `.`, and the name's own extension (nothing when it has
/// none).
pub proof fn law_key_falls_back_to_the_name_extension(
    file_name: Seq<char>,
    stem: Option<Seq<char>>,
    extension: Option<Seq<char>>,
)
    ensures
        join_with(key_parts(file_name, stem, extension, None), "."@) == match stem {
            Some(s) => s,
            None => file_name,
        } + "."@ + match extension {
            Some(x) => x,
            None => Seq::<char>::empty(),
        },
{
    let base = match stem {
        Some(s) => s,
        None => file_name,
    };
    let ext = match extension {
        Some(x) => x,
        None => Seq::<char>::empty(),
    };
    let parts = key_parts(file_name, stem, extension, None);
    assert(parts =~= seq![base, ext]);
    assert(parts.drop_last() =~= seq![base]);
    assert(join_with(parts.drop_last(), "."@) == base);
    assert(join_with(parts, "."@) == join_with(parts.drop_last(), "."@) + "."@ + parts.last());
}

} // verus!
