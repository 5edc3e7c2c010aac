//! The file-name parts of a path, as `std::path::Path` splits them.

use vstd::prelude::*;

verus! {

/// The final component of `path`, as `std::path::Path::file_name` finds it
/// (`None` when the path ends in `..` or has no component).
pub uninterp spec fn path_file_name(path: Seq<char>) -> Option<Seq<char>>;

/// The index of the last `c` in `s`, or `-1` when `s` holds none.
pub open spec fn last_index_of(s: Seq<char>, c: char) -> int
    decreases s.len(),
{
    if s.len() == 0 {
        -1
    } else if s.last() == c {
        s.len() - 1
    } else {
        last_index_of(s.drop_last(), c)
    }
}

/// The stem of a file name, as the standard library documents it: the whole name
/// when it holds no `.` or only a leading one, otherwise what comes before its last
/// `.`; nothing when there is no file name.
pub open spec fn stem_of(name: Option<Seq<char>>) -> Option<Seq<char>> {
    match name {
        None => None,
        Some(n) => {
            let i = last_index_of(n, '.');
            if i <= 0 {
                Some(n)
            } else {
                Some(n.take(i))
            }
        },
    }
}

/// The extension of a file name, as the standard library documents it: what comes
/// after its last `.`; nothing when there is no file name, no `.` in it, or only a
/// leading one.
pub open spec fn extension_of(name: Option<Seq<char>>) -> Option<Seq<char>> {
    match name {
        None => None,
        Some(n) => {
            let i = last_index_of(n, '.');
            if i <= 0 {
                None
            } else {
                Some(n.skip(i + 1))
            }
        },
    }
}

/// Calls `std::path::Path::file_stem` on `path`. Its documentation defines the
/// stem from the file name as `stem_of` states; the file name itself is left
/// to `path_file_name`, whose exact splitting differs between platforms. On every
/// platform `/` separates components, so a stem never holds one. A stem cut from a
/// `str` is always valid text.
#[verifier::external_body]
pub(crate) fn file_stem(path: &str) -> (r: Option<String>)
    ensures
        r.deep_view() == stem_of(path_file_name(path@)),
        r matches Some(s) ==> !s@.contains('/'),
{
    std::path::Path::new(path).file_stem().and_then(|s| s.to_str()).map(|s| s.to_string())
}

/// Calls `std::path::Path::extension` on `path`. Its documentation defines the
/// extension from the file name as `extension_of` states; the file name itself is
/// left to `path_file_name`. On every platform `/` separates components, so an
/// extension never holds one.
#[verifier::external_body]
pub(crate) fn file_extension(path: &str) -> (r: Option<String>)
    ensures
        r.deep_view() == extension_of(path_file_name(path@)),
        r matches Some(s) ==> !s@.contains('/'),
{
    std::path::Path::new(path).extension().and_then(|s| s.to_str()).map(|s| s.to_string())
}

} // verus!
