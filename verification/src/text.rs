//! Character-level string operations used to build keys and URLs, each proved
//! against a spec function on `Seq<char>`.

use vstd::prelude::*;

verus! {

/// `s` with every trailing `c` removed.
pub open spec fn trim_end_char(s: Seq<char>, c: char) -> Seq<char>
    decreases s.len(),
{
    if s.len() > 0 && s.last() == c {
        trim_end_char(s.drop_last(), c)
    } else {
        s
    }
}

/// `s` with every leading `c` removed.
pub open spec fn trim_start_char(s: Seq<char>, c: char) -> Seq<char>
    decreases s.len(),
{
    if s.len() > 0 && s[0] == c {
        trim_start_char(s.drop_first(), c)
    } else {
        s
    }
}

/// `s` with every leading and trailing `c` removed.
pub open spec fn trim_char(s: Seq<char>, c: char) -> Seq<char> {
    trim_start_char(trim_end_char(s, c), c)
}

/// What remains of `s` once `prefix` is taken off its front, or `s` itself when it
/// does not start with `prefix`.
pub open spec fn strip_prefix_or_keep(s: Seq<char>, prefix: Seq<char>) -> Seq<char> {
    if prefix.is_prefix_of(s) {
        s.skip(prefix.len() as int)
    } else {
        s
    }
}

/// The parts written one after another with `sep` between each two of them.
pub open spec fn join_with(parts: Seq<Seq<char>>, sep: Seq<char>) -> Seq<char>
    decreases parts.len(),
{
    if parts.len() == 0 {
        Seq::empty()
    } else if parts.len() == 1 {
        parts[0]
    } else {
        join_with(parts.drop_last(), sep) + sep + parts.last()
    }
}

/// Trimming never leaves the trimmed character at the end.
pub proof fn lemma_trim_end_char_ends_clean(s: Seq<char>, c: char)
    ensures
        trim_end_char(s, c).len() > 0 ==> trim_end_char(s, c).last() != c,
        trim_end_char(s, c).is_prefix_of(s),
    decreases s.len(),
{
    if s.len() > 0 && s.last() == c {
        lemma_trim_end_char_ends_clean(s.drop_last(), c);
    }
}

/// Trimming never leaves the trimmed character at the front.
pub proof fn lemma_trim_start_char_starts_clean(s: Seq<char>, c: char)
    ensures
        trim_start_char(s, c).len() > 0 ==> trim_start_char(s, c)[0] != c,
        trim_start_char(s, c).len() > 0 ==> trim_start_char(s, c).last() == s.last(),
        trim_start_char(s, c).len() <= s.len(),
    decreases s.len(),
{
    if s.len() > 0 && s[0] == c {
        lemma_trim_start_char_starts_clean(s.drop_first(), c);
    }
}

/// Each part preceded by `sep`, written one after another.
pub open spec fn each_after(parts: Seq<Seq<char>>, sep: Seq<char>) -> Seq<char> {
    parts.map_values(|e: Seq<char>| sep + e).flatten()
}

/// Joining a first part with further parts writes the first part and then every
/// further part, in order, each preceded by the separator: none is dropped,
/// repeated or changed.
pub proof fn lemma_join_first_then_rest(first: Seq<char>, rest: Seq<Seq<char>>, sep: Seq<char>)
    ensures
        join_with(seq![first] + rest, sep) == first + each_after(rest, sep),
    decreases rest.len(),
{
    let parts = seq![first] + rest;
    if rest.len() == 0 {
        assert(parts =~= seq![first]);
        assert(rest.map_values(|e: Seq<char>| sep + e) =~= Seq::<Seq<char>>::empty());
        assert(first + each_after(rest, sep) =~= first);
    } else {
        let shorter = rest.drop_last();
        lemma_join_first_then_rest(first, shorter, sep);
        assert(parts.drop_last() =~= seq![first] + shorter);
        assert(parts.last() == rest.last());
        let mapped = shorter.map_values(|e: Seq<char>| sep + e);
        assert(rest.map_values(|e: Seq<char>| sep + e) =~= mapped.push(sep + rest.last()));
        mapped.lemma_flatten_push(sep + rest.last());
        assert(join_with(parts, sep) == join_with(parts.drop_last(), sep) + sep + parts.last());
        assert(join_with(parts, sep) =~= first + each_after(rest, sep));
    }
}

/// Trimming both ends leaves `c` at neither end.
pub proof fn lemma_trim_char_clean(s: Seq<char>, c: char)
    ensures
        trim_char(s, c).len() > 0 ==> trim_char(s, c)[0] != c && trim_char(s, c).last() != c,
{
    lemma_trim_end_char_ends_clean(s, c);
    lemma_trim_start_char_starts_clean(trim_end_char(s, c), c);
}

/// Trimming twice trims no more than trimming once.
pub proof fn lemma_trim_end_char_idempotent(s: Seq<char>, c: char)
    ensures
        trim_end_char(trim_end_char(s, c), c) == trim_end_char(s, c),
{
    lemma_trim_end_char_ends_clean(s, c);
}

/// The joined text starts with the first part.
pub proof fn lemma_join_starts_with_first(parts: Seq<Seq<char>>, sep: Seq<char>)
    requires
        parts.len() > 0,
    ensures
        parts[0].is_prefix_of(join_with(parts, sep)),
    decreases parts.len(),
{
    if parts.len() > 1 {
        lemma_join_starts_with_first(parts.drop_last(), sep);
        let prev = join_with(parts.drop_last(), sep);
        assert(join_with(parts, sep) == prev + sep + parts.last());
        assert forall|i: int| 0 <= i < parts[0].len() implies join_with(parts, sep)[i] == parts[0][i] by {
            assert((prev + sep + parts.last())[i] == prev[i]);
        }
    }
}

/// How many characters of `s` remain once every trailing `c` is removed.
fn kept_before_trailing(s: &str, c: char) -> (j: usize)
    ensures
        j <= s@.len(),
        s@.take(j as int) == trim_end_char(s@, c),
{
    let n = s.unicode_len();
    let mut j: usize = n;
    assert(s@.take(n as int) =~= s@);
    while j > 0 && s.get_char(j - 1) == c
        invariant
            n == s@.len(),
            j <= n,
            trim_end_char(s@, c) == trim_end_char(s@.take(j as int), c),
        decreases j,
    {
        assert(s@.take(j as int).drop_last() =~= s@.take(j - 1));
        j = j - 1;
    }
    assert(j > 0 ==> s@.take(j as int).last() == s@[j - 1]);
    j
}

/// `s` with every trailing `c` removed.
pub fn trim_end_matches_char(s: &str, c: char) -> (r: String)
    ensures
        r@ == trim_end_char(s@, c),
{
    let j = kept_before_trailing(s, c);
    let kept = s.substring_char(0, j);
    assert(kept@ =~= s@.take(j as int));
    kept.to_string()
}

/// `s` with every leading and trailing `c` removed.
pub fn trim_matches_char(s: &str, c: char) -> (r: String)
    ensures
        r@ == trim_char(s@, c),
{
    let n = s.unicode_len();
    let j = kept_before_trailing(s, c);
    let mut i: usize = 0;
    while i < j && s.get_char(i) == c
        invariant
            n == s@.len(),
            i <= j <= n,
            trim_char(s@, c) == trim_start_char(s@.subrange(i as int, j as int), c),
        decreases j - i,
    {
        assert(s@.subrange(i as int, j as int).drop_first() =~= s@.subrange(i + 1, j as int));
        i = i + 1;
    }
    assert(i < j ==> s@.subrange(i as int, j as int)[0] == s@[i as int]);
    let kept = s.substring_char(i, j);
    kept.to_string()
}

/// Whether the two strings hold the same characters.
pub fn str_equals(a: &str, b: &str) -> (r: bool)
    ensures
        r == (a@ == b@),
{
    let n = a.unicode_len();
    if n != b.unicode_len() {
        return false;
    }
    let mut i: usize = 0;
    while i < n
        invariant
            n == a@.len(),
            n == b@.len(),
            i <= n,
            forall|k: int| 0 <= k < i ==> a@[k] == b@[k],
        decreases n - i,
    {
        if a.get_char(i) != b.get_char(i) {
            return false;
        }
        i = i + 1;
    }
    assert(a@ =~= b@);
    true
}

/// Whether `s` starts with `prefix`.
pub fn starts_with_str(s: &str, prefix: &str) -> (r: bool)
    ensures
        r == prefix@.is_prefix_of(s@),
{
    let n = s.unicode_len();
    let m = prefix.unicode_len();
    if m > n {
        return false;
    }
    let mut i: usize = 0;
    while i < m
        invariant
            n == s@.len(),
            m == prefix@.len(),
            m <= n,
            i <= m,
            forall|k: int| 0 <= k < i ==> prefix@[k] == s@[k],
        decreases m - i,
    {
        if s.get_char(i) != prefix.get_char(i) {
            return false;
        }
        i = i + 1;
    }
    true
}

/// `s` without `prefix` when it starts with it, else `s` unchanged.
pub fn strip_prefix_or_whole(s: &str, prefix: &str) -> (r: String)
    ensures
        r@ == strip_prefix_or_keep(s@, prefix@),
{
    if starts_with_str(s, prefix) {
        let rest = s.substring_char(prefix.unicode_len(), s.unicode_len());
        assert(rest@ =~= s@.skip(prefix@.len() as int));
        rest.to_string()
    } else {
        s.to_string()
    }
}

/// The strings of `parts` joined with `sep` between each two of them.
pub fn join_strings(parts: &Vec<String>, sep: &str) -> (r: String)
    ensures
        r@ == join_with(parts.deep_view(), sep@),
{
    let mut out = String::new();
    let n = parts.len();
    let ghost all = parts.deep_view();
    let mut i: usize = 0;
    while i < n
        invariant
            n == parts@.len(),
            all == parts.deep_view(),
            i <= n,
            out@ == join_with(all.take(i as int), sep@),
        decreases n - i,
    {
        assert(all.take(i + 1).drop_last() =~= all.take(i as int));
        assert(all.take(i + 1).last() == parts[i as int]@);
        if i == 0 {
            out.append(parts[i].as_str());
            assert(all.take(1)[0] == parts[0]@);
        } else {
            out.append(sep);
            out.append(parts[i].as_str());
        }
        i = i + 1;
    }
    assert(all.take(n as int) =~= all);
    out
}

} // verus!
