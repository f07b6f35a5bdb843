//! Text of request targets and file paths, as sequences of characters.
//!
//! Paths use `/` as their only separator, on every platform.

use vstd::prelude::*;

verus! {

/// `url` without one leading `/`, if it has one.
pub open spec fn without_leading_slash(url: Seq<char>) -> Seq<char> {
    if url.len() > 0 && url[0] == '/' {
        url.skip(1)
    } else {
        url
    }
}

/// `text` holds two dots in a row.
pub open spec fn has_parent_marker(text: Seq<char>) -> bool {
    exists|i: int| 0 <= i < text.len() - 1 && #[trigger] text[i] == '.' && text[i + 1] == '.'
}

/// Number of separators that `text` begins with.
pub open spec fn leading_slashes(text: Seq<char>) -> nat
    decreases text.len(),
{
    if text.len() > 0 && text[0] == '/' {
        1 + leading_slashes(text.skip(1))
    } else {
        0
    }
}

/// `rel`, taken as a path relative to `base`, adjoined to `base`: the
/// separators that `rel` begins with are taken off, and one separator is
/// put between the two unless `base` is empty or ends in one. The result
/// never leaves `base`.
pub open spec fn joined(base: Seq<char>, rel: Seq<char>) -> Seq<char> {
    let tail = rel.skip(leading_slashes(rel) as int);
    if base.len() > 0 && base.last() != '/' {
        base + seq!['/'] + tail
    } else {
        base + tail
    }
}

/// Index of the last `c` in `text`, or -1 if there is none.
pub open spec fn last_index_of(text: Seq<char>, c: char) -> int
    decreases text.len(),
{
    if text.len() == 0 {
        -1
    } else if text.last() == c {
        text.len() - 1
    } else {
        last_index_of(text.drop_last(), c)
    }
}

/// The part of `path` behind its last `/`; all of it if it has none.
pub open spec fn final_segment(path: Seq<char>) -> Seq<char> {
    path.skip(last_index_of(path, '/') + 1)
}

/// The extension of `path`: what follows the last dot of its final
/// segment. There is none if the segment has no dot, if its only dot is
/// its first character, or if the segment is `..`.
pub open spec fn extension_of(path: Seq<char>) -> Option<Seq<char>> {
    let name = final_segment(path);
    let dot = last_index_of(name, '.');
    if dot <= 0 || name == seq!['.', '.'] {
        None
    } else {
        Some(name.skip(dot + 1))
    }
}

/// `last_index_of` finds an occurrence, and nothing occurs behind it.
pub proof fn lemma_last_index_of(text: Seq<char>, c: char)
    ensures
        -1 <= last_index_of(text, c) < text.len(),
        last_index_of(text, c) >= 0 ==> text[last_index_of(text, c)] == c,
        forall|j: int| last_index_of(text, c) < j < text.len() ==> text[j] != c,
    decreases text.len(),
{
    if text.len() > 0 && text.last() != c {
        let front = text.drop_last();
        lemma_last_index_of(front, c);
        assert forall|j: int| last_index_of(text, c) < j < text.len() implies text[j] != c by {
            if j < front.len() {
                assert(front[j] == text[j]);
            }
        }
    }
}

/// The characters of `s`, one by one.
pub fn to_chars(s: &str) -> (chars: Vec<char>)
    ensures
        chars@ == s@,
{
    broadcast use vstd::string::group_string_axioms;

    let mut chars: Vec<char> = Vec::new();
    for c in it: s.chars()
        invariant
            it.seq() == s@,
            chars@ == s@.take(it.index()),
    {
        chars.push(c);
    }
    chars
}

/// Strips a single leading `/` from a request target.
pub fn strip_leading_slash(url: &str) -> (rest: &str)
    ensures
        rest@ == without_leading_slash(url@),
{
    let n = url.unicode_len();
    if n > 0 && url.get_char(0) == '/' {
        url.substring_char(1, n)
    } else {
        url
    }
}

/// Tells whether `text` contains the substring `..`.
pub fn contains_parent_marker(text: &str) -> (found: bool)
    ensures
        found == has_parent_marker(text@),
{
    let chars = to_chars(text);
    let n = chars.len();
    let mut i: usize = 1;
    while i < n
        invariant
            1 <= i,
            n == chars@.len(),
            chars@ == text@,
            forall|j: int| 0 <= j < i - 1 ==> !(#[trigger] chars@[j] == '.' && chars@[j + 1] == '.'),
        decreases n - i,
    {
        if chars[i - 1] == '.' && chars[i] == '.' {
            assert(chars@[i - 1] == '.' && chars@[i - 1 + 1] == '.');
            return true;
        }
        i += 1;
    }
    false
}

/// `leading_slashes` counts a run of separators at the start of `text`,
/// and what follows the run does not begin with one.
pub proof fn lemma_leading_slashes(text: Seq<char>)
    ensures
        leading_slashes(text) <= text.len(),
        forall|i: int| 0 <= i < leading_slashes(text) ==> text[i] == '/',
        leading_slashes(text) < text.len() ==> text[leading_slashes(text) as int] != '/',
    decreases text.len(),
{
    if text.len() > 0 && text[0] == '/' {
        let rest = text.skip(1);
        lemma_leading_slashes(rest);
        assert forall|i: int| 0 <= i < leading_slashes(text) implies text[i] == '/' by {
            if i > 0 {
                assert(rest[i - 1] == text[i]);
            }
        }
        if leading_slashes(text) < text.len() {
            assert(rest[leading_slashes(rest) as int] == text[leading_slashes(text) as int]);
        }
    }
}

/// A joined path begins with its base, and what was adjoined is relative:
/// it does not begin with a separator.
pub proof fn lemma_joined_stays_under_base(base: Seq<char>, rel: Seq<char>)
    ensures
        base.is_prefix_of(joined(base, rel)),
        leading_slashes(rel) <= rel.len(),
        leading_slashes(rel.skip(leading_slashes(rel) as int)) == 0,
{
    lemma_leading_slashes(rel);
    let tail = rel.skip(leading_slashes(rel) as int);
    if base.len() > 0 && base.last() != '/' {
        assert((base + seq!['/'] + tail).subrange(0, base.len() as int) =~= base);
    } else {
        assert((base + tail).subrange(0, base.len() as int) =~= base);
    }
}

/// Adjoins `rel` to `base` as a relative path.
pub fn join(base: &str, rel: &str) -> (path: String)
    ensures
        path@ == joined(base@, rel@),
        base@.is_prefix_of(path@),
{
    let base_chars = to_chars(base);
    let rel_chars = to_chars(rel);
    let rel_len = rel_chars.len();
    let mut skipped: usize = 0;
    assert(rel_chars@.skip(0) == rel_chars@);
    while skipped < rel_len && rel_chars[skipped] == '/'
        invariant
            skipped <= rel_len,
            rel_len == rel_chars@.len(),
            leading_slashes(rel_chars@) == skipped + leading_slashes(rel_chars@.skip(skipped as int)),
        decreases rel_len - skipped,
    {
        assert(rel_chars@.skip(skipped as int).skip(1) == rel_chars@.skip(skipped + 1));
        skipped += 1;
    }
    assert(leading_slashes(rel_chars@.skip(skipped as int)) == 0) by {
        if skipped < rel_len {
            assert(rel_chars@.skip(skipped as int)[0] == rel_chars@[skipped as int]);
        }
    }
    let tail = rel.substring_char(skipped, rel_len);
    assert(tail@ == rel@.skip(leading_slashes(rel@) as int));
    let mut path = base.to_owned();
    let n = base_chars.len();
    if n > 0 && base_chars[n - 1] != '/' {
        proof {
            reveal_strlit("/");
        }
        assert("/"@ == seq!['/']);
        path.append("/");
    }
    path.append(tail);
    proof {
        lemma_joined_stays_under_base(base@, rel@);
    }
    path
}

/// Index of the last `c` among the first `end` characters, if any.
fn rfind(chars: &Vec<char>, end: usize, c: char) -> (found: Option<usize>)
    requires
        end <= chars@.len(),
    ensures
        match found {
            Some(i) => i < end && i == last_index_of(chars@.take(end as int), c),
            None => last_index_of(chars@.take(end as int), c) == -1,
        },
{
    let mut i: usize = end;
    while i > 0
        invariant
            i <= end <= chars@.len(),
            last_index_of(chars@.take(end as int), c) == last_index_of(chars@.take(i as int), c),
        decreases i,
    {
        assert(chars@.take(i as int).drop_last() == chars@.take(i - 1));
        if chars[i - 1] == c {
            return Some(i - 1);
        }
        i -= 1;
    }
    None
}

/// Extracts the extension of a file path, without its dot.
pub fn extension(path: &str) -> (ext: Option<String>)
    ensures
        match ext {
            Some(e) => extension_of(path@) == Some(e@),
            None => extension_of(path@) is None,
        },
{
    let chars = to_chars(path);
    let n = chars.len();
    assert(chars@.take(n as int) == chars@);
    let start: usize = match rfind(&chars, n, '/') {
        Some(slash) => slash + 1,
        None => 0,
    };
    let name = path.substring_char(start, n);
    let name_chars = to_chars(name);
    let len = name_chars.len();
    assert(name_chars@ == final_segment(path@));
    assert(name_chars@.take(len as int) == name_chars@);
    match rfind(&name_chars, len, '.') {
        None => None,
        Some(dot) => {
            if dot == 0 || (len == 2 && name_chars[0] == '.') {
                proof {
                    lemma_last_index_of(name_chars@, '.');
                }
                assert(dot != 0 ==> name_chars@ == seq!['.', '.']);
                None
            } else {
                let e = name.substring_char(dot + 1, len);
                Some(e.to_owned())
            }
        },
    }
}

} // verus!
