//! Texts as sequences of characters: trimming, and splitting at commas.
//!
//! Two functions of the standard library are wrapped in this file, the
//! lower-casing of a text and the extension of a path; their contracts are
//! believed, not proved.

use vstd::prelude::*;

verus! {

/// Whether a character is white space: whether it has the property
/// `White_Space` of the Unicode character database.
pub open spec fn is_whitespace(c: char) -> bool {
    let n = c as u32;
    ||| 0x09 <= n <= 0x0D
    ||| n == 0x20
    ||| n == 0x85
    ||| n == 0xA0
    ||| n == 0x1680
    ||| 0x2000 <= n <= 0x200A
    ||| n == 0x2028
    ||| n == 0x2029
    ||| n == 0x202F
    ||| n == 0x205F
    ||| n == 0x3000
}

/// The lower-case form of a text, as `str::to_lowercase` has it.
pub uninterp spec fn lowercase(s: Seq<char>) -> Seq<char>;

/// Whether a character is white space.
pub fn is_white_space(c: char) -> (b: bool)
    ensures
        b == is_whitespace(c),
{
    let n: u32 = c as u32;
    (0x09 <= n && n <= 0x0D) || n == 0x20 || n == 0x85 || n == 0xA0 || n == 0x1680 || (0x2000 <= n
        && n <= 0x200A) || n == 0x2028 || n == 0x2029 || n == 0x202F || n == 0x205F || n == 0x3000
}

/// `str::to_lowercase`.
#[verifier::external_body]
pub(crate) fn str_to_lowercase(s: &str) -> (lower: String)
    ensures
        lower@ == lowercase(s@),
{
    s.to_lowercase()
}

/// The texts of a list of strings.
pub open spec fn texts(v: Seq<String>) -> Seq<Seq<char>> {
    Seq::new(v.len(), |i: int| v[i]@)
}

/// The text of a string that may be absent.
pub open spec fn text_of(s: Option<String>) -> Option<Seq<char>> {
    match s {
        Some(t) => Some(t@),
        None => None,
    }
}

/// Whether a string holds the given text.
pub(crate) fn text_is(s: &String, literal: &str) -> (b: bool)
    ensures
        b == (s@ == literal@),
{
    *s == String::from_str(literal)
}

/// `e` can be the extension of the path `s`: it stands in `s` right after a
/// dot, and holds neither a dot nor a slash.
pub open spec fn is_extension_of(e: Seq<char>, s: Seq<char>) -> bool {
    &&& !e.contains('.')
    &&& !e.contains('/')
    &&& exists|at: int|
        0 < at && at + e.len() <= s.len() && s[at - 1] == '.' && #[trigger] s.subrange(
            at,
            at + e.len(),
        ) == e
}

/// The path is a plain file name: it holds no separator and no drive, and is
/// not the name of the parent directory.
pub open spec fn is_plain_name(s: Seq<char>) -> bool {
    &&& !s.contains('/')
    &&& !s.contains('\\')
    &&& !s.contains(':')
    &&& s != ".."@
}

/// The position of the last dot of a text, or -1 where it has none.
pub open spec fn last_dot(s: Seq<char>) -> int
    decreases s.len(),
{
    if s.len() == 0 {
        -1
    } else if s.last() == '.' {
        s.len() - 1
    } else {
        last_dot(s.drop_last())
    }
}

/// The extension of a file name: the text after its last dot, or none where
/// it has no dot or its last dot is its first character.
pub open spec fn name_extension(s: Seq<char>) -> Option<Seq<char>> {
    if last_dot(s) <= 0 {
        None
    } else {
        Some(s.skip(last_dot(s) + 1))
    }
}

/// `Path::extension`: the part of the path's file name after its last dot, if
/// the file name has one that is not its first character. How a path divides
/// into components depends on the platform, so of a path with separators or
/// a drive the contract says only what holds of an extension on every
/// platform. A plain file name is its own file name everywhere, and has the
/// extension that `name_extension` says.
#[verifier::external_body]
pub(crate) fn path_extension(s: &str) -> (ext: Option<String>)
    ensures
        ext matches Some(e) ==> is_extension_of(e@, s@),
        is_plain_name(s@) ==> text_of(ext) == name_extension(s@),
{
    std::path::Path::new(s).extension().and_then(|e| e.to_str()).map(|e| e.to_owned())
}

/// The number of white-space characters at the start of a text.
pub open spec fn leading_space(s: Seq<char>) -> nat
    decreases s.len(),
{
    if s.len() > 0 && is_whitespace(s[0]) {
        1 + leading_space(s.skip(1))
    } else {
        0
    }
}

/// The number of white-space characters at the end of a text.
pub open spec fn trailing_space(s: Seq<char>) -> nat
    decreases s.len(),
{
    if s.len() > 0 && is_whitespace(s.last()) {
        1 + trailing_space(s.drop_last())
    } else {
        0
    }
}

/// The text without the white space at its start and at its end.
pub open spec fn trimmed(s: Seq<char>) -> Seq<char> {
    let rest = s.skip(leading_space(s) as int);
    rest.take(rest.len() - trailing_space(rest))
}

/// The position of the first comma of a text, or its length where it has none.
pub open spec fn comma_at(s: Seq<char>) -> nat
    decreases s.len(),
{
    if s.len() > 0 && s[0] != ',' {
        1 + comma_at(s.skip(1))
    } else {
        0
    }
}

/// The parts of a text between its commas, in order: one more than it has
/// commas.
pub open spec fn pieces(s: Seq<char>) -> Seq<Seq<char>>
    decreases s.len(),
{
    let at = comma_at(s) as int;
    if at < s.len() {
        seq![s.take(at)] + pieces(s.skip(at + 1))
    } else {
        seq![s]
    }
}

/// The texts, each trimmed, without those that are empty after trimming.
pub open spec fn kept(parts: Seq<Seq<char>>) -> Seq<Seq<char>>
    decreases parts.len(),
{
    if parts.len() == 0 {
        Seq::empty()
    } else {
        let first = trimmed(parts[0]);
        if first.len() > 0 {
            seq![first] + kept(parts.skip(1))
        } else {
            kept(parts.skip(1))
        }
    }
}

/// The white space at the start of a text ends at the first character that is
/// none.
pub proof fn lemma_leading_space(s: Seq<char>, n: int)
    requires
        0 <= n <= s.len(),
        forall|j: int| 0 <= j < n ==> is_whitespace(#[trigger] s[j]),
        n == s.len() || !is_whitespace(s[n]),
    ensures
        leading_space(s) == n,
    decreases n,
{
    if n > 0 {
        assert(is_whitespace(s[0]));
        let rest = s.skip(1);
        assert forall|j: int| 0 <= j < n - 1 implies is_whitespace(#[trigger] rest[j]) by {
            assert(rest[j] == s[j + 1]);
        }
        lemma_leading_space(rest, n - 1);
    }
}

/// The white space at the end of a text starts after the last character that
/// is none.
pub proof fn lemma_trailing_space(s: Seq<char>, n: int)
    requires
        0 <= n <= s.len(),
        forall|j: int| s.len() - n <= j < s.len() ==> is_whitespace(#[trigger] s[j]),
        n == s.len() || !is_whitespace(s[s.len() - n - 1]),
    ensures
        trailing_space(s) == n,
    decreases n,
{
    if n > 0 {
        assert(is_whitespace(s[s.len() - 1]));
        let rest = s.drop_last();
        assert forall|j: int| rest.len() - (n - 1) <= j < rest.len() implies is_whitespace(
            #[trigger] rest[j],
        ) by {
            assert(rest[j] == s[j]);
        }
        lemma_trailing_space(rest, n - 1);
    }
}

/// The first comma of a text stands where no comma stands before.
pub proof fn lemma_comma_at(s: Seq<char>, n: int)
    requires
        0 <= n <= s.len(),
        forall|j: int| 0 <= j < n ==> #[trigger] s[j] != ',',
        n == s.len() || s[n] == ',',
    ensures
        comma_at(s) == n,
    decreases n,
{
    if n > 0 {
        assert(s[0] != ',');
        let rest = s.skip(1);
        assert forall|j: int| 0 <= j < n - 1 implies #[trigger] rest[j] != ',' by {
            assert(rest[j] == s[j + 1]);
        }
        lemma_comma_at(rest, n - 1);
    }
}

/// The position of the first comma at or after `from`, or the length of the
/// text where none follows.
pub(crate) fn find_comma(s: &str, from: usize) -> (at: usize)
    requires
        from <= s@.len(),
    ensures
        from <= at <= s@.len(),
        at - from == comma_at(s@.skip(from as int)),
{
    let len: usize = s.unicode_len();
    let mut at: usize = from;
    while at < len && s.get_char(at) != ','
        invariant
            len == s@.len(),
            from <= at <= len,
            forall|j: int| from <= j < at ==> #[trigger] s@[j] != ',',
        decreases len - at,
    {
        at += 1;
    }
    proof {
        let rest = s@.skip(from as int);
        assert forall|j: int| 0 <= j < at - from implies #[trigger] rest[j] != ',' by {
            assert(rest[j] == s@[from + j]);
        }
        lemma_comma_at(rest, at - from);
    }
    at
}

/// The characters `[from, to)` of a text, trimmed.
pub(crate) fn trim_range(s: &str, from: usize, to: usize) -> (part: String)
    requires
        from <= to <= s@.len(),
    ensures
        part@ == trimmed(s@.subrange(from as int, to as int)),
{
    let ghost whole = s@.subrange(from as int, to as int);
    let mut start: usize = from;
    while start < to && is_white_space(s.get_char(start))
        invariant
            from <= start <= to <= s@.len(),
            forall|j: int| from <= j < start ==> is_whitespace(#[trigger] s@[j]),
        decreases to - start,
    {
        start += 1;
    }
    let mut end: usize = to;
    while end > start && is_white_space(s.get_char(end - 1))
        invariant
            start <= end <= to <= s@.len(),
            forall|j: int| end <= j < to ==> is_whitespace(#[trigger] s@[j]),
        decreases end - start,
    {
        end -= 1;
    }
    let part = s.substring_char(start, end).to_owned();
    proof {
        assert forall|j: int| 0 <= j < start - from implies is_whitespace(#[trigger] whole[j]) by {
            assert(whole[j] == s@[from + j]);
        }
        lemma_leading_space(whole, start - from);
        let rest = whole.skip(start - from);
        assert(rest == s@.subrange(start as int, to as int));
        assert forall|j: int| rest.len() - (to - end) <= j < rest.len() implies is_whitespace(
            #[trigger] rest[j],
        ) by {
            assert(rest[j] == s@[start + j]);
        }
        if end > start {
            assert(rest[rest.len() - (to - end) - 1] == s@[end - 1]);
        }
        lemma_trailing_space(rest, to - end);
        assert(part@ == rest.take(rest.len() - (to - end)));
    }
    part
}

} // verus!
