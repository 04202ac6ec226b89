//! The text of a path: white space, the separator `::`, splitting and
//! joining.

use vstd::prelude::*;
use vstd::string::*;

verus! {

/// Whether `c` is white space: one of the 25 characters with Unicode's
/// `White_Space` property.
pub open spec fn is_whitespace(c: char) -> bool {
    let code = c as u32;
    ||| 0x09 <= code <= 0x0D
    ||| code == 0x20
    ||| code == 0x85
    ||| code == 0xA0
    ||| code == 0x1680
    ||| 0x2000 <= code <= 0x200A
    ||| code == 0x2028
    ||| code == 0x2029
    ||| code == 0x202F
    ||| code == 0x205F
    ||| code == 0x3000
}

/// Whether `text` holds nothing but white space; the empty text does.
pub open spec fn is_blank(text: Seq<char>) -> bool {
    forall|i: int| 0 <= i < text.len() ==> is_whitespace(#[trigger] text[i])
}

/// Whether the separator `::` stands in `text` at `at`.
pub open spec fn separator_at(text: Seq<char>, at: int) -> bool {
    0 <= at && at + 1 < text.len() && text[at] == ':' && text[at + 1] == ':'
}

/// Where the leftmost separator stands in `text`, if there is one.
pub open spec fn first_separator(text: Seq<char>) -> Option<int>
    decreases text.len(),
{
    if text.len() < 2 {
        None
    } else if text[0] == ':' && text[1] == ':' {
        Some(0)
    } else {
        match first_separator(text.drop_first()) {
            Some(at) => Some(at + 1),
            None => None,
        }
    }
}

/// The pieces of `text` between its separators, from left to right. Each
/// separator is the leftmost one in what the pieces before it left over, so
/// `a:::b` falls into `a` and `:b`. A text without a separator is one piece,
/// the empty text too.
pub open spec fn split_path(text: Seq<char>) -> Seq<Seq<char>>
    decreases text.len(),
    via split_path_decreases
{
    match first_separator(text) {
        Some(at) => seq![text.take(at)] + split_path(text.skip(at + 2)),
        None => seq![text],
    }
}

#[via_fn]
proof fn split_path_decreases(text: Seq<char>) {
    lemma_first_separator(text);
}

/// The pieces with a separator between each two of them.
pub open spec fn join_path(parts: Seq<Seq<char>>) -> Seq<char>
    decreases parts.len(),
{
    if parts.len() == 0 {
        Seq::empty()
    } else if parts.len() == 1 {
        parts[0]
    } else {
        join_path(parts.drop_last()) + seq![':', ':'] + parts.last()
    }
}

/// [`first_separator`] finds a separator with none before it, or there is
/// none at all.
pub proof fn lemma_first_separator(text: Seq<char>)
    ensures
        match first_separator(text) {
            Some(at) => separator_at(text, at) && forall|j: int|
                0 <= j < at ==> !separator_at(text, j),
            None => forall|j: int| !separator_at(text, j),
        },
    decreases text.len(),
{
    if text.len() >= 2 && !(text[0] == ':' && text[1] == ':') {
        let rest = text.drop_first();
        lemma_first_separator(rest);
        assert forall|j: int| separator_at(text, j) implies separator_at(rest, j - 1) by {
            assert(rest[j - 1] == text[j]);
            assert(rest[j] == text[j + 1]);
        }
        match first_separator(rest) {
            Some(at) => {
                assert(rest[at] == text[at + 1]);
                assert(rest[at + 1] == text[at + 2]);
            },
            None => {},
        }
    }
}

/// A separator with none before it is the one that [`first_separator`]
/// finds.
pub proof fn lemma_first_separator_is(text: Seq<char>, at: int)
    requires
        separator_at(text, at),
        forall|j: int| 0 <= j < at ==> !separator_at(text, j),
    ensures
        first_separator(text) == Some(at),
{
    lemma_first_separator(text);
}

/// In a text without a separator [`first_separator`] finds none.
pub proof fn lemma_no_separator(text: Seq<char>)
    requires
        forall|j: int| !separator_at(text, j),
    ensures
        first_separator(text) is None,
{
    lemma_first_separator(text);
}

/// With two pieces or more, the joined text is the first piece, a separator,
/// and the other pieces joined.
pub proof fn lemma_join_path_first(parts: Seq<Seq<char>>)
    requires
        parts.len() >= 2,
    ensures
        join_path(parts) == parts[0] + seq![':', ':'] + join_path(parts.drop_first()),
    decreases parts.len(),
{
    let init = parts.drop_last();
    let tail = parts.drop_first();
    if parts.len() == 2 {
        assert(join_path(init) == parts[0]);
        assert(join_path(tail) == parts[1]);
    } else {
        lemma_join_path_first(init);
        assert(tail.drop_last() =~= init.drop_first());
        assert(join_path(parts) =~= parts[0] + seq![':', ':'] + join_path(tail));
    }
}

/// Pieces without a colon come back when their joined text is split.
pub proof fn lemma_split_join(parts: Seq<Seq<char>>)
    requires
        parts.len() > 0,
        forall|i: int, j: int|
            0 <= i < parts.len() && 0 <= j < parts[i].len() ==> (#[trigger] parts[i][j]) != ':',
    ensures
        split_path(join_path(parts)) == parts,
    decreases parts.len(),
{
    let text = join_path(parts);
    let first = parts[0];
    if parts.len() == 1 {
        assert forall|j: int| !separator_at(text, j) by {
            if separator_at(text, j) {
                assert(parts[0][j] == ':');
            }
        }
        lemma_no_separator(text);
        assert(split_path(text) =~= parts);
    } else {
        let tail = parts.drop_first();
        lemma_join_path_first(parts);
        let at = first.len() as int;
        assert(text[at] == ':');
        assert(text[at + 1] == ':');
        assert forall|j: int| 0 <= j < at implies !separator_at(text, j) by {
            assert(text[j] == parts[0][j]);
        }
        lemma_first_separator_is(text, at);
        assert(text.take(at) =~= first);
        assert(text.skip(at + 2) =~= join_path(tail));
        assert forall|i: int, j: int|
            0 <= i < tail.len() && 0 <= j < tail[i].len() implies (#[trigger] tail[i][j])
            != ':' by {
            assert(tail[i][j] == parts[i + 1][j]);
        }
        lemma_split_join(tail);
        assert(split_path(text) =~= parts);
    }
}

/// Whether `c` is white space.
pub fn char_is_whitespace(c: char) -> (yes: bool)
    ensures
        yes == is_whitespace(c),
{
    let code: u32 = c as u32;
    (0x09 <= code && code <= 0x0D) || code == 0x20 || code == 0x85 || code == 0xA0 || code
        == 0x1680 || (0x2000 <= code && code <= 0x200A) || code == 0x2028 || code == 0x2029
        || code == 0x202F || code == 0x205F || code == 0x3000
}

/// Whether `text` holds nothing but white space.
pub fn str_is_blank(text: &str) -> (yes: bool)
    ensures
        yes == is_blank(text@),
{
    for c in it: text.chars()
        invariant
            it.seq() == text@,
            forall|j: int| 0 <= j < it.index() ==> is_whitespace(#[trigger] text@[j]),
    {
        if !char_is_whitespace(c) {
            return false;
        }
    }
    true
}

/// The characters of `text`, one by one.
pub fn chars_of(text: &str) -> (chars: Vec<char>)
    ensures
        chars@ == text@,
{
    let mut chars: Vec<char> = Vec::new();
    for c in it: text.chars()
        invariant
            it.seq() == text@,
            chars@ == text@.take(it.index() as int),
    {
        assert(text@.take(it.index() + 1) =~= text@.take(it.index() as int).push(c));
        chars.push(c);
    }
    assert(text@.take(text@.len() as int) =~= text@);
    chars
}

/// The views of a list of texts, one for one.
pub open spec fn strs_view(parts: Seq<&str>) -> Seq<Seq<char>> {
    Seq::new(parts.len(), |i: int| parts[i]@)
}

/// Splits `text` at each separator `::`.
pub fn split_on_separator<'a>(text: &'a str) -> (parts: Vec<&'a str>)
    ensures
        strs_view(parts@) == split_path(text@),
{
    let chars = chars_of(text);
    let len: usize = chars.len();
    let mut parts: Vec<&'a str> = Vec::new();
    let mut start: usize = 0;
    let mut i: usize = 0;
    proof {
        assert(text@.skip(0) =~= text@);
        assert(strs_view(parts@) + split_path(text@) =~= split_path(text@));
    }
    while i < len
        invariant
            len == text@.len(),
            chars@ == text@,
            start <= i <= len,
            split_path(text@) == strs_view(parts@) + split_path(text@.skip(start as int)),
            forall|j: int| start <= j < i ==> !separator_at(text@, j),
        decreases len - i,
    {
        if i + 1 < len && chars[i] == ':' && chars[i + 1] == ':' {
            let part = text.substring_char(start, i);
            proof {
                let rest = text@.skip(start as int);
                assert forall|j: int| 0 <= j < i - start implies !separator_at(rest, j) by {
                    assert(rest[j] == text@[j + start]);
                    assert(rest[j + 1] == text@[j + 1 + start]);
                    assert(!separator_at(text@, j + start));
                }
                assert(rest[i - start] == text@[i as int]);
                assert(rest[i - start + 1] == text@[i + 1]);
                lemma_first_separator_is(rest, i - start);
                assert(rest.take(i - start) =~= part@);
                assert(rest.skip(i - start + 2) =~= text@.skip(i + 2));
                assert(strs_view(parts@.push(part)) =~= strs_view(parts@) + seq![part@]);
            }
            parts.push(part);
            i = i + 2;
            start = i;
        } else {
            i = i + 1;
        }
    }
    let part = text.substring_char(start, len);
    proof {
        let rest = text@.skip(start as int);
        assert forall|j: int| !separator_at(rest, j) by {
            if separator_at(rest, j) {
                assert(rest[j] == text@[j + start]);
                assert(rest[j + 1] == text@[j + 1 + start]);
                assert(separator_at(text@, j + start));
            }
        }
        lemma_no_separator(rest);
        assert(rest =~= part@);
        assert(strs_view(parts@.push(part)) =~= strs_view(parts@) + seq![part@]);
    }
    parts.push(part);
    parts
}

} // verus!
