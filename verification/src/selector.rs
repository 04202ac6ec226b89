//! The selector of a search: a path of names, each of which may be the
//! wildcard `_`.

use crate::error::{Error, ErrorKindView};
use crate::ident::{parse_ident, parsed_ident};
use crate::search::{select_in, Search};
use crate::text::{
    is_blank, is_whitespace, join_path, lemma_first_separator, lemma_join_path_first,
    lemma_split_join, split_on_separator, split_path, str_is_blank, strs_view,
};
use crate::tree::{items_view, File, Item};
use vstd::prelude::*;
use vstd::std_specs::cmp::PartialEqSpecImpl;
use vstd::string::*;

verus! {

/// One segment of a selector.
#[derive(Debug)]
pub enum SelectorSegment {
    /// A name that must be met exactly.
    Ident(String),
    /// The wildcard `_`, which any name meets.
    Wildcard,
}

/// A [`SelectorSegment`] in contracts.
pub enum SegmentView {
    Ident(Seq<char>),
    Wildcard,
}

impl View for SelectorSegment {
    type V = SegmentView;

    open spec fn view(&self) -> SegmentView {
        match self {
            SelectorSegment::Ident(ident) => SegmentView::Ident(ident@),
            SelectorSegment::Wildcard => SegmentView::Wildcard,
        }
    }
}

/// The views of a list of segments, one for one.
pub open spec fn segments_view(segments: Seq<SelectorSegment>) -> Seq<SegmentView> {
    Seq::new(segments.len(), |i: int| segments[i]@)
}

/// The text of the wildcard: `_`.
pub open spec fn wildcard() -> Seq<char> {
    seq!['_']
}

impl SegmentView {
    /// Whether a declaration of this name is one that the segment asks for.
    pub open spec fn matches(self, name: Seq<char>) -> bool {
        match self {
            SegmentView::Wildcard => true,
            SegmentView::Ident(ident) => ident == name,
        }
    }

    /// The segment as it is written in a path.
    pub open spec fn text(self) -> Seq<char> {
        match self {
            SegmentView::Wildcard => wildcard(),
            SegmentView::Ident(ident) => ident,
        }
    }

    /// Whether the segment is one that parsing can give: the wildcard, or a
    /// name that is not empty and is the text of an identifier, as the
    /// identifier parser reads it from something written.
    pub open spec fn valid(self) -> bool {
        match self {
            SegmentView::Wildcard => true,
            SegmentView::Ident(ident) => ident.len() > 0 && exists|written: Seq<char>|
                parsed_ident(written) == Some(ident),
        }
    }
}

/// The segment that one piece of a path stands for: the wildcard for `_`,
/// else the identifier that the piece is read as; `None` where it is
/// neither.
pub open spec fn parse_segment(piece: Seq<char>) -> Option<SegmentView> {
    if piece == wildcard() {
        Some(SegmentView::Wildcard)
    } else {
        match parsed_ident(piece) {
            Some(ident) => Some(SegmentView::Ident(ident)),
            None => None,
        }
    }
}

/// The segments that the pieces of a path stand for, or the error for the
/// first piece that stands for none.
pub open spec fn parse_segments(pieces: Seq<Seq<char>>) -> Result<Seq<SegmentView>, ErrorKindView>
    decreases pieces.len(),
{
    if pieces.len() == 0 {
        Ok(Seq::empty())
    } else {
        match parse_segments(pieces.drop_last()) {
            Err(error) => Err(error),
            Ok(segments) => match parse_segment(pieces.last()) {
                Some(segment) => Ok(segments.push(segment)),
                None => Err(ErrorKindView::InvalidSegment(pieces.last())),
            },
        }
    }
}

/// What parsing makes of a path: `EmptyPath` for a blank one, else what
/// [`parse_segments`] makes of its pieces.
pub open spec fn parse_selector(path: Seq<char>) -> Result<Seq<SegmentView>, ErrorKindView> {
    if is_blank(path) {
        Err(ErrorKindView::EmptyPath)
    } else {
        parse_segments(split_path(path))
    }
}

/// The texts of the segments, one for one.
pub open spec fn segment_texts(segments: Seq<SegmentView>) -> Seq<Seq<char>> {
    Seq::new(segments.len(), |i: int| segments[i].text())
}

/// The path that the segments are written as.
pub open spec fn render_segments(segments: Seq<SegmentView>) -> Seq<char> {
    join_path(segment_texts(segments))
}

/// What holds of the segments of every selector: there is at least one, and
/// each is [`SegmentView::valid`].
pub open spec fn is_selector(segments: Seq<SegmentView>) -> bool {
    &&& segments.len() > 0
    &&& forall|i: int| 0 <= i < segments.len() ==> (#[trigger] segments[i]).valid()
}

impl PartialEq<String> for SelectorSegment {
    /// Whether a declaration called `other` is one that the segment asks
    /// for.
    fn eq(&self, other: &String) -> (equal: bool) {
        match self {
            SelectorSegment::Wildcard => true,
            SelectorSegment::Ident(ident) => *other == *ident,
        }
    }
}

impl PartialEqSpecImpl<String> for SelectorSegment {
    open spec fn obeys_eq_spec() -> bool {
        true
    }

    open spec fn eq_spec(&self, other: &String) -> bool {
        self@.matches(other@)
    }
}

impl Clone for SelectorSegment {
    fn clone(&self) -> (copy: Self)
        ensures
            copy@ == self@,
    {
        match self {
            SelectorSegment::Ident(ident) => SelectorSegment::Ident(ident.clone()),
            SelectorSegment::Wildcard => SelectorSegment::Wildcard,
        }
    }
}

impl SelectorSegment {
    /// Reads one piece of a path: `_` is the wildcard, anything else must be
    /// an identifier. A piece that is neither is handed back in the error.
    pub fn from_str(input: &str) -> (parsed: Result<SelectorSegment, Error>)
        ensures
            match (parse_segment(input@), parsed) {
                (Some(expected), Ok(segment)) => segment@ == expected && segment@.valid(),
                (None, Err(error)) => error@ == ErrorKindView::InvalidSegment(input@),
                _ => false,
            },
    {
        if input.unicode_len() == 1 && input.get_char(0) == '_' {
            assert(input@ =~= wildcard());
            return Ok(SelectorSegment::Wildcard);
        }
        match parse_ident(input) {
            Some(ident) => Ok(SelectorSegment::Ident(ident)),
            None => Err(Error::invalid_segment(String::from_str(input))),
        }
    }

    /// The segment as it is written in a path.
    pub fn render(&self) -> (text: String)
        ensures
            text@ == self@.text(),
    {
        match self {
            SelectorSegment::Wildcard => {
                proof {
                    reveal_strlit("_");
                }
                assert("_"@ =~= wildcard());
                String::from_str("_")
            },
            SelectorSegment::Ident(ident) => ident.clone(),
        }
    }
}

/// The path that a search follows, one segment for each level of the tree.
///
/// Not every Rust path is a selector: a path with generics or with a
/// qualified self type is refused.
#[derive(Debug)]
pub struct Selector {
    segments: Vec<SelectorSegment>,
}

impl View for Selector {
    type V = Seq<SegmentView>;

    closed spec fn view(&self) -> Seq<SegmentView> {
        segments_view(self.segments@)
    }
}

/// An error of the first pieces is the error of all of them.
pub proof fn lemma_parse_segments_error(pieces: Seq<Seq<char>>, upto: int)
    requires
        0 <= upto <= pieces.len(),
        parse_segments(pieces.take(upto)) is Err,
    ensures
        parse_segments(pieces) == parse_segments(pieces.take(upto)),
    decreases pieces.len() - upto,
{
    if upto < pieces.len() {
        assert(pieces.take(upto + 1).drop_last() =~= pieces.take(upto));
        lemma_parse_segments_error(pieces, upto + 1);
    } else {
        assert(pieces.take(upto) =~= pieces);
    }
}

/// Pieces that each stand for a segment give those segments, one for one.
pub proof fn lemma_parse_segments_ok(pieces: Seq<Seq<char>>)
    requires
        forall|i: int| 0 <= i < pieces.len() ==> parse_segment(#[trigger] pieces[i]) is Some,
    ensures
        parse_segments(pieces) == Ok::<Seq<SegmentView>, ErrorKindView>(
            Seq::new(pieces.len(), |i: int| parse_segment(pieces[i])->Some_0),
        ),
    decreases pieces.len(),
{
    let expected = Seq::new(pieces.len(), |i: int| parse_segment(pieces[i])->Some_0);
    if pieces.len() == 0 {
        assert(expected =~= Seq::empty());
    } else {
        let init = pieces.drop_last();
        lemma_parse_segments_ok(init);
        let before = Seq::new(init.len(), |i: int| parse_segment(init[i])->Some_0);
        assert(before.push(parse_segment(pieces.last())->Some_0) =~= expected);
    }
}

/// A text that is an identifier as it stands: the identifier parser takes
/// it and hands it back unchanged, and it is not empty and holds neither
/// white space nor a colon.
pub open spec fn is_identifier(text: Seq<char>) -> bool {
    &&& text.len() > 0
    &&& forall|i: int|
        0 <= i < text.len() ==> (#[trigger] text[i]) != ':' && !is_whitespace(text[i])
    &&& parsed_ident(text) == Some(text)
}

/// Parsing and rendering are inverse on written selectors: a path made of
/// identifiers and wildcards, joined by `::`, parses, and the selector
/// renders as that same path.
pub proof fn lemma_parse_then_render(pieces: Seq<Seq<char>>)
    requires
        pieces.len() > 0,
        forall|i: int|
            0 <= i < pieces.len() ==> is_identifier(#[trigger] pieces[i]) || pieces[i]
                == wildcard(),
    ensures
        parse_selector(join_path(pieces)) matches Ok(segments) && is_selector(segments)
            && render_segments(segments) == join_path(pieces),
{
    let path = join_path(pieces);
    assert forall|i: int, j: int|
        0 <= i < pieces.len() && 0 <= j < pieces[i].len() implies (#[trigger] pieces[i][j])
        != ':' by {
        if !is_identifier(pieces[i]) {
            assert(pieces[i] == wildcard());
        }
    }
    lemma_split_join(pieces);
    assert(!is_blank(path)) by {
        assert(pieces[0].len() > 0);
        if pieces.len() >= 2 {
            lemma_join_path_first(pieces);
        }
        assert(path[0] == pieces[0][0]);
        assert(!is_whitespace(pieces[0][0])) by {
            if !is_identifier(pieces[0]) {
                assert(pieces[0] == wildcard());
            }
        }
    }
    assert forall|i: int| 0 <= i < pieces.len() implies parse_segment(#[trigger] pieces[i])
        is Some && (parse_segment(pieces[i])->Some_0).text() == pieces[i] by {}
    lemma_parse_segments_ok(pieces);
    let segments = Seq::new(pieces.len(), |i: int| parse_segment(pieces[i])->Some_0);
    assert(segment_texts(segments) =~= pieces);
    assert forall|i: int| 0 <= i < segments.len() implies (#[trigger] segments[i]).valid() by {
        if pieces[i] != wildcard() {
            assert(parsed_ident(pieces[i]) == Some(pieces[i]));
        }
    }
}

impl Selector {
    /// What every selector keeps: see [`is_selector`].
    #[verifier::type_invariant]
    closed spec fn inv(&self) -> bool {
        is_selector(self@)
    }

    /// A selector has no more segments than a `usize` counts.
    pub proof fn lemma_len_bounded(&self)
        ensures
            self@.len() <= usize::MAX,
    {
        vstd::std_specs::vec::axiom_spec_len(&self.segments);
    }

    /// Parses `input` as a selector.
    ///
    /// A blank input is an empty path. Otherwise the input falls into
    /// pieces at each `::`, and the first piece that is neither `_` nor an
    /// identifier is an invalid segment.
    pub fn from_str(input: &str) -> (parsed: Result<Selector, Error>)
        ensures
            match (parse_selector(input@), parsed) {
                (Ok(segments), Ok(selector)) => selector@ == segments && is_selector(segments),
                (Err(kind), Err(error)) => error@ == kind,
                _ => false,
            },
    {
        let mut segments: Vec<SelectorSegment> = Vec::new();

        if str_is_blank(input) {
            return Err(Error::empty_path());
        }
        let pieces = split_on_separator(input);
        proof {
            lemma_first_separator(input@);
        }
        assert(pieces.len() > 0);
        let mut i: usize = 0;
        proof {
            assert(strs_view(pieces@).take(0) =~= Seq::empty());
            assert(segments_view(segments@) =~= Seq::empty());
        }
        while i < pieces.len()
            invariant
                i <= pieces.len(),
                segments@.len() == i,
                !is_blank(input@),
                strs_view(pieces@) == split_path(input@),
                parse_segments(strs_view(pieces@).take(i as int)) == Ok::<
                    Seq<SegmentView>,
                    ErrorKindView,
                >(segments_view(segments@)),
                forall|j: int| 0 <= j < i ==> (#[trigger] segments@[j])@.valid(),
            decreases pieces.len() - i,
        {
            let piece = pieces[i];
            proof {
                assert(strs_view(pieces@).take(i + 1).drop_last() =~= strs_view(pieces@).take(
                    i as int,
                ));
            }
            match SelectorSegment::from_str(piece) {
                Ok(segment) => {
                    proof {
                        assert(segments_view(segments@.push(segment)) =~= segments_view(
                            segments@,
                        ).push(segment@));
                    }
                    segments.push(segment);
                },
                Err(_) => {
                    proof {
                        assert(strs_view(pieces@).take(i + 1).last() == piece@);
                        lemma_parse_segments_error(strs_view(pieces@), i + 1);
                    }
                    return Err(Error::invalid_segment(String::from_str(piece)));
                },
            }
            i += 1;
        }
        proof {
            assert(strs_view(pieces@).take(i as int) =~= strs_view(pieces@));
        }
        Ok(Selector { segments })
    }

    /// Parses `s` as a selector: the same as [`Selector::from_str`].
    pub fn try_from(s: &str) -> (parsed: Result<Selector, Error>)
        ensures
            match (parse_selector(s@), parsed) {
                (Ok(segments), Ok(selector)) => selector@ == segments && is_selector(segments),
                (Err(kind), Err(error)) => error@ == kind,
                _ => false,
            },
    {
        Selector::from_str(s)
    }

    /// Searches `file` with this selector and hands back every declaration
    /// that the selector names, each as a copy of its own.
    pub fn apply_to(&self, file: &File) -> (found: Vec<Item>)
        ensures
            items_view(found@) == select_in(self@, file@),
    {
        let mut search = Search::new(self);
        search.search_file(file);
        search.into_results()
    }

    /// The segment for the level `index` of the tree.
    pub fn part(&self, index: usize) -> (segment: &SelectorSegment)
        requires
            index < self@.len(),
        ensures
            segment@ == self@[index as int],
    {
        &self.segments[index]
    }

    /// How many segments the selector has: never none.
    pub fn len(&self) -> (len: usize)
        ensures
            len == self@.len(),
            len > 0,
    {
        proof {
            use_type_invariant(self);
        }
        self.segments.len()
    }

    /// The selector as a path: its segments with `::` between them.
    pub fn render(&self) -> (text: String)
        ensures
            text@ == render_segments(self@),
    {
        proof {
            use_type_invariant(self);
            reveal_strlit("::");
        }
        let ghost texts = segment_texts(self@);
        let mut text = self.segments[0].render();
        let mut i: usize = 1;
        assert(texts.take(1) =~= seq![texts[0]]);
        while i < self.segments.len()
            invariant
                1 <= i <= self.segments.len(),
                texts == segment_texts(self@),
                self@ == segments_view(self.segments@),
                "::"@ =~= seq![':', ':'],
                text@ == join_path(texts.take(i as int)),
            decreases self.segments.len() - i,
        {
            let segment = self.segments[i].render();
            proof {
                assert(texts.take(i + 1).drop_last() =~= texts.take(i as int));
            }
            text.append("::");
            text.append(segment.as_str());
            i += 1;
        }
        assert(texts.take(i as int) =~= texts);
        text
    }
}

impl Clone for Selector {
    fn clone(&self) -> (copy: Self)
        ensures
            copy@ == self@,
    {
        proof {
            use_type_invariant(self);
        }
        let mut segments: Vec<SelectorSegment> = Vec::new();
        let mut i: usize = 0;
        while i < self.segments.len()
            invariant
                i <= self.segments.len(),
                segments@.len() == i,
                forall|j: int| 0 <= j < i ==> (#[trigger] segments@[j])@ == self.segments@[j]@,
            decreases self.segments.len() - i,
        {
            segments.push(self.segments[i].clone());
            i += 1;
        }
        assert(segments_view(segments@) =~= segments_view(self.segments@));
        Selector { segments }
    }
}

} // verus!
