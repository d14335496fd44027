//! From link text to a path: the grammar is the parser's, the reading of what
//! it found is done here.

use vstd::prelude::*;
use ra_ap_syntax::{ast, AstNode, Edition, SourceFile};
use vstd::string::StringExecFns;
use vstd::string::StrSliceExecFns;
use crate::names::{Name, NameView};
use crate::path::{PathAnchor, SymbolPath, SymbolPathView, path_view};

verus! {

/// One segment of a path as the parser saw it.
#[derive(Clone, Debug, PartialEq, Eq)]
pub struct RawSegment {
    /// The identifier or keyword the segment consists of, as written; `None`
    /// where the segment is missing or is of another form, such as
    /// `<T as Trait>`.
    pub name: Option<String>,
    /// Whether `::` stands before it inside the segment.
    pub rooted: bool,
}

/// What a segment is, once its text has been told apart from the keywords.
pub enum RawSegmentView {
    /// An identifier, as written.
    Name { text: Seq<char>, rooted: bool },
    /// `Self`.
    SelfType,
    /// `self`.
    SelfKw,
    /// `super`.
    SuperKw,
    /// `crate`.
    CrateKw,
    /// Nothing that can be part of a plain path.
    Missing,
}

/// The sort of a segment, without what it holds.
#[derive(Clone, Copy, PartialEq, Eq, Structural, Debug)]
pub enum SegmentKind {
    Name,
    SelfType,
    SelfKw,
    SuperKw,
    CrateKw,
    Missing,
}

impl View for RawSegment {
    type V = RawSegmentView;

    open spec fn view(&self) -> RawSegmentView {
        match self.name {
            None => RawSegmentView::Missing,
            Some(t) => if t@ == "Self"@ {
                RawSegmentView::SelfType
            } else if t@ == "self"@ {
                RawSegmentView::SelfKw
            } else if t@ == "super"@ {
                RawSegmentView::SuperKw
            } else if t@ == "crate"@ {
                RawSegmentView::CrateKw
            } else {
                RawSegmentView::Name { text: t@, rooted: self.rooted }
            },
        }
    }
}

/// Whether `text` spells `word`.
fn spells(text: &String, word: &str) -> (r: bool)
    ensures
        r == (text@ == word@),
{
    *text == String::from_str(word)
}

impl RawSegment {
    /// Tells the segment's text apart from the keywords.
    pub fn kind(&self) -> (r: SegmentKind)
        ensures
            r == match self@ {
                RawSegmentView::Name { .. } => SegmentKind::Name,
                RawSegmentView::SelfType => SegmentKind::SelfType,
                RawSegmentView::SelfKw => SegmentKind::SelfKw,
                RawSegmentView::SuperKw => SegmentKind::SuperKw,
                RawSegmentView::CrateKw => SegmentKind::CrateKw,
                RawSegmentView::Missing => SegmentKind::Missing,
            },
    {
        match &self.name {
            None => SegmentKind::Missing,
            Some(t) => if spells(t, "Self") {
                SegmentKind::SelfType
            } else if spells(t, "self") {
                SegmentKind::SelfKw
            } else if spells(t, "super") {
                SegmentKind::SuperKw
            } else if spells(t, "crate") {
                SegmentKind::CrateKw
            } else {
                SegmentKind::Name
            },
        }
    }
}

/// A path as the parser saw it: the text it spans, and its segments from the
/// last one back to the first.
#[derive(Clone, Debug, PartialEq, Eq)]
pub struct RawPath {
    pub text: String,
    pub segments_from_last: Vec<RawSegment>,
}

/// The mathematical value of a [`RawPath`], its segments in reading order.
pub struct RawPathView {
    pub text: Seq<char>,
    pub segments: Seq<RawSegmentView>,
}

impl View for RawPath {
    type V = RawPathView;

    open spec fn view(&self) -> RawPathView {
        RawPathView {
            text: self.text@,
            segments: Seq::new(
                self.segments_from_last@.len(),
                |i: int| self.segments_from_last@[self.segments_from_last@.len() - 1 - i]@,
            ),
        }
    }
}

/// The view of an optional parsed path.
pub open spec fn raw_path_view(raw: Option<RawPath>) -> Option<RawPathView> {
    match raw {
        Some(p) => Some(p@),
        None => None,
    }
}

/// The first path that the parser finds in `source` read as a source file,
/// in the order in which it walks the syntax tree; `None` where it finds no
/// path at all.
pub uninterp spec fn syntax_first_path(source: Seq<char>) -> Option<RawPathView>;

/// Parses `source` as a source file of the 2021 edition with
/// `ra_ap_syntax::SourceFile::parse`, and takes the first `ast::Path` node
/// among the descendants of the root, in preorder.
///
/// Not proved: that the result is the parser's answer for `source`, which the
/// contract names `syntax_first_path(source)`. The text is that of the path
/// node; the segments are those of the node and of each of its qualifiers in
/// turn, each with the text of its name and whether `::` stands before it.
#[verifier::external_body]
fn first_path(source: &str) -> (r: Option<RawPath>)
    ensures
        raw_path_view(r) == syntax_first_path(source@),
{
    let file = SourceFile::parse(source, Edition::CURRENT);
    let path = file.syntax_node().descendants().find_map(ast::Path::cast)?;
    let segments_from_last = std::iter::successors(Some(path.clone()), ast::Path::qualifier)
        .map(|p| RawSegment {
            name: p.segment().and_then(|s| s.name_ref()).map(|n| n.text().to_string()),
            rooted: p.segment().and_then(|s| s.coloncolon_token()).is_some(),
        })
        .collect();
    Some(RawPath { text: path.syntax().text().to_string(), segments_from_last })
}

/// The identifier a written name stands for: a raw identifier `r#name`
/// stands for `name`.
pub open spec fn unraw(text: Seq<char>) -> Seq<char> {
    if text.len() >= 2 && text[0] == 'r' && text[1] == '#' {
        text.skip(2)
    } else {
        text
    }
}

/// The number of `super` segments that `segments` starts with.
pub open spec fn leading_supers(segments: Seq<RawSegmentView>) -> nat
    decreases segments.len(),
{
    if segments.len() > 0 && segments[0] is SuperKw {
        1 + leading_supers(segments.drop_first())
    } else {
        0
    }
}

/// Where a path starts from, and how many of its leading segments say so.
/// `None` where the first segment can start no path, or where more `super`
/// follow each other than an anchor can count.
pub open spec fn path_head(segments: Seq<RawSegmentView>) -> Option<(PathAnchor, nat)> {
    if segments.len() == 0 {
        None
    } else {
        match segments[0] {
            RawSegmentView::Name { text, rooted } => Some(
                (
                    if rooted {
                        PathAnchor::Abs
                    } else {
                        PathAnchor::Plain
                    },
                    0nat,
                ),
            ),
            RawSegmentView::SelfType => Some((PathAnchor::Plain, 0nat)),
            RawSegmentView::CrateKw => Some((PathAnchor::Crate, 1nat)),
            RawSegmentView::SelfKw => {
                let n = leading_supers(segments.drop_first());
                if n <= u8::MAX {
                    Some((PathAnchor::Super(n as u8), 1 + n))
                } else {
                    None
                }
            },
            RawSegmentView::SuperKw => {
                let n = leading_supers(segments);
                if n <= u8::MAX {
                    Some((PathAnchor::Super(n as u8), n))
                } else {
                    None
                }
            },
            RawSegmentView::Missing => None,
        }
    }
}

/// The name that the segment at position `i` contributes: an identifier
/// anywhere, `Self` only in first place.
pub open spec fn segment_name(segments: Seq<RawSegmentView>, i: int) -> Option<NameView> {
    match segments[i] {
        RawSegmentView::Name { text, rooted } => Some(NameView::Text(unraw(text))),
        RawSegmentView::SelfType => if i == 0 {
            Some(NameView::Text("Self"@))
        } else {
            None
        },
        _ => None,
    }
}

/// The path that a sequence of segments, in reading order, stands for: the
/// anchor that its head gives, then one name for each segment after the head.
/// `None` where there is no segment, no head, or a segment after the head
/// that is no name.
pub open spec fn lowered(segments: Seq<RawSegmentView>) -> Option<SymbolPathView> {
    match path_head(segments) {
        None => None,
        Some((anchor, used)) => {
            if forall|i: int| used <= i < segments.len() ==> segment_name(segments, i) is Some {
                Some(
                    SymbolPathView {
                        anchor,
                        segments: Seq::new(
                            (segments.len() - used) as nat,
                            |j: int| segment_name(segments, used + j)->0,
                        ),
                    },
                )
            } else {
                None
            }
        },
    }
}

/// What a parse of `link` amounts to: the lowered path where the parser's
/// path spans exactly the text of the link, nothing otherwise.
pub open spec fn accepted(raw: RawPathView, link: Seq<char>) -> Option<SymbolPathView> {
    if raw.text == link {
        lowered(raw.segments)
    } else {
        None
    }
}

/// The source text in which a link is handed to the parser: a type alias
/// whose right-hand side is the link.
pub open spec fn type_position(link: Seq<char>) -> Seq<char> {
    "type T = "@ + link + ";"@
}

/// The path that `link` spells when read as a type-position path.
pub open spec fn parsed(link: Seq<char>) -> Option<SymbolPathView> {
    match syntax_first_path(type_position(link)) {
        Some(raw) => accepted(raw, link),
        None => None,
    }
}

/// The identifier a written name stands for.
pub fn name_of_text(text: &str) -> (r: Name)
    ensures
        r@ == NameView::Text(unraw(text@)),
{
    let n = text.unicode_len();
    if n >= 2 && text.get_char(0) == 'r' && text.get_char(1) == '#' {
        Name::new_text(text.substring_char(2, n))
    } else {
        Name::new_text(text)
    }
}

/// A run of `super` adds its length to the count of what follows it.
pub proof fn lemma_leading_supers_step(segments: Seq<RawSegmentView>, from: int, count: int)
    requires
        0 <= from <= from + count <= segments.len(),
        forall|j: int| from <= j < from + count ==> segments[j] is SuperKw,
    ensures
        leading_supers(segments.skip(from)) == count + leading_supers(
            segments.skip(from + count),
        ),
    decreases count,
{
    if count > 0 {
        assert(segments.skip(from)[0] == segments[from]);
        assert(segments.skip(from).drop_first() =~= segments.skip(from + 1));
        lemma_leading_supers_step(segments, from + 1, count - 1);
    }
}

impl RawPath {
    /// The segment at position `i` in reading order.
    fn segment(&self, i: usize) -> (r: &RawSegment)
        requires
            i < self.segments_from_last@.len(),
        ensures
            r@ == self@.segments[i as int],
    {
        &self.segments_from_last[self.segments_from_last.len() - 1 - i]
    }

    /// Counts the `super` segments that follow each other from position
    /// `from` on; `None` where they are more than 255.
    fn count_supers(&self, from: usize) -> (r: Option<u8>)
        requires
            from <= self@.segments.len(),
        ensures
            r == if leading_supers(self@.segments.skip(from as int)) <= u8::MAX {
                Some(leading_supers(self@.segments.skip(from as int)) as u8)
            } else {
                None
            },
    {
        let n = self.segments_from_last.len();
        let mut i: usize = from;
        let mut count: u8 = 0;
        while i < n
            invariant
                n == self@.segments.len(),
                from <= i <= n,
                count == i - from,
                forall|j: int| from <= j < i ==> self@.segments[j] is SuperKw,
            decreases n - i,
        {
            match self.segment(i).kind() {
                SegmentKind::SuperKw => {
                    if count == u8::MAX {
                        proof {
                            lemma_leading_supers_step(
                                self@.segments,
                                from as int,
                                i + 1 - from,
                            );
                        }
                        return None;
                    }
                    count = count + 1;
                    i = i + 1;
                },
                _ => {
                    proof {
                        lemma_leading_supers_step(self@.segments, from as int, i - from);
                        assert(self@.segments.skip(i as int)[0] == self@.segments[i as int]);
                    }
                    return Some(count);
                },
            }
        }
        proof {
            lemma_leading_supers_step(self@.segments, from as int, i - from);
        }
        Some(count)
    }

    /// Where the path starts from, and how many leading segments say so.
    fn head(&self) -> (r: Option<(PathAnchor, usize)>)
        ensures
            match r {
                Some((anchor, used)) => path_head(self@.segments) == Some((anchor, used as nat)),
                None => path_head(self@.segments) is None,
            },
    {
        let n = self.segments_from_last.len();
        if n == 0 {
            return None;
        }
        assert(self@.segments.drop_first() =~= self@.segments.skip(1));
        assert(self@.segments =~= self@.segments.skip(0));
        let first = self.segment(0);
        match first.kind() {
            SegmentKind::Name => {
                if first.rooted {
                    Some((PathAnchor::Abs, 0))
                } else {
                    Some((PathAnchor::Plain, 0))
                }
            },
            SegmentKind::SelfType => Some((PathAnchor::Plain, 0)),
            SegmentKind::CrateKw => Some((PathAnchor::Crate, 1)),
            SegmentKind::SelfKw => match self.count_supers(1) {
                Some(deg) => Some((PathAnchor::Super(deg), 1 + deg as usize)),
                None => None,
            },
            SegmentKind::SuperKw => match self.count_supers(0) {
                Some(deg) => Some((PathAnchor::Super(deg), deg as usize)),
                None => None,
            },
            SegmentKind::Missing => None,
        }
    }
}

/// Reads the parser's segments as a path.
///
/// The first segment decides where the path starts from: an identifier or
/// `Self` start a plain path (an absolute one after `::`), `crate` anchors it
/// at the crate, `self` and `super` at a module, each further `super` one
/// level up. Every segment after that has to be an identifier, which becomes
/// a name of the path.
pub fn lower_path(raw: &RawPath) -> (r: Option<SymbolPath>)
    ensures
        path_view(r) == lowered(raw@.segments),
{
    let n = raw.segments_from_last.len();
    let (anchor, used) = match raw.head() {
        Some(h) => h,
        None => return None,
    };
    proof {
        lemma_head_within(raw@.segments);
    }
    let mut path = SymbolPath::from_anchor(anchor);
    let mut i: usize = used;
    while i < n
        invariant
            n == raw@.segments.len(),
            used <= i <= n,
            path_head(raw@.segments) == Some((anchor, used as nat)),
            path@.anchor == anchor,
            path@.segments.len() == i - used,
            forall|k: int| used <= k < i ==> segment_name(raw@.segments, k) is Some,
            forall|j: int|
                0 <= j < i - used ==> path@.segments[j] == segment_name(raw@.segments, used + j)->0,
        decreases n - i,
    {
        let segment = raw.segment(i);
        let name = match segment.kind() {
            SegmentKind::Name => match &segment.name {
                Some(text) => name_of_text(text.as_str()),
                None => return None,
            },
            SegmentKind::SelfType => {
                if i == 0 {
                    Name::new_text("Self")
                } else {
                    assert(segment_name(raw@.segments, i as int) is None);
                    return None;
                }
            },
            _ => {
                assert(segment_name(raw@.segments, i as int) is None);
                return None;
            },
        };
        let ghost before = path@;
        path.push_segment(name);
        assert forall|j: int| 0 <= j < i + 1 - used implies path@.segments[j] == segment_name(
            raw@.segments,
            used + j,
        )->0 by {
            if j < i - used {
                assert(path@.segments[j] == before.segments[j]);
            }
        }
        i = i + 1;
    }
    assert(path@.segments =~= lowered(raw@.segments)->0.segments);
    Some(path)
}

/// No more segments are `super` than there are segments.
pub proof fn lemma_supers_within(segments: Seq<RawSegmentView>)
    ensures
        leading_supers(segments) <= segments.len(),
    decreases segments.len(),
{
    if segments.len() > 0 && segments[0] is SuperKw {
        lemma_supers_within(segments.drop_first());
    }
}

/// The head of a path takes up no more segments than there are.
pub proof fn lemma_head_within(segments: Seq<RawSegmentView>)
    ensures
        match path_head(segments) {
            Some((_, used)) => used <= segments.len(),
            None => true,
        },
{
    if segments.len() > 0 {
        lemma_supers_within(segments);
        lemma_supers_within(segments.drop_first());
    }
}

/// Accepts the parser's path for `link` only where it spans the whole of the
/// link: a parse that read less than it was given is no parse.
pub fn accept_parse(raw: &RawPath, link: &str) -> (r: Option<SymbolPath>)
    ensures
        path_view(r) == accepted(raw@, link@),
{
    let given = String::from_str(link);
    if raw.text == given {
        lower_path(raw)
    } else {
        None
    }
}

/// Parses `link` as a type-position path.
///
/// `Some` exactly where the parser finds a path that spans the whole of the
/// link and its segments lower to a path; the result is that path.
pub fn parse_path(link: &str) -> (r: Option<SymbolPath>)
    ensures
        path_view(r) == parsed(link@),
{
    let mut source = String::from_str("type T = ");
    source.append(link);
    source.append(";");
    match first_path(source.as_str()) {
        Some(raw) => accept_parse(&raw, link),
        None => None,
    }
}

} // verus!
