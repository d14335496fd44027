//! Symbol paths: what a link names, segment by segment.

use vstd::prelude::*;
use crate::names::{Name, NameView, name_views};

verus! {

/// Where a path starts from.
#[derive(Clone, Copy, PartialEq, Eq, Structural, Debug, Hash)]
pub enum PathAnchor {
    /// `a::b`: looked up from the current scope.
    Plain,
    /// `self::a` is `Super(0)`, `super::a` is `Super(1)`, and so on.
    Super(u8),
    /// `crate::a`.
    Crate,
    /// `::a`.
    Abs,
}

/// A path: an anchor and the names that follow it, in order.
///
/// Only the last name may be a tuple position, and only where the path was
/// recovered from a `Prefix::N` link.
#[derive(Clone, Debug, PartialEq, Eq, Hash)]
pub struct SymbolPath {
    pub anchor: PathAnchor,
    pub segments: Vec<Name>,
}

/// The mathematical value of a [`SymbolPath`].
pub struct SymbolPathView {
    pub anchor: PathAnchor,
    pub segments: Seq<NameView>,
}

impl SymbolPathView {
    /// A path that names nothing at all: no keyword anchor and no name.
    pub open spec fn is_empty(self) -> bool {
        self.segments.len() == 0 && (self.anchor is Plain || self.anchor is Abs)
    }

    /// Whether the path ends in a tuple position.
    pub open spec fn ends_in_tuple_field(self) -> bool {
        self.segments.len() > 0 && self.segments.last() is TupleField
    }

    /// The path without its last name.
    pub open spec fn parent(self) -> SymbolPathView
        recommends
            self.segments.len() > 0,
    {
        SymbolPathView { anchor: self.anchor, segments: self.segments.drop_last() }
    }

    /// The path with one more name at its end.
    pub open spec fn child(self, name: NameView) -> SymbolPathView {
        SymbolPathView { anchor: self.anchor, segments: self.segments.push(name) }
    }
}

impl View for SymbolPath {
    type V = SymbolPathView;

    open spec fn view(&self) -> SymbolPathView {
        SymbolPathView { anchor: self.anchor, segments: name_views(self.segments@) }
    }
}

/// The view of an optional path.
pub open spec fn path_view(path: Option<SymbolPath>) -> Option<SymbolPathView> {
    match path {
        Some(p) => Some(p@),
        None => None,
    }
}

impl SymbolPath {
    /// The path that holds an anchor and no name yet.
    pub fn from_anchor(anchor: PathAnchor) -> (r: SymbolPath)
        ensures
            r@ == (SymbolPathView { anchor, segments: Seq::empty() }),
    {
        let r = SymbolPath { anchor, segments: Vec::new() };
        assert(r@.segments =~= Seq::empty());
        r
    }

    /// Whether the path names nothing at all.
    pub fn is_empty(&self) -> (r: bool)
        ensures
            r == self@.is_empty(),
    {
        self.segments.len() == 0 && (self.anchor == PathAnchor::Plain || self.anchor
            == PathAnchor::Abs)
    }

    /// Whether the path ends in a tuple position.
    pub fn ends_in_tuple_field(&self) -> (r: bool)
        ensures
            r == self@.ends_in_tuple_field(),
    {
        let n = self.segments.len();
        if n == 0 {
            false
        } else {
            self.segments[n - 1].as_tuple_index().is_some()
        }
    }

    /// Appends `name` to the path.
    pub fn push_segment(&mut self, name: Name)
        ensures
            final(self)@ == old(self)@.child(name@),
    {
        self.segments.push(name);
        assert(self@.segments =~= old(self)@.segments.push(name@));
    }

    /// Removes the last name and returns it; `None`, and the path unchanged,
    /// where it holds no name.
    pub fn pop_segment(&mut self) -> (r: Option<Name>)
        ensures
            old(self)@.segments.len() == 0 ==> r is None && final(self)@ == old(self)@,
            old(self)@.segments.len() > 0 ==> r is Some && r->0@ == old(self)@.segments.last()
                && final(self)@ == old(self)@.parent(),
    {
        let r = self.segments.pop();
        assert(self@.segments =~= old(self)@.segments.take(self.segments@.len() as int));
        assert(old(self)@.segments.len() == 0 ==> self@.segments =~= old(self)@.segments);
        r
    }

    /// Whether two paths are the same path.
    pub fn same(&self, other: &SymbolPath) -> (r: bool)
        ensures
            r == (self@ == other@),
    {
        if self.anchor != other.anchor {
            return false;
        }
        if self.segments.len() != other.segments.len() {
            assert(self@.segments.len() != other@.segments.len());
            return false;
        }
        let mut i: usize = 0;
        while i < self.segments.len()
            invariant
                i <= self.segments.len(),
                self.segments.len() == other.segments.len(),
                forall|j: int| 0 <= j < i ==> self.segments@[j]@ == other.segments@[j]@,
            decreases self.segments.len() - i,
        {
            if !self.segments[i].same(&other.segments[i]) {
                assert(self@.segments[i as int] != other@.segments[i as int]);
                return false;
            }
            i += 1;
        }
        assert(self@.segments =~= other@.segments);
        true
    }
}

} // verus!
