//! Names and the namespaces they live in.

use vstd::prelude::*;

verus! {

/// One of the three independent identifier spaces. The same name may denote
/// unrelated definitions in each of them.
#[derive(Clone, Copy, PartialEq, Eq, Structural, Debug, Hash)]
pub enum NamespaceKind {
    Type,
    Value,
    Macro,
}

/// A single name: an identifier, or the numeric position of a tuple field.
///
/// A tuple position never equals an identifier, whatever its digits.
#[derive(Clone, Debug, PartialEq, Eq, Hash)]
pub enum Name {
    Text(String),
    TupleField(usize),
}

/// The mathematical value of a [`Name`].
pub enum NameView {
    Text(Seq<char>),
    TupleField(usize),
}

impl View for Name {
    type V = NameView;

    open spec fn view(&self) -> NameView {
        match self {
            Name::Text(s) => NameView::Text(s@),
            Name::TupleField(i) => NameView::TupleField(*i),
        }
    }
}

impl Name {
    /// The identifier spelled `text`.
    pub fn new_text(text: &str) -> (r: Name)
        ensures
            r@ == NameView::Text(text@),
    {
        Name::Text(String::from_str(text))
    }

    /// The name of the tuple field at position `idx`.
    pub fn new_tuple_field(idx: usize) -> (r: Name)
        ensures
            r@ == NameView::TupleField(idx),
    {
        Name::TupleField(idx)
    }

    /// Position of the tuple field this name stands for, if it is one.
    pub fn as_tuple_index(&self) -> (r: Option<usize>)
        ensures
            r == match self@ {
                NameView::TupleField(i) => Some(i),
                NameView::Text(_) => None,
            },
    {
        match self {
            Name::TupleField(i) => Some(*i),
            Name::Text(_) => None,
        }
    }

    /// Whether two names are the same name.
    pub fn same(&self, other: &Name) -> (r: bool)
        ensures
            r == (self@ == other@),
    {
        match self {
            Name::Text(a) => match other {
                Name::Text(b) => *a == *b,
                Name::TupleField(_) => false,
            },
            Name::TupleField(i) => match other {
                Name::Text(_) => false,
                Name::TupleField(j) => *i == *j,
            },
        }
    }

    /// An independent copy of this name.
    pub fn duplicate(&self) -> (r: Name)
        ensures
            r == *self,
    {
        match self {
            Name::Text(s) => Name::Text(s.clone()),
            Name::TupleField(i) => Name::TupleField(*i),
        }
    }
}

/// The views of a sequence of names, element by element.
pub open spec fn name_views(names: Seq<Name>) -> Seq<NameView> {
    names.map_values(|n: Name| n@)
}

} // verus!
