//! Resolution of the symbol references written inside documentation comments
//! (`Foo::bar`, `Trait::item`, `TupleStruct::0`) to the definitions they
//! denote, and an accumulator for the completion items made of them.
//!
//! A link is first turned into a path ([`syntax`], [`tuple_field`]). The path
//! is looked up as an item; where that gives nothing the caller takes, its
//! last name is resolved as a member of what the rest of the path denotes in
//! type position: an inherent item, then an item provided by a visible
//! trait, then a field ([`resolve`]). What the program holds is read from the
//! tables of a [`index::ScopeIndex`]. What holds of every resolution is
//! stated and proved in [`laws`].

pub mod names;
pub mod path;
pub mod defs;
pub mod syntax;
pub mod tuple_field;
pub mod index;
pub mod resolve;
pub mod attrs;
pub mod laws;
pub mod completions;
