//! The scope index: what the host knows of the program, as tables of answers.
//!
//! Each table is read from its first row on, and the first row that answers
//! a question is the answer. How the host arrived at its rows (visibility,
//! imports, trait solving) is not looked into.

use vstd::prelude::*;
use crate::names::{Name, NameView};
use crate::path::{SymbolPath, SymbolPathView};
use crate::defs::{Adt, AssocItem, AttrDefId, Field, PerNs, TypeReferent, VariantDef};

verus! {

/// The position of the first `true` in `hits`.
pub open spec fn first_true(hits: Seq<bool>) -> Option<int>
    decreases hits.len(),
{
    if hits.len() == 0 {
        None
    } else if hits[0] {
        Some(0)
    } else {
        match first_true(hits.drop_first()) {
            Some(i) => Some(i + 1),
            None => None,
        }
    }
}

/// The first `true` is a `true`, and none stands before it.
pub proof fn lemma_first_true(hits: Seq<bool>)
    ensures
        match first_true(hits) {
            Some(i) => 0 <= i < hits.len() && hits[i] && forall|j: int| 0 <= j < i ==> !hits[j],
            None => forall|j: int| 0 <= j < hits.len() ==> !hits[j],
        },
    decreases hits.len(),
{
    if hits.len() > 0 && !hits[0] {
        let rest = hits.drop_first();
        lemma_first_true(rest);
        match first_true(rest) {
            Some(i) => {
                assert forall|j: int| 0 <= j < i + 1 implies !hits[j] by {
                    if j > 0 {
                        assert(hits[j] == rest[j - 1]);
                    }
                }
            },
            None => {
                assert forall|j: int| 0 <= j < hits.len() implies !hits[j] by {
                    if j > 0 {
                        assert(hits[j] == rest[j - 1]);
                    }
                }
            },
        }
    }
}

/// A `true` with none before it is the first.
pub proof fn lemma_first_true_at(hits: Seq<bool>, i: int)
    requires
        0 <= i < hits.len(),
        hits[i],
        forall|j: int| 0 <= j < i ==> !hits[j],
    ensures
        first_true(hits) == Some(i),
{
    lemma_first_true(hits);
}

/// Where nothing is `true`, nothing is first.
pub proof fn lemma_first_true_nowhere(hits: Seq<bool>)
    requires
        forall|j: int| 0 <= j < hits.len() ==> !hits[j],
    ensures
        first_true(hits) is None,
{
    lemma_first_true(hits);
}

/// Where a link is resolved from: the standpoint of the declaration that the
/// documentation is attached to.
#[derive(Clone, Debug, PartialEq, Eq)]
pub struct ResolutionScope {
    /// The enclosing module, from which item paths are looked up.
    pub module: u64,
    /// The generic declaration whose parameters and bounds are in force;
    /// `None` for the empty environment.
    pub generic_env: Option<u64>,
    /// The traits that are visible.
    pub traits_in_scope: Vec<u64>,
}

impl ResolutionScope {
    /// Whether the trait is visible in this scope.
    pub open spec fn sees(self, trait_id: u64) -> bool {
        self.traits_in_scope@.contains(trait_id)
    }

    /// Whether the trait is visible in this scope.
    pub fn has_trait(&self, trait_id: u64) -> (r: bool)
        ensures
            r == self.sees(trait_id),
    {
        let mut i: usize = 0;
        while i < self.traits_in_scope.len()
            invariant
                i <= self.traits_in_scope@.len(),
                forall|j: int| 0 <= j < i ==> self.traits_in_scope@[j] != trait_id,
            decreases self.traits_in_scope@.len() - i,
        {
            if self.traits_in_scope[i] == trait_id {
                return true;
            }
            i = i + 1;
        }
        false
    }
}

/// What a path denotes as an item, seen from a module.
#[derive(Clone, Debug, PartialEq, Eq)]
pub struct ItemPathEntry {
    pub module: u64,
    pub path: SymbolPath,
    pub found: PerNs,
}

/// What a path denotes in type position, seen from a module under a generic
/// environment.
#[derive(Clone, Debug, PartialEq, Eq)]
pub struct TypePathEntry {
    pub module: u64,
    pub generic_env: Option<u64>,
    pub path: SymbolPath,
    pub referent: TypeReferent,
}

/// An item that a type has of its own, in one of its inherent impls.
#[derive(Clone, Debug, PartialEq, Eq)]
pub struct InherentEntry {
    pub ty: u64,
    pub item: AssocItem,
}

/// An item that a type has through a trait, under a generic environment.
/// The order of the rows is the order in which candidates are enumerated.
#[derive(Clone, Debug, PartialEq, Eq)]
pub struct CandidateEntry {
    pub ty: u64,
    pub generic_env: Option<u64>,
    pub via_trait: u64,
    pub item: AssocItem,
}

/// An item that a trait declares itself.
#[derive(Clone, Debug, PartialEq, Eq)]
pub struct TraitItemEntry {
    pub trait_id: u64,
    pub item: AssocItem,
}

/// A field and its name.
#[derive(Clone, Debug, PartialEq, Eq)]
pub struct FieldEntry {
    pub field: Field,
    pub name: Name,
}

/// The struct, union or enum that a type is.
#[derive(Clone, Copy, PartialEq, Eq, Structural, Debug)]
pub struct AdtEntry {
    pub ty: u64,
    pub adt: Adt,
}

/// The scope that links written on a declaration are resolved in.
#[derive(Clone, Debug, PartialEq, Eq)]
pub struct ScopeEntry {
    pub owner: AttrDefId,
    pub scope: ResolutionScope,
}

/// The documentation attached to a declaration, line by line.
#[derive(Clone, Debug, PartialEq, Eq)]
pub struct AttrEntry {
    pub owner: AttrDefId,
    pub docs: Vec<String>,
}

/// The views of a sequence of texts, element by element.
pub open spec fn text_views(texts: Seq<String>) -> Seq<Seq<char>> {
    texts.map_values(|t: String| t@)
}

/// Whether the row answers for `path` seen from `module`.
pub open spec fn item_path_hit(row: ItemPathEntry, module: u64, path: SymbolPathView) -> bool {
    row.module == module && row.path@ == path
}

/// Whether the row answers for `path` in type position, seen from `module`
/// under `generic_env`.
pub open spec fn type_path_hit(
    row: TypePathEntry,
    module: u64,
    generic_env: Option<u64>,
    path: SymbolPathView,
) -> bool {
    row.module == module && row.generic_env == generic_env && row.path@ == path
}

/// Whether the row is the field of `def` called `name`.
pub open spec fn field_hit(row: FieldEntry, def: VariantDef, name: NameView) -> bool {
    row.field.parent == def && row.name@ == name
}

/// The tables.
#[derive(Clone, Debug, PartialEq, Eq)]
pub struct ScopeIndex {
    pub item_paths: Vec<ItemPathEntry>,
    pub type_paths: Vec<TypePathEntry>,
    pub inherent_items: Vec<InherentEntry>,
    pub trait_candidates: Vec<CandidateEntry>,
    pub trait_items: Vec<TraitItemEntry>,
    pub fields: Vec<FieldEntry>,
    pub adts: Vec<AdtEntry>,
    pub scopes: Vec<ScopeEntry>,
    pub attrs: Vec<AttrEntry>,
}

impl ScopeIndex {
    /// For each row of item paths, whether it answers the question.
    pub open spec fn item_path_hits(self, module: u64, path: SymbolPathView) -> Seq<bool> {
        Seq::new(self.item_paths@.len(), |i: int| item_path_hit(self.item_paths@[i], module, path))
    }

    /// What `path` denotes as an item, seen from `module`: the answer of the
    /// first row for it, in no namespace anything where there is none.
    pub open spec fn items_at(self, module: u64, path: SymbolPathView) -> PerNs {
        match first_true(self.item_path_hits(module, path)) {
            Some(i) => self.item_paths@[i].found,
            None => PerNs::spec_none(),
        }
    }

    /// For each row of type paths, whether it answers the question.
    pub open spec fn type_path_hits(
        self,
        module: u64,
        generic_env: Option<u64>,
        path: SymbolPathView,
    ) -> Seq<bool> {
        Seq::new(
            self.type_paths@.len(),
            |i: int| type_path_hit(self.type_paths@[i], module, generic_env, path),
        )
    }

    /// What `path` denotes in type position, seen from `module` under
    /// `generic_env`: the answer of the first row for it.
    pub open spec fn type_at(
        self,
        module: u64,
        generic_env: Option<u64>,
        path: SymbolPathView,
    ) -> Option<TypeReferent> {
        match first_true(self.type_path_hits(module, generic_env, path)) {
            Some(i) => Some(self.type_paths@[i].referent),
            None => None,
        }
    }

    /// For each row of fields, whether it is the field asked for.
    pub open spec fn field_hits(self, def: VariantDef, name: NameView) -> Seq<bool> {
        Seq::new(self.fields@.len(), |i: int| field_hit(self.fields@[i], def, name))
    }

    /// The field of `def` called `name`: the first such row.
    pub open spec fn field_named(self, def: VariantDef, name: NameView) -> Option<Field> {
        match first_true(self.field_hits(def, name)) {
            Some(i) => Some(self.fields@[i].field),
            None => None,
        }
    }

    /// For each row of types, whether it is for `ty`.
    pub open spec fn adt_hits(self, ty: u64) -> Seq<bool> {
        Seq::new(self.adts@.len(), |i: int| self.adts@[i].ty == ty)
    }

    /// The struct, union or enum that `ty` is, where it is one.
    pub open spec fn adt_of(self, ty: u64) -> Option<Adt> {
        match first_true(self.adt_hits(ty)) {
            Some(i) => Some(self.adts@[i].adt),
            None => None,
        }
    }

    /// For each row of scopes, whether it is that of `owner`.
    pub open spec fn scope_hits(self, owner: AttrDefId) -> Seq<bool> {
        Seq::new(self.scopes@.len(), |i: int| self.scopes@[i].owner == owner)
    }

    /// The scope that links written on `owner` are resolved in.
    pub open spec fn scope_of(self, owner: AttrDefId) -> Option<ResolutionScope> {
        match first_true(self.scope_hits(owner)) {
            Some(i) => Some(self.scopes@[i].scope),
            None => None,
        }
    }

    /// For each row of attributes, whether it is that of `owner`.
    pub open spec fn attr_hits(self, owner: AttrDefId) -> Seq<bool> {
        Seq::new(self.attrs@.len(), |i: int| self.attrs@[i].owner == owner)
    }

    /// The documentation attached to `owner`, line by line; none where the
    /// index holds nothing for it.
    pub open spec fn docs_of(self, owner: AttrDefId) -> Seq<Seq<char>> {
        match first_true(self.attr_hits(owner)) {
            Some(i) => text_views(self.attrs@[i].docs@),
            None => Seq::empty(),
        }
    }

    /// An index that knows nothing.
    pub fn new() -> (r: ScopeIndex)
        ensures
            r.item_paths@.len() == 0,
            r.type_paths@.len() == 0,
            r.inherent_items@.len() == 0,
            r.trait_candidates@.len() == 0,
            r.trait_items@.len() == 0,
            r.fields@.len() == 0,
            r.adts@.len() == 0,
            r.scopes@.len() == 0,
            r.attrs@.len() == 0,
    {
        ScopeIndex {
            item_paths: Vec::new(),
            type_paths: Vec::new(),
            inherent_items: Vec::new(),
            trait_candidates: Vec::new(),
            trait_items: Vec::new(),
            fields: Vec::new(),
            adts: Vec::new(),
            scopes: Vec::new(),
            attrs: Vec::new(),
        }
    }

    /// Looks `path` up as an item, seen from `module`.
    pub fn lookup_items(&self, module: u64, path: &SymbolPath) -> (r: PerNs)
        ensures
            r == self.items_at(module, path@),
    {
        let ghost hits = self.item_path_hits(module, path@);
        let mut i: usize = 0;
        while i < self.item_paths.len()
            invariant
                i <= self.item_paths@.len(),
                hits == self.item_path_hits(module, path@),
                forall|j: int| 0 <= j < i ==> !hits[j],
            decreases self.item_paths@.len() - i,
        {
            let row = &self.item_paths[i];
            if row.module == module && row.path.same(path) {
                proof {
                    lemma_first_true_at(hits, i as int);
                }
                return row.found;
            }
            i = i + 1;
        }
        proof {
            lemma_first_true_nowhere(hits);
        }
        PerNs::none()
    }

    /// Looks `path` up in type position, seen from `module` under
    /// `generic_env`.
    pub fn lookup_type(&self, module: u64, generic_env: Option<u64>, path: &SymbolPath) -> (r:
        Option<TypeReferent>)
        ensures
            r == self.type_at(module, generic_env, path@),
    {
        let ghost hits = self.type_path_hits(module, generic_env, path@);
        let mut i: usize = 0;
        while i < self.type_paths.len()
            invariant
                i <= self.type_paths@.len(),
                hits == self.type_path_hits(module, generic_env, path@),
                forall|j: int| 0 <= j < i ==> !hits[j],
            decreases self.type_paths@.len() - i,
        {
            let row = &self.type_paths[i];
            if row.module == module && row.generic_env == generic_env && row.path.same(path) {
                proof {
                    lemma_first_true_at(hits, i as int);
                }
                return Some(row.referent);
            }
            i = i + 1;
        }
        proof {
            lemma_first_true_nowhere(hits);
        }
        None
    }

    /// Looks up the field of `def` called `name`.
    pub fn lookup_field(&self, def: VariantDef, name: &Name) -> (r: Option<Field>)
        ensures
            r == self.field_named(def, name@),
    {
        let ghost hits = self.field_hits(def, name@);
        let mut i: usize = 0;
        while i < self.fields.len()
            invariant
                i <= self.fields@.len(),
                hits == self.field_hits(def, name@),
                forall|j: int| 0 <= j < i ==> !hits[j],
            decreases self.fields@.len() - i,
        {
            let row = &self.fields[i];
            if row.field.parent == def && row.name.same(name) {
                proof {
                    lemma_first_true_at(hits, i as int);
                }
                return Some(row.field);
            }
            i = i + 1;
        }
        proof {
            lemma_first_true_nowhere(hits);
        }
        None
    }

    /// Looks up the scope that links written on `owner` are resolved in.
    pub fn lookup_scope(&self, owner: AttrDefId) -> (r: Option<&ResolutionScope>)
        ensures
            match r {
                Some(scope) => self.scope_of(owner) == Some(*scope),
                None => self.scope_of(owner) is None,
            },
    {
        let ghost hits = self.scope_hits(owner);
        let mut i: usize = 0;
        while i < self.scopes.len()
            invariant
                i <= self.scopes@.len(),
                hits == self.scope_hits(owner),
                forall|j: int| 0 <= j < i ==> !hits[j],
            decreases self.scopes@.len() - i,
        {
            if self.scopes[i].owner == owner {
                proof {
                    lemma_first_true_at(hits, i as int);
                }
                return Some(&self.scopes[i].scope);
            }
            i = i + 1;
        }
        proof {
            lemma_first_true_nowhere(hits);
        }
        None
    }

    /// Looks up the documentation attached to `owner`.
    pub fn lookup_docs(&self, owner: AttrDefId) -> (r: Vec<String>)
        ensures
            text_views(r@) == self.docs_of(owner),
    {
        let ghost hits = self.attr_hits(owner);
        let mut i: usize = 0;
        while i < self.attrs.len()
            invariant
                i <= self.attrs@.len(),
                hits == self.attr_hits(owner),
                forall|j: int| 0 <= j < i ==> !hits[j],
            decreases self.attrs@.len() - i,
        {
            if self.attrs[i].owner == owner {
                proof {
                    lemma_first_true_at(hits, i as int);
                }
                let docs = &self.attrs[i].docs;
                let mut lines: Vec<String> = Vec::new();
                let mut k: usize = 0;
                while k < docs.len()
                    invariant
                        k <= docs@.len(),
                        lines@.len() == k,
                        forall|j: int| 0 <= j < k ==> lines@[j]@ == docs@[j]@,
                    decreases docs@.len() - k,
                {
                    lines.push(docs[k].clone());
                    k = k + 1;
                }
                assert(text_views(lines@) =~= text_views(docs@));
                return lines;
            }
            i = i + 1;
        }
        proof {
            lemma_first_true_nowhere(hits);
        }
        let lines: Vec<String> = Vec::new();
        assert(text_views(lines@) =~= Seq::empty());
        lines
    }

    /// Looks up the struct, union or enum that `ty` is.
    pub fn lookup_adt(&self, ty: u64) -> (r: Option<Adt>)
        ensures
            r == self.adt_of(ty),
    {
        let ghost hits = self.adt_hits(ty);
        let mut i: usize = 0;
        while i < self.adts.len()
            invariant
                i <= self.adts@.len(),
                hits == self.adt_hits(ty),
                forall|j: int| 0 <= j < i ==> !hits[j],
            decreases self.adts@.len() - i,
        {
            if self.adts[i].ty == ty {
                proof {
                    lemma_first_true_at(hits, i as int);
                }
                return Some(self.adts[i].adt);
            }
            i = i + 1;
        }
        proof {
            lemma_first_true_nowhere(hits);
        }
        None
    }
}

} // verus!
