//! The resolver: from a link and the scope it is written in to the definition
//! it denotes.

use vstd::prelude::*;
use crate::names::{Name, NameView, NamespaceKind};
use crate::path::{SymbolPath, SymbolPathView};
use crate::defs::{
    Adt, AssocItem, Declaration, PerNs, ResolvedTarget, TypeReferent, VariantDef,
};
use crate::index::{
    first_true, lemma_first_true_at, lemma_first_true_nowhere, CandidateEntry, InherentEntry,
    ResolutionScope, ScopeIndex, TraitItemEntry,
};
use crate::tuple_field::{link_path, modpath_from_str};

verus! {

/// Whether a caller who asks for `filter` takes a result that lives in `ns`:
/// any without a filter, only its own with one.
pub open spec fn accepts(filter: Option<NamespaceKind>, ns: NamespaceKind) -> bool {
    filter is None || filter == Some(ns)
}

/// The definition an associated item is, where the caller takes its
/// namespace: the value namespace for a function or a constant, the type
/// namespace for a type alias.
pub open spec fn assoc_target(item: AssocItem, filter: Option<NamespaceKind>) -> Option<
    ResolvedTarget,
> {
    if accepts(filter, item.declaration().kind.spec_namespace()) {
        Some(ResolvedTarget::Declaration(item.declaration()))
    } else {
        None
    }
}

/// The one definition among those a path denotes that the caller asks for.
/// With a filter it is that of the filter's slot, and only where the filter's
/// namespace is the one it naturally lives in: what lives elsewhere is
/// discarded. Without a filter it is the first there is, types before values
/// before macros.
pub open spec fn selected(found: PerNs, filter: Option<NamespaceKind>) -> Option<ResolvedTarget> {
    match filter {
        Some(ns) => match found.spec_slot(ns) {
            Some(d) => if d.kind.spec_namespace() == ns {
                Some(ResolvedTarget::Declaration(d))
            } else {
                None
            },
            None => None,
        },
        None => if found.types is Some {
            Some(ResolvedTarget::Declaration(found.types->0))
        } else if found.values is Some {
            Some(ResolvedTarget::Declaration(found.values->0))
        } else if found.macros is Some {
            Some(ResolvedTarget::Declaration(found.macros->0))
        } else {
            None
        },
    }
}

/// The field of `def` called `name`, for a caller who takes values.
pub open spec fn field_target(
    index: ScopeIndex,
    def: VariantDef,
    name: NameView,
    filter: Option<NamespaceKind>,
) -> Option<ResolvedTarget> {
    if accepts(filter, NamespaceKind::Value) {
        match index.field_named(def, name) {
            Some(f) => Some(ResolvedTarget::FieldMember(f)),
            None => None,
        }
    } else {
        None
    }
}

/// Whether the row is an item of `ty` itself, called `name`, that the caller
/// takes.
pub open spec fn inherent_hit(
    row: InherentEntry,
    ty: u64,
    name: NameView,
    filter: Option<NamespaceKind>,
) -> bool {
    row.ty == ty && row.item.is_named(name) && assoc_target(row.item, filter) is Some
}

/// For each row of inherent items, whether it is a hit.
pub open spec fn inherent_hits(
    index: ScopeIndex,
    ty: u64,
    name: NameView,
    filter: Option<NamespaceKind>,
) -> Seq<bool> {
    Seq::new(
        index.inherent_items@.len(),
        |i: int| inherent_hit(index.inherent_items@[i], ty, name, filter),
    )
}

/// The first item of `ty` itself, called `name`, that the caller takes.
/// Whether a trait is visible plays no part.
pub open spec fn inherent_member(
    index: ScopeIndex,
    ty: u64,
    name: NameView,
    filter: Option<NamespaceKind>,
) -> Option<ResolvedTarget> {
    match first_true(inherent_hits(index, ty, name, filter)) {
        Some(i) => assoc_target(index.inherent_items@[i].item, filter),
        None => None,
    }
}

/// Whether the row is an item called `name` that `ty` has, under the scope's
/// generic environment, through a trait the scope sees, and that the caller
/// takes.
pub open spec fn candidate_hit(
    row: CandidateEntry,
    scope: ResolutionScope,
    ty: u64,
    name: NameView,
    filter: Option<NamespaceKind>,
) -> bool {
    row.ty == ty && row.generic_env == scope.generic_env && scope.sees(row.via_trait)
        && row.item.is_named(name) && assoc_target(row.item, filter) is Some
}

/// For each row of trait candidates, whether it is a hit.
pub open spec fn candidate_hits(
    index: ScopeIndex,
    scope: ResolutionScope,
    ty: u64,
    name: NameView,
    filter: Option<NamespaceKind>,
) -> Seq<bool> {
    Seq::new(
        index.trait_candidates@.len(),
        |i: int| candidate_hit(index.trait_candidates@[i], scope, ty, name, filter),
    )
}

/// The first candidate, in the order of enumeration, that `ty` has through a
/// visible trait under the name `name` and that the caller takes. Where
/// several visible traits provide the name, the first one met wins.
pub open spec fn provided_member(
    index: ScopeIndex,
    scope: ResolutionScope,
    ty: u64,
    name: NameView,
    filter: Option<NamespaceKind>,
) -> Option<ResolvedTarget> {
    match first_true(candidate_hits(index, scope, ty, name, filter)) {
        Some(i) => assoc_target(index.trait_candidates@[i].item, filter),
        None => None,
    }
}

/// Whether the row is an item that the trait declares itself under the name
/// `name`.
pub open spec fn trait_item_hit(row: TraitItemEntry, trait_id: u64, name: NameView) -> bool {
    row.trait_id == trait_id && row.item.is_named(name)
}

/// For each row of trait items, whether it is a hit.
pub open spec fn trait_item_hits(index: ScopeIndex, trait_id: u64, name: NameView) -> Seq<bool> {
    Seq::new(
        index.trait_items@.len(),
        |i: int| trait_item_hit(index.trait_items@[i], trait_id, name),
    )
}

/// The item that the trait declares itself under the name `name`, where the
/// caller takes its namespace. The first item of that name decides.
pub open spec fn trait_member(
    index: ScopeIndex,
    trait_id: u64,
    name: NameView,
    filter: Option<NamespaceKind>,
) -> Option<ResolvedTarget> {
    match first_true(trait_item_hits(index, trait_id, name)) {
        Some(i) => assoc_target(index.trait_items@[i].item, filter),
        None => None,
    }
}

/// The member `name` of the type `ty`: an inherent item first, then an item
/// provided by a visible trait, then, on a struct or a union, a field.
pub open spec fn typed_member(
    index: ScopeIndex,
    scope: ResolutionScope,
    ty: u64,
    name: NameView,
    filter: Option<NamespaceKind>,
) -> Option<ResolvedTarget> {
    if inherent_member(index, ty, name, filter) is Some {
        inherent_member(index, ty, name, filter)
    } else if provided_member(index, scope, ty, name, filter) is Some {
        provided_member(index, scope, ty, name, filter)
    } else {
        match index.adt_of(ty) {
            Some(Adt::Struct(id)) => field_target(index, VariantDef::Struct(id), name, filter),
            Some(Adt::Union(id)) => field_target(index, VariantDef::Union(id), name, filter),
            Some(Adt::Enum(_)) => None,
            None => None,
        }
    }
}

/// The member `name` of what a path denotes in type position.
pub open spec fn member_target(
    index: ScopeIndex,
    scope: ResolutionScope,
    referent: TypeReferent,
    name: NameView,
    filter: Option<NamespaceKind>,
) -> Option<ResolvedTarget> {
    match referent {
        TypeReferent::GenericParam { .. } => None,
        TypeReferent::TraitAliasInstance { .. } => None,
        TypeReferent::EnumVariant { variant } => field_target(
            index,
            VariantDef::Variant(variant),
            name,
            filter,
        ),
        TypeReferent::TraitInstance { trait_id } => trait_member(index, trait_id, name, filter),
        TypeReferent::TypeAliasTarget { associated, ty } => if associated {
            None
        } else {
            typed_member(index, scope, ty, name, filter)
        },
        TypeReferent::SelfType { ty } => typed_member(index, scope, ty, name, filter),
        TypeReferent::AdtInstance { ty } => typed_member(index, scope, ty, name, filter),
        TypeReferent::BuiltinType { ty } => typed_member(index, scope, ty, name, filter),
    }
}

/// What `path` denotes as an item that the caller takes. A path that ends in
/// a tuple position is never an item.
pub open spec fn direct_target(
    index: ScopeIndex,
    scope: ResolutionScope,
    path: SymbolPathView,
    filter: Option<NamespaceKind>,
) -> Option<ResolvedTarget> {
    if path.ends_in_tuple_field() {
        None
    } else {
        selected(index.items_at(scope.module, path), filter)
    }
}

/// What `path` denotes when its last name is a member of what the rest of it
/// denotes in type position.
pub open spec fn member_of_prefix(
    index: ScopeIndex,
    scope: ResolutionScope,
    path: SymbolPathView,
    filter: Option<NamespaceKind>,
) -> Option<ResolvedTarget> {
    if path.segments.len() == 0 || path.parent().is_empty() {
        None
    } else {
        match index.type_at(scope.module, scope.generic_env, path.parent()) {
            Some(referent) => member_target(index, scope, referent, path.segments.last(), filter),
            None => None,
        }
    }
}

/// What `path` denotes: the item it names where there is one that the caller
/// takes, else the member that its last name is of its prefix.
pub open spec fn resolved_path(
    index: ScopeIndex,
    scope: ResolutionScope,
    path: SymbolPathView,
    filter: Option<NamespaceKind>,
) -> Option<ResolvedTarget> {
    if direct_target(index, scope, path, filter) is Some {
        direct_target(index, scope, path, filter)
    } else {
        member_of_prefix(index, scope, path, filter)
    }
}

/// What the link `link` denotes in `scope`.
pub open spec fn resolved(
    index: ScopeIndex,
    scope: ResolutionScope,
    link: Seq<char>,
    filter: Option<NamespaceKind>,
) -> Option<ResolvedTarget> {
    match link_path(link) {
        Some(path) => resolved_path(index, scope, path, filter),
        None => None,
    }
}

/// Whether a caller who asks for `filter` takes a result that lives in `ns`.
pub fn namespace_accepted(filter: Option<NamespaceKind>, ns: NamespaceKind) -> (r: bool)
    ensures
        r == accepts(filter, ns),
{
    match filter {
        None => true,
        Some(wanted) => wanted == ns,
    }
}

/// The definition an associated item is, where the caller takes its
/// namespace.
pub fn as_module_def_if_namespace_matches(assoc_item: &AssocItem, ns: Option<NamespaceKind>) -> (r:
    Option<ResolvedTarget>)
    ensures
        r == assoc_target(*assoc_item, ns),
{
    let def = Declaration { kind: assoc_item.kind.decl_kind(), id: assoc_item.id };
    if namespace_accepted(ns, def.kind.namespace()) {
        Some(ResolvedTarget::Declaration(def))
    } else {
        None
    }
}

/// Picks, among the definitions a path denotes, the one the caller asks for.
pub fn select_namespace(found: PerNs, filter: Option<NamespaceKind>) -> (r: Option<ResolvedTarget>)
    ensures
        r == selected(found, filter),
{
    let chosen = match filter {
        Some(ns) => match found.slot(ns) {
            Some(d) => if d.kind.namespace() == ns {
                Some(d)
            } else {
                None
            },
            None => None,
        },
        None => if found.types.is_some() {
            found.types
        } else if found.values.is_some() {
            found.values
        } else {
            found.macros
        },
    };
    match chosen {
        Some(d) => Some(ResolvedTarget::Declaration(d)),
        None => None,
    }
}

/// Resolves `path` as an item: what it denotes in each namespace, or `None`
/// where it denotes nothing in any.
pub fn resolve_item_path(index: &ScopeIndex, scope: &ResolutionScope, path: &SymbolPath) -> (r:
    Option<PerNs>)
    ensures
        r == if index.items_at(scope.module, path@).spec_is_none() {
            None
        } else {
            Some(index.items_at(scope.module, path@))
        },
{
    let found = index.lookup_items(scope.module, path);
    if found.is_none() {
        None
    } else {
        Some(found)
    }
}

/// Resolves `path` in type position.
pub fn resolve_type(index: &ScopeIndex, scope: &ResolutionScope, path: &SymbolPath) -> (r: Option<
    TypeReferent,
>)
    ensures
        r == index.type_at(scope.module, scope.generic_env, path@),
{
    index.lookup_type(scope.module, scope.generic_env, path)
}

/// Looks up the field of `def` called `name`. Fields are values: a caller
/// who asks for a type or a macro gets none.
pub fn resolve_field(
    index: &ScopeIndex,
    def: VariantDef,
    name: &Name,
    ns: Option<NamespaceKind>,
) -> (r: Option<ResolvedTarget>)
    ensures
        r == field_target(*index, def, name@, ns),
        r is Some ==> r->0 is FieldMember,
{
    if !namespace_accepted(ns, NamespaceKind::Value) {
        return None;
    }
    match index.lookup_field(def, name) {
        Some(f) => Some(ResolvedTarget::FieldMember(f)),
        None => None,
    }
}

/// Searches the items that `ty` has of its own.
pub fn resolve_assoc_item(index: &ScopeIndex, ty: u64, name: &Name, ns: Option<NamespaceKind>) -> (r:
    Option<ResolvedTarget>)
    ensures
        r == inherent_member(*index, ty, name@, ns),
{
    let ghost hits = inherent_hits(*index, ty, name@, ns);
    let mut i: usize = 0;
    while i < index.inherent_items.len()
        invariant
            i <= index.inherent_items@.len(),
            hits == inherent_hits(*index, ty, name@, ns),
            forall|j: int| 0 <= j < i ==> !hits[j],
        decreases index.inherent_items@.len() - i,
    {
        let row = &index.inherent_items[i];
        if row.ty == ty && row.item.has_name(name) {
            let def = as_module_def_if_namespace_matches(&row.item, ns);
            if def.is_some() {
                proof {
                    lemma_first_true_at(hits, i as int);
                }
                return def;
            }
        }
        i = i + 1;
    }
    proof {
        lemma_first_true_nowhere(hits);
    }
    None
}

/// Searches the items that `ty` has through the traits that `scope` sees,
/// under the generic environment of `scope`, and stops at the first that the
/// caller takes.
pub fn resolve_impl_trait_item(
    index: &ScopeIndex,
    scope: &ResolutionScope,
    ty: u64,
    name: &Name,
    ns: Option<NamespaceKind>,
) -> (r: Option<ResolvedTarget>)
    ensures
        r == provided_member(*index, *scope, ty, name@, ns),
{
    let ghost hits = candidate_hits(*index, *scope, ty, name@, ns);
    let mut i: usize = 0;
    while i < index.trait_candidates.len()
        invariant
            i <= index.trait_candidates@.len(),
            hits == candidate_hits(*index, *scope, ty, name@, ns),
            forall|j: int| 0 <= j < i ==> !hits[j],
        decreases index.trait_candidates@.len() - i,
    {
        let row = &index.trait_candidates[i];
        if row.ty == ty && row.generic_env == scope.generic_env && scope.has_trait(row.via_trait)
            && row.item.has_name(name) {
            let def = as_module_def_if_namespace_matches(&row.item, ns);
            if def.is_some() {
                proof {
                    lemma_first_true_at(hits, i as int);
                }
                return def;
            }
        }
        i = i + 1;
    }
    proof {
        lemma_first_true_nowhere(hits);
    }
    None
}

/// Searches the items that the trait declares itself; those of its
/// supertraits are not looked at.
pub fn resolve_trait_item(index: &ScopeIndex, trait_id: u64, name: &Name, ns: Option<NamespaceKind>) -> (r:
    Option<ResolvedTarget>)
    ensures
        r == trait_member(*index, trait_id, name@, ns),
{
    let ghost hits = trait_item_hits(*index, trait_id, name@);
    let mut i: usize = 0;
    while i < index.trait_items.len()
        invariant
            i <= index.trait_items@.len(),
            hits == trait_item_hits(*index, trait_id, name@),
            forall|j: int| 0 <= j < i ==> !hits[j],
        decreases index.trait_items@.len() - i,
    {
        let row = &index.trait_items[i];
        if row.trait_id == trait_id && row.item.has_name(name) {
            proof {
                lemma_first_true_at(hits, i as int);
            }
            return as_module_def_if_namespace_matches(&row.item, ns);
        }
        i = i + 1;
    }
    proof {
        lemma_first_true_nowhere(hits);
    }
    None
}

/// Resolves `name` as a member of the type `ty`: inherent items first, then
/// trait items, then fields.
pub fn resolve_type_member(
    index: &ScopeIndex,
    scope: &ResolutionScope,
    ty: u64,
    name: &Name,
    ns: Option<NamespaceKind>,
) -> (r: Option<ResolvedTarget>)
    ensures
        r == typed_member(*index, *scope, ty, name@, ns),
{
    if let Some(assoc_item_def) = resolve_assoc_item(index, ty, name, ns) {
        return Some(assoc_item_def);
    }
    if let Some(impl_trait_item_def) = resolve_impl_trait_item(index, scope, ty, name, ns) {
        return Some(impl_trait_item_def);
    }
    let variant_def = match index.lookup_adt(ty) {
        Some(Adt::Struct(id)) => VariantDef::Struct(id),
        Some(Adt::Union(id)) => VariantDef::Union(id),
        Some(Adt::Enum(_)) => return None,
        None => return None,
    };
    resolve_field(index, variant_def, name, ns)
}

/// Resolves `name` as a member of what a path denotes in type position.
///
/// A generic parameter and a trait alias have no members. An enum variant
/// has fields only. A trait has the items it declares itself. An associated
/// type alias stands for no type that could have members. Every other
/// referent is a type, searched as [`resolve_type_member`] says.
pub fn resolve_assoc_or_field(
    index: &ScopeIndex,
    scope: &ResolutionScope,
    referent: TypeReferent,
    name: &Name,
    ns: Option<NamespaceKind>,
) -> (r: Option<ResolvedTarget>)
    ensures
        r == member_target(*index, *scope, referent, name@, ns),
{
    let ty = match referent {
        TypeReferent::SelfType { ty } => ty,
        TypeReferent::GenericParam { .. } => {
            return None;
        },
        TypeReferent::AdtInstance { ty } => ty,
        TypeReferent::EnumVariant { variant } => {
            return resolve_field(index, VariantDef::Variant(variant), name, ns);
        },
        TypeReferent::TypeAliasTarget { associated, ty } => {
            if associated {
                return None;
            }
            ty
        },
        TypeReferent::BuiltinType { ty } => ty,
        TypeReferent::TraitInstance { trait_id } => {
            return resolve_trait_item(index, trait_id, name, ns);
        },
        TypeReferent::TraitAliasInstance { .. } => {
            return None;
        },
    };
    resolve_type_member(index, scope, ty, name, ns)
}

/// Resolves a path that a link was found to spell.
///
/// An ordinary path that names an item the caller takes resolves to that
/// item. Otherwise the last name is taken off and resolved as a member of
/// what the rest denotes in type position; a path without a last name, or
/// with nothing before it, resolves to nothing.
pub fn resolve_path(
    index: &ScopeIndex,
    scope: &ResolutionScope,
    path: SymbolPath,
    filter: Option<NamespaceKind>,
) -> (r: Option<ResolvedTarget>)
    ensures
        r == resolved_path(*index, *scope, path@, filter),
{
    if !path.ends_in_tuple_field() {
        if let Some(found) = resolve_item_path(index, scope, &path) {
            if let Some(def) = select_namespace(found, filter) {
                return Some(def);
            }
        }
    }
    let mut prefix = path;
    let last_name = match prefix.pop_segment() {
        Some(name) => name,
        None => return None,
    };
    if prefix.is_empty() {
        return None;
    }
    match resolve_type(index, scope, &prefix) {
        Some(referent) => resolve_assoc_or_field(index, scope, referent, &last_name, filter),
        None => None,
    }
}

/// Resolves the definition that `link` points to in `scope`.
///
/// A link that spells no path resolves to nothing.
pub fn resolve(
    index: &ScopeIndex,
    scope: &ResolutionScope,
    link: &str,
    filter: Option<NamespaceKind>,
) -> (r: Option<ResolvedTarget>)
    ensures
        r == resolved(*index, *scope, link@, filter),
{
    match modpath_from_str(link) {
        Some(path) => resolve_path(index, scope, path, filter),
        None => None,
    }
}

} // verus!
