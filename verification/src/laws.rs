//! What holds of every resolution, proved from the definitions.

use vstd::prelude::*;
use crate::names::{NameView, NamespaceKind};
use crate::path::SymbolPathView;
use crate::defs::{AttrDefId, ResolvedTarget, TypeReferent, VariantDef};
use crate::index::{lemma_first_true, ResolutionScope, ScopeIndex};
use crate::syntax::{
    lemma_head_within, lowered, parsed, path_head, segment_name, syntax_first_path, type_position,
    RawSegmentView,
};
use crate::tuple_field::{link_path, split};
use crate::resolve::{
    accepts, candidate_hits, direct_target, field_target, inherent_hits, inherent_member,
    member_target, provided_member, resolved, resolved_path, trait_item_hits, trait_member,
    typed_member,
};
use crate::attrs::{resolved_on, scope_owner};

verus! {

/// Whether two indexes hold the same rows in the same order.
pub open spec fn same_rows(a: ScopeIndex, b: ScopeIndex) -> bool {
    &&& a.item_paths@ == b.item_paths@
    &&& a.type_paths@ == b.type_paths@
    &&& a.inherent_items@ == b.inherent_items@
    &&& a.trait_candidates@ == b.trait_candidates@
    &&& a.trait_items@ == b.trait_items@
    &&& a.fields@ == b.fields@
    &&& a.adts@ == b.adts@
    &&& a.scopes@ == b.scopes@
    &&& a.attrs@ == b.attrs@
}

/// Whether two scopes are the same standpoint: one module, one generic
/// environment, the same traits in the same order.
pub open spec fn same_scope(a: ResolutionScope, b: ResolutionScope) -> bool {
    &&& a.module == b.module
    &&& a.generic_env == b.generic_env
    &&& a.traits_in_scope@ == b.traits_in_scope@
}

/// Resolution is a function of what the index holds, of the scope, of the
/// path and of the filter: where these are the same, so is the result,
/// wherever the tables are stored.
pub proof fn lemma_resolution_is_determined(
    a: ScopeIndex,
    b: ScopeIndex,
    scope_a: ResolutionScope,
    scope_b: ResolutionScope,
    path: SymbolPathView,
    filter: Option<NamespaceKind>,
)
    requires
        same_rows(a, b),
        same_scope(scope_a, scope_b),
    ensures
        resolved_path(a, scope_a, path, filter) == resolved_path(b, scope_b, path, filter),
{
    assert(a.item_path_hits(scope_a.module, path) =~= b.item_path_hits(scope_b.module, path));
    if path.segments.len() > 0 {
        let name = path.segments.last();
        let prefix = path.parent();
        assert(a.type_path_hits(scope_a.module, scope_a.generic_env, prefix) =~= b.type_path_hits(
            scope_b.module,
            scope_b.generic_env,
            prefix,
        ));
        assert forall|referent: TypeReferent|
            member_target(a, scope_a, referent, name, filter) == member_target(
                b,
                scope_b,
                referent,
                name,
                filter,
            ) by {
            lemma_member_is_determined(a, b, scope_a, scope_b, referent, name, filter);
        }
    }
}

/// The member search is a function of what the index holds and of the scope.
pub proof fn lemma_member_is_determined(
    a: ScopeIndex,
    b: ScopeIndex,
    scope_a: ResolutionScope,
    scope_b: ResolutionScope,
    referent: TypeReferent,
    name: NameView,
    filter: Option<NamespaceKind>,
)
    requires
        same_rows(a, b),
        same_scope(scope_a, scope_b),
    ensures
        member_target(a, scope_a, referent, name, filter) == member_target(
            b,
            scope_b,
            referent,
            name,
            filter,
        ),
{
    assert forall|def: VariantDef|
        field_target(a, def, name, filter) == field_target(b, def, name, filter) by {
        assert(a.field_hits(def, name) =~= b.field_hits(def, name));
    }
    assert forall|ty: u64|
        typed_member(a, scope_a, ty, name, filter) == typed_member(
            b,
            scope_b,
            ty,
            name,
            filter,
        ) by {
        assert(inherent_hits(a, ty, name, filter) =~= inherent_hits(b, ty, name, filter));
        assert(candidate_hits(a, scope_a, ty, name, filter) =~= candidate_hits(
            b,
            scope_b,
            ty,
            name,
            filter,
        ));
        assert(a.adt_hits(ty) =~= b.adt_hits(ty));
    }
    assert forall|trait_id: u64|
        trait_member(a, trait_id, name, filter) == trait_member(b, trait_id, name, filter) by {
        assert(trait_item_hits(a, trait_id, name) =~= trait_item_hits(b, trait_id, name));
    }
}

/// A link resolves to one result: resolution of a link is a function of
/// what the index holds, of the scope, of the text and of the filter.
pub proof fn lemma_link_resolution_is_determined(
    a: ScopeIndex,
    b: ScopeIndex,
    scope_a: ResolutionScope,
    scope_b: ResolutionScope,
    link: Seq<char>,
    filter: Option<NamespaceKind>,
)
    requires
        same_rows(a, b),
        same_scope(scope_a, scope_b),
    ensures
        resolved(a, scope_a, link, filter) == resolved(b, scope_b, link, filter),
{
    if let Some(path) = link_path(link) {
        lemma_resolution_is_determined(a, b, scope_a, scope_b, path, filter);
    }
}

/// A text parses as a path only where the parser found a path that spans
/// the whole of it: a parse that would read back as anything but the text it
/// was given is rejected.
pub proof fn lemma_parse_round_trips(link: Seq<char>)
    ensures
        parsed(link) is Some ==> syntax_first_path(type_position(link)) is Some
            && syntax_first_path(type_position(link))->0.text == link,
{
}

/// What segments lower to names something, and each of its names is an
/// identifier.
pub proof fn lemma_lowered_path(segments: Seq<RawSegmentView>)
    ensures
        match lowered(segments) {
            Some(path) => !path.is_empty() && forall|i: int|
                0 <= i < path.segments.len() ==> (#[trigger] path.segments[i]) is Text,
            None => true,
        },
{
    if let Some(path) = lowered(segments) {
        lemma_head_within(segments);
        let head = path_head(segments)->0;
        let used = head.1;
        assert forall|i: int| 0 <= i < path.segments.len() implies (#[trigger] path.segments[i])
            is Text by {
            assert(segment_name(segments, used + i) is Some);
        }
    }
}

/// The path that a link spells names something. Each of its names is an
/// identifier, but for the last, which is a tuple position exactly where the
/// link is no ordinary path.
pub proof fn lemma_link_path_shape(link: Seq<char>)
    ensures
        match link_path(link) {
            Some(path) => {
                &&& !path.is_empty()
                &&& forall|i: int|
                    0 <= i < path.segments.len() - 1 ==> (#[trigger] path.segments[i]) is Text
                &&& path.ends_in_tuple_field() <==> parsed(link) is None
            },
            None => true,
        },
{
    match parsed(link) {
        Some(path) => {
            lemma_lowered_path(syntax_first_path(type_position(link))->0.segments);
        },
        None => {
            if let Some(path) = split(link) {
                let at = crate::tuple_field::last_separator(link)->0;
                let prefix = parsed(link.take(at))->0;
                lemma_lowered_path(
                    syntax_first_path(type_position(link.take(at)))->0.segments,
                );
                assert forall|i: int| 0 <= i < path.segments.len() - 1 implies (
                #[trigger] path.segments[i]) is Text by {
                    assert(path.segments[i] == prefix.segments[i]);
                }
            }
        },
    }
}

/// An associated item is taken only in its own namespace.
pub proof fn lemma_assoc_namespace(
    index: ScopeIndex,
    scope: ResolutionScope,
    referent: TypeReferent,
    name: NameView,
    filter: Option<NamespaceKind>,
)
    ensures
        match member_target(index, scope, referent, name, filter) {
            Some(r) => accepts(filter, r.spec_namespace()),
            None => true,
        },
{
}

/// With a filter, whatever a path resolves to lives in the namespace asked
/// for; and a field is never the answer to a caller who asks for a type or
/// a macro.
pub proof fn lemma_namespace_fidelity(
    index: ScopeIndex,
    scope: ResolutionScope,
    path: SymbolPathView,
    filter: Option<NamespaceKind>,
)
    ensures
        match resolved_path(index, scope, path, filter) {
            Some(r) => {
                &&& filter is Some ==> r.spec_namespace() == filter->0
                &&& r is FieldMember ==> filter != Some(NamespaceKind::Type) && filter != Some(
                    NamespaceKind::Macro,
                )
            },
            None => true,
        },
{
    if path.segments.len() > 0 {
        assert forall|referent: TypeReferent|
            match #[trigger] member_target(index, scope, referent, path.segments.last(), filter) {
                Some(r) => accepts(filter, r.spec_namespace()),
                None => true,
            } by {
            lemma_assoc_namespace(index, scope, referent, path.segments.last(), filter);
        }
    }
}

/// Namespace fidelity, of a link.
pub proof fn lemma_link_namespace_fidelity(
    index: ScopeIndex,
    scope: ResolutionScope,
    link: Seq<char>,
    filter: Option<NamespaceKind>,
)
    ensures
        match resolved(index, scope, link, filter) {
            Some(r) => {
                &&& filter is Some ==> r.spec_namespace() == filter->0
                &&& r is FieldMember ==> filter != Some(NamespaceKind::Type) && filter != Some(
                    NamespaceKind::Macro,
                )
            },
            None => true,
        },
{
    if let Some(path) = link_path(link) {
        lemma_namespace_fidelity(index, scope, path, filter);
    }
}

/// Without a filter, a path that names an item in several namespaces
/// resolves to the one in the type namespace where there is one, else to the
/// one in the value namespace, else to the macro.
pub proof fn lemma_priority_order(index: ScopeIndex, scope: ResolutionScope, path: SymbolPathView)
    requires
        !path.ends_in_tuple_field(),
    ensures
        ({
            let found = index.items_at(scope.module, path);
            &&& found.types is Some ==> resolved_path(index, scope, path, None) == Some(
                ResolvedTarget::Declaration(found.types->0),
            )
            &&& found.types is None && found.values is Some ==> resolved_path(
                index,
                scope,
                path,
                None,
            ) == Some(ResolvedTarget::Declaration(found.values->0))
            &&& found.types is None && found.values is None && found.macros is Some
                ==> resolved_path(index, scope, path, None) == Some(
                ResolvedTarget::Declaration(found.macros->0),
            )
        }),
{
}

/// The type whose members are searched for a referent that is a type.
pub open spec fn searched_type(referent: TypeReferent) -> Option<u64> {
    match referent {
        TypeReferent::SelfType { ty } => Some(ty),
        TypeReferent::AdtInstance { ty } => Some(ty),
        TypeReferent::BuiltinType { ty } => Some(ty),
        TypeReferent::TypeAliasTarget { associated, ty } => if associated {
            None
        } else {
            Some(ty)
        },
        _ => None,
    }
}

/// Where a type has an item of its own under a name, that item is the
/// member, whatever a trait provides under the same name.
pub proof fn lemma_inherent_before_trait(
    index: ScopeIndex,
    scope: ResolutionScope,
    referent: TypeReferent,
    name: NameView,
    filter: Option<NamespaceKind>,
)
    requires
        searched_type(referent) is Some,
        inherent_member(index, searched_type(referent)->0, name, filter) is Some,
    ensures
        member_target(index, scope, referent, name, filter) == inherent_member(
            index,
            searched_type(referent)->0,
            name,
            filter,
        ),
{
}

/// Where a type has no item of its own under a name, but a visible trait
/// provides one, that one is the member, whatever fields the type has.
pub proof fn lemma_trait_before_field(
    index: ScopeIndex,
    scope: ResolutionScope,
    referent: TypeReferent,
    name: NameView,
    filter: Option<NamespaceKind>,
)
    requires
        searched_type(referent) is Some,
        inherent_member(index, searched_type(referent)->0, name, filter) is None,
        provided_member(index, scope, searched_type(referent)->0, name, filter) is Some,
    ensures
        member_target(index, scope, referent, name, filter) == provided_member(
            index,
            scope,
            searched_type(referent)->0,
            name,
            filter,
        ),
{
}

/// A member of an enum variant is one of its fields or nothing: never an
/// associated item.
pub proof fn lemma_enum_variant_has_fields_only(
    index: ScopeIndex,
    scope: ResolutionScope,
    referent: TypeReferent,
    name: NameView,
    filter: Option<NamespaceKind>,
)
    requires
        referent is EnumVariant,
    ensures
        match member_target(index, scope, referent, name, filter) {
            Some(r) => r is FieldMember && r->FieldMember_0.parent == VariantDef::Variant(
                referent->variant,
            ),
            None => true,
        },
{
    lemma_first_true(index.field_hits(VariantDef::Variant(referent->variant), name));
}

/// A path whose prefix denotes an enum variant, and which names no item
/// itself, resolves to a field of that variant or to nothing.
pub proof fn lemma_enum_variant_path(
    index: ScopeIndex,
    scope: ResolutionScope,
    path: SymbolPathView,
    filter: Option<NamespaceKind>,
)
    requires
        path.segments.len() > 0,
        index.type_at(scope.module, scope.generic_env, path.parent()) is Some,
        index.type_at(scope.module, scope.generic_env, path.parent())->0 is EnumVariant,
        direct_target(index, scope, path, filter) is None,
    ensures
        match resolved_path(index, scope, path, filter) {
            Some(r) => r is FieldMember,
            None => true,
        },
{
    let referent = index.type_at(scope.module, scope.generic_env, path.parent())->0;
    lemma_enum_variant_has_fields_only(index, scope, referent, path.segments.last(), filter);
}

/// A member of a trait is an item that the trait declares itself under that
/// name: the index's rows for other traits, a supertrait among them, play no
/// part.
pub proof fn lemma_trait_members_are_declared(
    index: ScopeIndex,
    scope: ResolutionScope,
    referent: TypeReferent,
    name: NameView,
    filter: Option<NamespaceKind>,
)
    requires
        referent is TraitInstance,
    ensures
        match member_target(index, scope, referent, name, filter) {
            Some(r) => exists|i: int|
                0 <= i < index.trait_items@.len() && (#[trigger] index.trait_items@[i]).trait_id
                    == referent->trait_id && index.trait_items@[i].item.is_named(name) && r
                    == ResolvedTarget::Declaration(index.trait_items@[i].item.declaration()),
            None => true,
        },
{
    lemma_first_true(trait_item_hits(index, referent->trait_id, name));
}

/// A path whose prefix denotes a trait, and which names no item itself,
/// resolves to an item that the trait declares itself, or to nothing.
pub proof fn lemma_trait_path(
    index: ScopeIndex,
    scope: ResolutionScope,
    path: SymbolPathView,
    filter: Option<NamespaceKind>,
)
    requires
        path.segments.len() > 0,
        index.type_at(scope.module, scope.generic_env, path.parent()) is Some,
        index.type_at(scope.module, scope.generic_env, path.parent())->0 is TraitInstance,
        direct_target(index, scope, path, filter) is None,
    ensures
        match resolved_path(index, scope, path, filter) {
            Some(r) => exists|i: int|
                0 <= i < index.trait_items@.len() && (#[trigger] index.trait_items@[i]).trait_id
                    == index.type_at(
                    scope.module,
                    scope.generic_env,
                    path.parent(),
                )->0->trait_id && index.trait_items@[i].item.is_named(path.segments.last()) && r
                    == ResolvedTarget::Declaration(index.trait_items@[i].item.declaration()),
            None => true,
        },
{
    let referent = index.type_at(scope.module, scope.generic_env, path.parent())->0;
    lemma_trait_members_are_declared(index, scope, referent, path.segments.last(), filter);
}

/// A generic parameter and a trait alias have no members, and neither has
/// an associated type alias.
pub proof fn lemma_unsupported_referents(
    index: ScopeIndex,
    scope: ResolutionScope,
    referent: TypeReferent,
    name: NameView,
    filter: Option<NamespaceKind>,
)
    requires
        referent is GenericParam || referent is TraitAliasInstance || (referent is TypeAliasTarget
            && referent->associated),
    ensures
        member_target(index, scope, referent, name, filter) is None,
{
}

/// A path that ends in a tuple position resolves to a field or to nothing:
/// it is never looked up as an item, and no associated item goes by a tuple
/// position.
pub proof fn lemma_tuple_position_is_a_field(
    index: ScopeIndex,
    scope: ResolutionScope,
    path: SymbolPathView,
    filter: Option<NamespaceKind>,
)
    requires
        path.ends_in_tuple_field(),
    ensures
        match resolved_path(index, scope, path, filter) {
            Some(r) => r is FieldMember,
            None => true,
        },
{
    let name = path.segments.last();
    assert forall|ty: u64| inherent_member(index, ty, name, filter) is None by {
        lemma_first_true(inherent_hits(index, ty, name, filter));
    }
    assert forall|ty: u64| provided_member(index, scope, ty, name, filter) is None by {
        lemma_first_true(candidate_hits(index, scope, ty, name, filter));
    }
    assert forall|t: u64| trait_member(index, t, name, filter) is None by {
        lemma_first_true(trait_item_hits(index, t, name));
    }
}

/// Links on a generic parameter resolve to nothing; links on a field or on
/// a variant resolve as they do on the struct, union or enum around it.
pub proof fn lemma_scope_of_owner(
    index: ScopeIndex,
    def: AttrDefId,
    link: Seq<char>,
    ns: Option<NamespaceKind>,
)
    ensures
        def is GenericParamId ==> resolved_on(index, def, link, ns) is None,
        scope_owner(def) is Some ==> resolved_on(index, def, link, ns) == resolved_on(
            index,
            scope_owner(def)->0,
            link,
            ns,
        ),
{
}

} // verus!
