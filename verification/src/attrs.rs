//! Documentation and the declarations it is attached to.

use vstd::prelude::*;
use crate::names::NamespaceKind;
use crate::defs::{
    Adt, AssocItem, AssocItemKind, AttrDefId, EnumVariant, Field, GenericParam, ResolvedTarget,
    VariantDef,
};
use crate::index::{text_views, ScopeIndex};
use crate::resolve::{resolve, resolved};

verus! {

/// The documentation of a declaration, together with the declaration.
#[derive(Clone, Debug, PartialEq, Eq)]
pub struct AttrsWithOwner {
    pub owner: AttrDefId,
    pub docs: Vec<String>,
}

/// Reads the documentation attached to `def` from the index.
pub fn attrs_with_owner(index: &ScopeIndex, def: AttrDefId) -> (r: AttrsWithOwner)
    ensures
        r.owner == def,
        text_views(r.docs@) == index.docs_of(def),
{
    AttrsWithOwner { owner: def, docs: index.lookup_docs(def) }
}

/// A declaration that documentation can be attached to.
pub trait HasAttrs: Sized {
    /// The declaration as an attribute owner.
    spec fn attr_owner(self) -> AttrDefId;

    /// The documentation attached to the declaration.
    fn attrs(self, index: &ScopeIndex) -> (r: AttrsWithOwner)
        ensures
            r.owner == self.attr_owner(),
            text_views(r.docs@) == index.docs_of(self.attr_owner()),
    ;

    /// The declaration as an attribute owner.
    fn attr_id(self) -> (r: AttrDefId)
        ensures
            r == self.attr_owner(),
    ;
}

impl HasAttrs for AttrDefId {
    open spec fn attr_owner(self) -> AttrDefId {
        self
    }

    fn attrs(self, index: &ScopeIndex) -> (r: AttrsWithOwner) {
        attrs_with_owner(index, self)
    }

    fn attr_id(self) -> (r: AttrDefId) {
        self
    }
}

impl HasAttrs for Field {
    open spec fn attr_owner(self) -> AttrDefId {
        AttrDefId::FieldId(self)
    }

    fn attrs(self, index: &ScopeIndex) -> (r: AttrsWithOwner) {
        attrs_with_owner(index, AttrDefId::FieldId(self))
    }

    fn attr_id(self) -> (r: AttrDefId) {
        AttrDefId::FieldId(self)
    }
}

impl HasAttrs for EnumVariant {
    open spec fn attr_owner(self) -> AttrDefId {
        AttrDefId::EnumVariantId(self)
    }

    fn attrs(self, index: &ScopeIndex) -> (r: AttrsWithOwner) {
        attrs_with_owner(index, AttrDefId::EnumVariantId(self))
    }

    fn attr_id(self) -> (r: AttrDefId) {
        AttrDefId::EnumVariantId(self)
    }
}

impl HasAttrs for Adt {
    open spec fn attr_owner(self) -> AttrDefId {
        AttrDefId::AdtId(self)
    }

    fn attrs(self, index: &ScopeIndex) -> (r: AttrsWithOwner) {
        attrs_with_owner(index, AttrDefId::AdtId(self))
    }

    fn attr_id(self) -> (r: AttrDefId) {
        AttrDefId::AdtId(self)
    }
}

impl HasAttrs for GenericParam {
    open spec fn attr_owner(self) -> AttrDefId {
        AttrDefId::GenericParamId(self)
    }

    fn attrs(self, index: &ScopeIndex) -> (r: AttrsWithOwner) {
        attrs_with_owner(index, AttrDefId::GenericParamId(self))
    }

    fn attr_id(self) -> (r: AttrDefId) {
        AttrDefId::GenericParamId(self)
    }
}

impl HasAttrs for AssocItem {
    open spec fn attr_owner(self) -> AttrDefId {
        match self.kind {
            AssocItemKind::Function => AttrDefId::FunctionId(self.id),
            AssocItemKind::Const => AttrDefId::ConstId(self.id),
            AssocItemKind::TypeAlias => AttrDefId::TypeAliasId(self.id),
        }
    }

    fn attrs(self, index: &ScopeIndex) -> (r: AttrsWithOwner) {
        match self.kind {
            AssocItemKind::Function => AttrDefId::FunctionId(self.id).attrs(index),
            AssocItemKind::Const => AttrDefId::ConstId(self.id).attrs(index),
            AssocItemKind::TypeAlias => AttrDefId::TypeAliasId(self.id).attrs(index),
        }
    }

    fn attr_id(self) -> (r: AttrDefId) {
        match self.kind {
            AssocItemKind::Function => AttrDefId::FunctionId(self.id).attr_id(),
            AssocItemKind::Const => AttrDefId::ConstId(self.id).attr_id(),
            AssocItemKind::TypeAlias => AttrDefId::TypeAliasId(self.id).attr_id(),
        }
    }
}

/// The declaration whose scope the links on `def` are resolved in: its own
/// for most, that of the struct, union or enum around it for a field or a
/// variant, and none for a generic parameter.
pub open spec fn scope_owner(def: AttrDefId) -> Option<AttrDefId> {
    match def {
        AttrDefId::FieldId(f) => match f.parent {
            VariantDef::Struct(id) => Some(AttrDefId::AdtId(Adt::Struct(id))),
            VariantDef::Union(id) => Some(AttrDefId::AdtId(Adt::Union(id))),
            VariantDef::Variant(v) => Some(AttrDefId::AdtId(Adt::Enum(v.parent))),
        },
        AttrDefId::EnumVariantId(v) => Some(AttrDefId::AdtId(Adt::Enum(v.parent))),
        AttrDefId::GenericParamId(_) => None,
        _ => Some(def),
    }
}

/// The declaration whose scope the links on `def` are resolved in.
pub fn scope_owner_of(def: AttrDefId) -> (r: Option<AttrDefId>)
    ensures
        r == scope_owner(def),
{
    match def {
        AttrDefId::FieldId(f) => match f.parent {
            VariantDef::Struct(id) => Some(AttrDefId::AdtId(Adt::Struct(id))),
            VariantDef::Union(id) => Some(AttrDefId::AdtId(Adt::Union(id))),
            VariantDef::Variant(v) => Some(AttrDefId::AdtId(Adt::Enum(v.parent))),
        },
        AttrDefId::EnumVariantId(v) => Some(AttrDefId::AdtId(Adt::Enum(v.parent))),
        AttrDefId::GenericParamId(_) => None,
        _ => Some(def),
    }
}

/// What `link`, written on the declaration `def`, denotes: what it resolves
/// to in the scope that the index holds for the scope owner of `def`, and
/// nothing where there is no such owner or no such scope.
pub open spec fn resolved_on(
    index: ScopeIndex,
    def: AttrDefId,
    link: Seq<char>,
    ns: Option<NamespaceKind>,
) -> Option<ResolvedTarget> {
    match scope_owner(def) {
        Some(owner) => match index.scope_of(owner) {
            Some(scope) => resolved(index, scope, link, ns),
            None => None,
        },
        None => None,
    }
}

/// Resolves the item `link` points to in the scope of `def`.
pub fn resolve_doc_path_on<D: HasAttrs>(
    index: &ScopeIndex,
    def: D,
    link: &str,
    ns: Option<NamespaceKind>,
) -> (r: Option<ResolvedTarget>)
    ensures
        r == resolved_on(*index, def.attr_owner(), link@, ns),
{
    let owner = match scope_owner_of(def.attr_id()) {
        Some(owner) => owner,
        None => return None,
    };
    match index.lookup_scope(owner) {
        Some(scope) => resolve(index, scope, link, ns),
        None => None,
    }
}

} // verus!
