//! The definitions a link can denote, and the handles by which they are known.
//!
//! Definitions live in tables owned by the host; here each is a small handle:
//! a kind and a number.

use vstd::prelude::*;
use crate::names::{Name, NameView, NamespaceKind};

verus! {

/// What sort of module-level definition a handle stands for.
#[derive(Clone, Copy, PartialEq, Eq, Structural, Debug, Hash)]
pub enum DeclKind {
    Module,
    Function,
    Const,
    Static,
    Struct,
    Union,
    Enum,
    Variant,
    Trait,
    TraitAlias,
    TypeAlias,
    BuiltinType,
    Macro,
}

impl DeclKind {
    /// The one namespace a definition of this kind naturally lives in.
    pub open spec fn spec_namespace(self) -> NamespaceKind {
        match self {
            DeclKind::Function | DeclKind::Const | DeclKind::Static => NamespaceKind::Value,
            DeclKind::Macro => NamespaceKind::Macro,
            _ => NamespaceKind::Type,
        }
    }

    /// The one namespace a definition of this kind naturally lives in.
    #[verifier::when_used_as_spec(spec_namespace)]
    pub fn namespace(self) -> (r: NamespaceKind)
        ensures
            r == self.spec_namespace(),
    {
        match self {
            DeclKind::Function | DeclKind::Const | DeclKind::Static => NamespaceKind::Value,
            DeclKind::Macro => NamespaceKind::Macro,
            _ => NamespaceKind::Type,
        }
    }
}

/// A module-level definition.
#[derive(Clone, Copy, PartialEq, Eq, Structural, Debug, Hash)]
pub struct Declaration {
    pub kind: DeclKind,
    pub id: u64,
}

/// A struct, a union or an enum.
#[derive(Clone, Copy, PartialEq, Eq, Structural, Debug, Hash)]
pub enum Adt {
    Struct(u64),
    Union(u64),
    Enum(u64),
}

/// One variant of an enum.
#[derive(Clone, Copy, PartialEq, Eq, Structural, Debug, Hash)]
pub struct EnumVariant {
    /// The enum that declares the variant.
    pub parent: u64,
    pub id: u64,
}

/// A definition that owns fields.
#[derive(Clone, Copy, PartialEq, Eq, Structural, Debug, Hash)]
pub enum VariantDef {
    Struct(u64),
    Union(u64),
    Variant(EnumVariant),
}

/// One field of one definition.
#[derive(Clone, Copy, PartialEq, Eq, Structural, Debug, Hash)]
pub struct Field {
    pub parent: VariantDef,
    pub id: u32,
}

/// A generic parameter.
#[derive(Clone, Copy, PartialEq, Eq, Structural, Debug, Hash)]
pub enum GenericParam {
    TypeParam(u64),
    ConstParam(u64),
    LifetimeParam(u64),
}

/// Anything that documentation and other attributes can be attached to.
#[derive(Clone, Copy, PartialEq, Eq, Structural, Debug, Hash)]
pub enum AttrDefId {
    ModuleId(u64),
    FieldId(Field),
    AdtId(Adt),
    FunctionId(u64),
    EnumVariantId(EnumVariant),
    StaticId(u64),
    ConstId(u64),
    TraitId(u64),
    TraitAliasId(u64),
    TypeAliasId(u64),
    MacroId(u64),
    ImplId(u64),
    GenericParamId(GenericParam),
    ExternBlockId(u64),
    ExternCrateId(u64),
    UseId(u64),
}

/// What a link resolves to.
#[derive(Clone, Copy, PartialEq, Eq, Structural, Debug, Hash)]
pub enum ResolvedTarget {
    Declaration(Declaration),
    FieldMember(Field),
}

impl ResolvedTarget {
    /// The namespace the target lives in: that of its kind for a definition,
    /// the value namespace for a field.
    pub open spec fn spec_namespace(self) -> NamespaceKind {
        match self {
            ResolvedTarget::Declaration(d) => d.kind.spec_namespace(),
            ResolvedTarget::FieldMember(_) => NamespaceKind::Value,
        }
    }

    /// The namespace the target lives in.
    #[verifier::when_used_as_spec(spec_namespace)]
    pub fn namespace(self) -> (r: NamespaceKind)
        ensures
            r == self.spec_namespace(),
    {
        match self {
            ResolvedTarget::Declaration(d) => d.kind.namespace(),
            ResolvedTarget::FieldMember(_) => NamespaceKind::Value,
        }
    }
}

/// What sort of item is associated with a type or declared by a trait.
#[derive(Clone, Copy, PartialEq, Eq, Structural, Debug, Hash)]
pub enum AssocItemKind {
    Function,
    Const,
    TypeAlias,
}

impl AssocItemKind {
    /// The kind of definition an associated item of this kind is.
    pub open spec fn spec_decl_kind(self) -> DeclKind {
        match self {
            AssocItemKind::Function => DeclKind::Function,
            AssocItemKind::Const => DeclKind::Const,
            AssocItemKind::TypeAlias => DeclKind::TypeAlias,
        }
    }

    /// The kind of definition an associated item of this kind is.
    #[verifier::when_used_as_spec(spec_decl_kind)]
    pub fn decl_kind(self) -> (r: DeclKind)
        ensures
            r == self.spec_decl_kind(),
    {
        match self {
            AssocItemKind::Function => DeclKind::Function,
            AssocItemKind::Const => DeclKind::Const,
            AssocItemKind::TypeAlias => DeclKind::TypeAlias,
        }
    }
}

/// An item associated with a type or declared by a trait.
#[derive(Clone, Debug, PartialEq, Eq, Hash)]
pub struct AssocItem {
    pub kind: AssocItemKind,
    pub id: u64,
    /// The identifier the item goes by; `None` for an unnamed constant.
    pub name: Option<String>,
}

impl AssocItem {
    /// The item as a module-level definition.
    pub open spec fn declaration(self) -> Declaration {
        Declaration { kind: self.kind.spec_decl_kind(), id: self.id }
    }

    /// Whether the item is called `name`. No item is called by a tuple
    /// position.
    pub open spec fn is_named(self, name: NameView) -> bool {
        match self.name {
            Some(n) => name == NameView::Text(n@),
            None => false,
        }
    }

    /// Whether the item is called `name`.
    pub fn has_name(&self, name: &Name) -> (r: bool)
        ensures
            r == self.is_named(name@),
    {
        match &self.name {
            Some(n) => match name {
                Name::Text(t) => *n == *t,
                Name::TupleField(_) => false,
            },
            None => false,
        }
    }
}

/// What a path denotes when read in type position.
#[derive(Clone, Copy, PartialEq, Eq, Structural, Debug, Hash)]
pub enum TypeReferent {
    /// `Self` inside an impl; `ty` is the type the impl is for.
    SelfType { ty: u64 },
    /// A generic parameter.
    GenericParam { id: u64 },
    /// A struct, union or enum; `ty` is its type.
    AdtInstance { ty: u64 },
    /// One variant of an enum.
    EnumVariant { variant: EnumVariant },
    /// A type alias; `ty` is the type it stands for. An alias declared inside
    /// a trait or an impl is `associated`.
    TypeAliasTarget { associated: bool, ty: u64 },
    /// A built-in type such as `u8` or `str`.
    BuiltinType { ty: u64 },
    /// A trait.
    TraitInstance { trait_id: u64 },
    /// A trait alias.
    TraitAliasInstance { id: u64 },
}

/// The definitions one path denotes, one slot for each namespace.
#[derive(Clone, Copy, PartialEq, Eq, Structural, Debug, Hash)]
pub struct PerNs {
    pub types: Option<Declaration>,
    pub values: Option<Declaration>,
    pub macros: Option<Declaration>,
}

impl PerNs {
    /// The answer that holds no definition at all.
    pub open spec fn spec_none() -> PerNs {
        PerNs { types: None, values: None, macros: None }
    }

    /// The answer that holds no definition at all.
    #[verifier::when_used_as_spec(spec_none)]
    pub fn none() -> (r: PerNs)
        ensures
            r == PerNs::spec_none(),
    {
        PerNs { types: None, values: None, macros: None }
    }

    /// Whether no namespace holds a definition.
    pub open spec fn spec_is_none(self) -> bool {
        self.types is None && self.values is None && self.macros is None
    }

    /// Whether no namespace holds a definition.
    #[verifier::when_used_as_spec(spec_is_none)]
    pub fn is_none(self) -> (r: bool)
        ensures
            r == self.spec_is_none(),
    {
        self.types.is_none() && self.values.is_none() && self.macros.is_none()
    }

    /// The slot of one namespace.
    pub open spec fn spec_slot(self, ns: NamespaceKind) -> Option<Declaration> {
        match ns {
            NamespaceKind::Type => self.types,
            NamespaceKind::Value => self.values,
            NamespaceKind::Macro => self.macros,
        }
    }

    /// The slot of one namespace.
    #[verifier::when_used_as_spec(spec_slot)]
    pub fn slot(self, ns: NamespaceKind) -> (r: Option<Declaration>)
        ensures
            r == self.spec_slot(ns),
    {
        match ns {
            NamespaceKind::Type => self.types,
            NamespaceKind::Value => self.values,
            NamespaceKind::Macro => self.macros,
        }
    }
}

} // verus!
