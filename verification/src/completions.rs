//! An accumulator for the completions that are going to be presented to the
//! user: the resolver's targets and other names in scope, each described by
//! one item.

use vstd::prelude::*;
use crate::names::{Name, NameView};
use crate::path::{SymbolPath, SymbolPathView, path_view};
use crate::defs::{Adt, DeclKind, Declaration, EnumVariant, Field, ResolvedTarget};

verus! {

/// What an item completes to.
#[derive(Clone, Copy, PartialEq, Eq, Structural, Debug, Hash)]
pub enum CompletionItemKind {
    Binding,
    BuiltinType,
    Const,
    Enum,
    EnumVariant,
    Field,
    Function,
    Macro,
    Module,
    Static,
    Struct,
    Trait,
    TypeAlias,
    TypeParam,
    UnresolvedReference,
}

/// One completion.
#[derive(Clone, Debug, PartialEq, Eq)]
pub struct CompletionItem {
    /// The name that is offered.
    pub label: Name,
    pub kind: CompletionItemKind,
    /// A short description, such as the type of a field.
    pub detail: Option<String>,
    /// The path the name is reached by, where it is offered qualified.
    pub qualifier: Option<SymbolPath>,
    /// The definition the item stands for, where there is one.
    pub target: Option<ResolvedTarget>,
}

/// The mathematical value of a [`CompletionItem`].
pub struct CompletionItemView {
    pub label: NameView,
    pub kind: CompletionItemKind,
    pub detail: Option<Seq<char>>,
    pub qualifier: Option<SymbolPathView>,
    pub target: Option<ResolvedTarget>,
}

/// The view of an optional text.
pub open spec fn text_view(text: Option<String>) -> Option<Seq<char>> {
    match text {
        Some(s) => Some(s@),
        None => None,
    }
}

/// The view of an optional name.
pub open spec fn name_view(name: Option<Name>) -> Option<NameView> {
    match name {
        Some(n) => Some(n@),
        None => None,
    }
}

impl View for CompletionItem {
    type V = CompletionItemView;

    open spec fn view(&self) -> CompletionItemView {
        CompletionItemView {
            label: self.label@,
            kind: self.kind,
            detail: text_view(self.detail),
            qualifier: path_view(self.qualifier),
            target: self.target,
        }
    }
}

/// The views of a sequence of items, element by element.
pub open spec fn item_views(items: Seq<CompletionItem>) -> Seq<CompletionItemView> {
    items.map_values(|i: CompletionItem| i@)
}

/// A name that is visible in a scope, as a completion sees it.
#[derive(Clone, Copy, PartialEq, Eq, Structural, Debug, Hash)]
pub enum ScopeDef {
    ModuleDef(Declaration),
    MacroDef(u64),
    GenericParam(u64),
    ImplSelfType(u64),
    AdtSelfType(Adt),
    Local(u64),
    Unknown,
}

impl ScopeDef {
    /// The kind of item a visible name is offered as.
    pub open spec fn spec_item_kind(self) -> CompletionItemKind {
        match self {
            ScopeDef::ModuleDef(d) => match d.kind {
                DeclKind::Module => CompletionItemKind::Module,
                DeclKind::Function => CompletionItemKind::Function,
                DeclKind::Const => CompletionItemKind::Const,
                DeclKind::Static => CompletionItemKind::Static,
                DeclKind::Struct | DeclKind::Union => CompletionItemKind::Struct,
                DeclKind::Enum => CompletionItemKind::Enum,
                DeclKind::Variant => CompletionItemKind::EnumVariant,
                DeclKind::Trait | DeclKind::TraitAlias => CompletionItemKind::Trait,
                DeclKind::TypeAlias => CompletionItemKind::TypeAlias,
                DeclKind::BuiltinType => CompletionItemKind::BuiltinType,
                DeclKind::Macro => CompletionItemKind::Macro,
            },
            ScopeDef::MacroDef(_) => CompletionItemKind::Macro,
            ScopeDef::GenericParam(_) => CompletionItemKind::TypeParam,
            ScopeDef::ImplSelfType(_) | ScopeDef::AdtSelfType(_) => CompletionItemKind::TypeParam,
            ScopeDef::Local(_) => CompletionItemKind::Binding,
            ScopeDef::Unknown => CompletionItemKind::UnresolvedReference,
        }
    }

    /// The kind of item a visible name is offered as.
    #[verifier::when_used_as_spec(spec_item_kind)]
    pub fn item_kind(self) -> (r: CompletionItemKind)
        ensures
            r == self.spec_item_kind(),
    {
        match self {
            ScopeDef::ModuleDef(d) => match d.kind {
                DeclKind::Module => CompletionItemKind::Module,
                DeclKind::Function => CompletionItemKind::Function,
                DeclKind::Const => CompletionItemKind::Const,
                DeclKind::Static => CompletionItemKind::Static,
                DeclKind::Struct | DeclKind::Union => CompletionItemKind::Struct,
                DeclKind::Enum => CompletionItemKind::Enum,
                DeclKind::Variant => CompletionItemKind::EnumVariant,
                DeclKind::Trait | DeclKind::TraitAlias => CompletionItemKind::Trait,
                DeclKind::TypeAlias => CompletionItemKind::TypeAlias,
                DeclKind::BuiltinType => CompletionItemKind::BuiltinType,
                DeclKind::Macro => CompletionItemKind::Macro,
            },
            ScopeDef::MacroDef(_) => CompletionItemKind::Macro,
            ScopeDef::GenericParam(_) => CompletionItemKind::TypeParam,
            ScopeDef::ImplSelfType(_) | ScopeDef::AdtSelfType(_) => CompletionItemKind::TypeParam,
            ScopeDef::Local(_) => CompletionItemKind::Binding,
            ScopeDef::Unknown => CompletionItemKind::UnresolvedReference,
        }
    }

    /// The definition a visible name stands for, where it is a module-level
    /// definition or a macro.
    pub open spec fn spec_target(self) -> Option<ResolvedTarget> {
        match self {
            ScopeDef::ModuleDef(d) => Some(ResolvedTarget::Declaration(d)),
            ScopeDef::MacroDef(id) => Some(
                ResolvedTarget::Declaration(Declaration { kind: DeclKind::Macro, id }),
            ),
            _ => None,
        }
    }

    /// The definition a visible name stands for, where it is a module-level
    /// definition or a macro.
    #[verifier::when_used_as_spec(spec_target)]
    pub fn target(self) -> (r: Option<ResolvedTarget>)
        ensures
            r == self.spec_target(),
    {
        match self {
            ScopeDef::ModuleDef(d) => Some(ResolvedTarget::Declaration(d)),
            ScopeDef::MacroDef(id) => Some(
                ResolvedTarget::Declaration(Declaration { kind: DeclKind::Macro, id }),
            ),
            _ => None,
        }
    }
}

/// A completion that is still being put together.
#[derive(Clone, Debug)]
pub struct Builder {
    pub label: Name,
    pub kind: CompletionItemKind,
    pub detail: Option<String>,
    pub qualifier: Option<SymbolPath>,
    pub target: Option<ResolvedTarget>,
}

impl Builder {
    /// The item that `build` will make of this builder.
    pub open spec fn built(self) -> CompletionItemView {
        CompletionItemView {
            label: self.label@,
            kind: self.kind,
            detail: text_view(self.detail),
            qualifier: path_view(self.qualifier),
            target: self.target,
        }
    }

    /// Starts an item of the given label and kind, with nothing else set.
    pub fn new(label: Name, kind: CompletionItemKind) -> (r: Builder)
        ensures
            r.built() == (CompletionItemView {
                label: label@,
                kind,
                detail: None,
                qualifier: None,
                target: None,
            }),
    {
        Builder { label, kind, detail: None, qualifier: None, target: None }
    }

    /// Sets the description.
    pub fn detail(self, detail: &str) -> (r: Builder)
        ensures
            r.built() == (CompletionItemView { detail: Some(detail@), ..self.built() }),
    {
        Builder {
            label: self.label,
            kind: self.kind,
            detail: Some(String::from_str(detail)),
            qualifier: self.qualifier,
            target: self.target,
        }
    }

    /// Sets the path the name is reached by.
    pub fn qualifier(self, path: SymbolPath) -> (r: Builder)
        ensures
            r.built() == (CompletionItemView { qualifier: Some(path@), ..self.built() }),
    {
        Builder {
            label: self.label,
            kind: self.kind,
            detail: self.detail,
            qualifier: Some(path),
            target: self.target,
        }
    }

    /// Sets the definition the item stands for.
    pub fn target(self, target: ResolvedTarget) -> (r: Builder)
        ensures
            r.built() == (CompletionItemView { target: Some(target), ..self.built() }),
    {
        Builder {
            label: self.label,
            kind: self.kind,
            detail: self.detail,
            qualifier: self.qualifier,
            target: Some(target),
        }
    }

    /// Finishes the item.
    pub fn build(self) -> (r: CompletionItem)
        ensures
            r@ == self.built(),
    {
        CompletionItem {
            label: self.label,
            kind: self.kind,
            detail: self.detail,
            qualifier: self.qualifier,
            target: self.target,
        }
    }

    /// Finishes the item and adds it to `acc`, without binding it to a
    /// variable first.
    pub fn add_to(self, acc: &mut Completions)
        ensures
            final(acc)@ == old(acc)@.push(self.built()),
    {
        acc.add(self.build())
    }
}

/// An in-progress list of completions, in the order in which they were added.
#[derive(Debug)]
pub struct Completions {
    buf: Vec<CompletionItem>,
}

impl View for Completions {
    type V = Seq<CompletionItemView>;

    closed spec fn view(&self) -> Seq<CompletionItemView> {
        item_views(self.buf@)
    }
}

/// The item offered for a function: under `local_name` where one is given,
/// else under its own name, and not at all where it has neither.
pub open spec fn function_item(
    func: u64,
    name: Option<NameView>,
    local_name: Option<Seq<char>>,
) -> Option<CompletionItemView> {
    let label = match local_name {
        Some(l) => Some(NameView::Text(l)),
        None => name,
    };
    match label {
        Some(label) => Some(
            CompletionItemView {
                label,
                kind: CompletionItemKind::Function,
                detail: None,
                qualifier: None,
                target: Some(
                    ResolvedTarget::Declaration(Declaration { kind: DeclKind::Function, id: func }),
                ),
            },
        ),
        None => None,
    }
}

/// The item offered for a definition of the given kind that goes by its own
/// name; none where it is unnamed.
pub open spec fn named_item(
    kind: CompletionItemKind,
    decl: Declaration,
    name: Option<NameView>,
) -> Option<CompletionItemView> {
    match name {
        Some(label) => Some(
            CompletionItemView {
                label,
                kind,
                detail: None,
                qualifier: None,
                target: Some(ResolvedTarget::Declaration(decl)),
            },
        ),
        None => None,
    }
}

/// The item offered for an enum variant.
pub open spec fn variant_item(
    variant: EnumVariant,
    label: NameView,
    qualifier: Option<SymbolPathView>,
) -> CompletionItemView {
    CompletionItemView {
        label,
        kind: CompletionItemKind::EnumVariant,
        detail: None,
        qualifier,
        target: Some(
            ResolvedTarget::Declaration(Declaration { kind: DeclKind::Variant, id: variant.id }),
        ),
    }
}

/// `items` with `item` at its end, where there is one.
pub open spec fn with_item(
    items: Seq<CompletionItemView>,
    item: Option<CompletionItemView>,
) -> Seq<CompletionItemView> {
    match item {
        Some(i) => items.push(i),
        None => items,
    }
}

impl Completions {
    /// An empty list.
    pub fn new() -> (r: Completions)
        ensures
            r@ == Seq::<CompletionItemView>::empty(),
    {
        let r = Completions { buf: Vec::new() };
        assert(r@ =~= Seq::empty());
        r
    }

    /// The number of items added so far.
    pub fn len(&self) -> (r: usize)
        ensures
            r == self@.len(),
    {
        self.buf.len()
    }

    /// The items, in the order in which they were added.
    pub fn into_items(self) -> (r: Vec<CompletionItem>)
        ensures
            item_views(r@) == self@,
    {
        self.buf
    }

    /// Adds `item` at the end.
    pub fn add(&mut self, item: CompletionItem)
        ensures
            final(self)@ == old(self)@.push(item@),
    {
        self.buf.push(item);
        assert(self@ =~= old(self)@.push(item@));
    }

    /// Adds every item of `items` at the end, in their order.
    pub fn add_all(&mut self, items: Vec<CompletionItem>)
        ensures
            final(self)@ == old(self)@ + item_views(items@),
    {
        let mut items = items;
        let ghost added = items@;
        self.buf.append(&mut items);
        assert(self@ =~= old(self)@ + item_views(added));
    }

    /// Adds the item for a named field of type `ty`.
    pub fn add_field(&mut self, field: Field, name: Name, ty: &str)
        ensures
            final(self)@ == old(self)@.push(
                CompletionItemView {
                    label: name@,
                    kind: CompletionItemKind::Field,
                    detail: Some(ty@),
                    qualifier: None,
                    target: Some(ResolvedTarget::FieldMember(field)),
                },
            ),
    {
        Builder::new(name, CompletionItemKind::Field).detail(ty).target(
            ResolvedTarget::FieldMember(field),
        ).add_to(self)
    }

    /// Adds the item for the tuple field at position `field`, of type `ty`.
    pub fn add_tuple_field(&mut self, field: usize, ty: &str)
        ensures
            final(self)@ == old(self)@.push(
                CompletionItemView {
                    label: NameView::TupleField(field),
                    kind: CompletionItemKind::Field,
                    detail: Some(ty@),
                    qualifier: None,
                    target: None,
                },
            ),
    {
        Builder::new(Name::new_tuple_field(field), CompletionItemKind::Field).detail(ty).add_to(
            self,
        )
    }

    /// Adds the item for a name visible in scope, under the name it is
    /// visible by.
    pub fn add_resolution(&mut self, local_name: String, resolution: &ScopeDef)
        ensures
            final(self)@ == old(self)@.push(
                CompletionItemView {
                    label: NameView::Text(local_name@),
                    kind: resolution.spec_item_kind(),
                    detail: None,
                    qualifier: None,
                    target: resolution.spec_target(),
                },
            ),
    {
        let item = CompletionItem {
            label: Name::Text(local_name),
            kind: resolution.item_kind(),
            detail: None,
            qualifier: None,
            target: resolution.target(),
        };
        self.add(item)
    }

    /// Adds the item for a macro; nothing where the macro has no name.
    pub fn add_macro(&mut self, name: Option<String>, macro_: u64)
        ensures
            final(self)@ == with_item(
                old(self)@,
                named_item(
                    CompletionItemKind::Macro,
                    Declaration { kind: DeclKind::Macro, id: macro_ },
                    match name {
                        Some(n) => Some(NameView::Text(n@)),
                        None => None,
                    },
                ),
            ),
    {
        let name = match name {
            Some(it) => it,
            None => return ,
        };
        let item = CompletionItem {
            label: Name::Text(name),
            kind: CompletionItemKind::Macro,
            detail: None,
            qualifier: None,
            target: Some(
                ResolvedTarget::Declaration(Declaration { kind: DeclKind::Macro, id: macro_ }),
            ),
        };
        self.add(item);
    }

    /// Adds the item for a function: under `local_name` where one is given,
    /// else under its own `name`; nothing where it has neither.
    pub fn add_function(&mut self, func: u64, name: Option<Name>, local_name: Option<String>)
        ensures
            final(self)@ == with_item(
                old(self)@,
                function_item(func, name_view(name), text_view(local_name)),
            ),
    {
        let label = match local_name {
            Some(l) => Some(Name::Text(l)),
            None => name,
        };
        if let Some(label) = label {
            let item = CompletionItem {
                label,
                kind: CompletionItemKind::Function,
                detail: None,
                qualifier: None,
                target: Some(
                    ResolvedTarget::Declaration(Declaration { kind: DeclKind::Function, id: func }),
                ),
            };
            self.add(item)
        }
    }

    /// Adds the item for a constant; nothing where it is unnamed.
    pub fn add_const(&mut self, constant: u64, name: Option<Name>)
        ensures
            final(self)@ == with_item(
                old(self)@,
                named_item(
                    CompletionItemKind::Const,
                    Declaration { kind: DeclKind::Const, id: constant },
                    name_view(name),
                ),
            ),
    {
        if let Some(label) = name {
            let item = CompletionItem {
                label,
                kind: CompletionItemKind::Const,
                detail: None,
                qualifier: None,
                target: Some(
                    ResolvedTarget::Declaration(Declaration { kind: DeclKind::Const, id: constant }),
                ),
            };
            self.add(item);
        }
    }

    /// Adds the item for a type alias; nothing where it is unnamed.
    pub fn add_type_alias(&mut self, type_alias: u64, name: Option<Name>)
        ensures
            final(self)@ == with_item(
                old(self)@,
                named_item(
                    CompletionItemKind::TypeAlias,
                    Declaration { kind: DeclKind::TypeAlias, id: type_alias },
                    name_view(name),
                ),
            ),
    {
        if let Some(label) = name {
            let item = CompletionItem {
                label,
                kind: CompletionItemKind::TypeAlias,
                detail: None,
                qualifier: None,
                target: Some(
                    ResolvedTarget::Declaration(
                        Declaration { kind: DeclKind::TypeAlias, id: type_alias },
                    ),
                ),
            };
            self.add(item)
        }
    }

    /// Adds the item for an enum variant that is offered together with the
    /// path that leads to it.
    pub fn add_qualified_enum_variant(&mut self, variant: EnumVariant, name: Name, path: SymbolPath)
        ensures
            final(self)@ == old(self)@.push(variant_item(variant, name@, Some(path@))),
    {
        let item = CompletionItem {
            label: name,
            kind: CompletionItemKind::EnumVariant,
            detail: None,
            qualifier: Some(path),
            target: Some(
                ResolvedTarget::Declaration(
                    Declaration { kind: DeclKind::Variant, id: variant.id },
                ),
            ),
        };
        self.add(item);
    }

    /// Adds the item for an enum variant: under `local_name` where one is
    /// given, else under its own `name`.
    pub fn add_enum_variant(&mut self, variant: EnumVariant, name: Name, local_name: Option<String>)
        ensures
            final(self)@ == old(self)@.push(
                variant_item(
                    variant,
                    match local_name {
                        Some(l) => NameView::Text(l@),
                        None => name@,
                    },
                    None,
                ),
            ),
    {
        let label = match local_name {
            Some(l) => Name::Text(l),
            None => name,
        };
        let item = CompletionItem {
            label,
            kind: CompletionItemKind::EnumVariant,
            detail: None,
            qualifier: None,
            target: Some(
                ResolvedTarget::Declaration(
                    Declaration { kind: DeclKind::Variant, id: variant.id },
                ),
            ),
        };
        self.add(item);
    }
}

impl From<Completions> for Vec<CompletionItem> {
    fn from(completions: Completions) -> (r: Vec<CompletionItem>) {
        completions.buf
    }
}

impl vstd::std_specs::convert::FromSpecImpl<Completions> for Vec<CompletionItem> {
    open spec fn obeys_from_spec() -> bool {
        true
    }

    closed spec fn from_spec(completions: Completions) -> Vec<CompletionItem> {
        completions.buf
    }
}

/// Turning the accumulator into a vector keeps its items and their order.
pub proof fn lemma_from_keeps_items(completions: Completions)
    ensures
        item_views(
            <Vec<CompletionItem> as vstd::std_specs::convert::FromSpec<Completions>>::from_spec(
                completions,
            )@,
        ) == completions@,
{
}

impl Default for Completions {
    fn default() -> (r: Completions)
        ensures
            r@ == Seq::<CompletionItemView>::empty(),
    {
        Completions::new()
    }
}

} // verus!
