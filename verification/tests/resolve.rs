use doc_link_resolver::attrs::{attrs_with_owner, resolve_doc_path_on, scope_owner_of, HasAttrs};
use doc_link_resolver::defs::{
    Adt, AssocItem, AssocItemKind, AttrDefId, DeclKind, Declaration, EnumVariant, Field,
    GenericParam, PerNs, ResolvedTarget, TypeReferent, VariantDef,
};
use doc_link_resolver::index::{
    AdtEntry, AttrEntry, CandidateEntry, FieldEntry, InherentEntry, ItemPathEntry, ResolutionScope,
    ScopeEntry, ScopeIndex, TraitItemEntry, TypePathEntry,
};
use doc_link_resolver::names::{Name, NamespaceKind};
use doc_link_resolver::path::{PathAnchor, SymbolPath};
use doc_link_resolver::resolve::{
    as_module_def_if_namespace_matches, namespace_accepted, resolve, resolve_assoc_item,
    resolve_assoc_or_field, resolve_field, resolve_impl_trait_item, resolve_item_path,
    resolve_path, resolve_trait_item, resolve_type, resolve_type_member, select_namespace,
};

const M: u64 = 1;

fn text(s: &str) -> Name {
    Name::Text(s.to_string())
}

fn plain(names: &[&str]) -> SymbolPath {
    SymbolPath { anchor: PathAnchor::Plain, segments: names.iter().map(|n| text(n)).collect() }
}

fn scope(traits: &[u64]) -> ResolutionScope {
    ResolutionScope { module: M, generic_env: None, traits_in_scope: traits.to_vec() }
}

fn decl(kind: DeclKind, id: u64) -> Declaration {
    Declaration { kind, id }
}

fn target(kind: DeclKind, id: u64) -> Option<ResolvedTarget> {
    Some(ResolvedTarget::Declaration(decl(kind, id)))
}

fn item(kind: AssocItemKind, id: u64, name: &str) -> AssocItem {
    AssocItem { kind, id, name: Some(name.to_string()) }
}

fn type_path(names: &[&str], referent: TypeReferent) -> TypePathEntry {
    TypePathEntry { module: M, generic_env: None, path: plain(names), referent }
}

fn item_path(names: &[&str], found: PerNs) -> ItemPathEntry {
    ItemPathEntry { module: M, path: plain(names), found }
}

fn types_only(d: Declaration) -> PerNs {
    PerNs { types: Some(d), values: None, macros: None }
}

const S_TY: u64 = 10;
const S: u64 = 100;

/// module `m` with `struct S { field: i32 }`
fn index_with_struct_s() -> ScopeIndex {
    let mut index = ScopeIndex::new();
    index.item_paths.push(item_path(&["S"], types_only(decl(DeclKind::Struct, S))));
    index.type_paths.push(type_path(&["S"], TypeReferent::AdtInstance { ty: S_TY }));
    index.adts.push(AdtEntry { ty: S_TY, adt: Adt::Struct(S) });
    index.fields.push(FieldEntry { field: Field { parent: VariantDef::Struct(S), id: 0 }, name: text("field") });
    index
}

const POINT_TY: u64 = 30;
const POINT: u64 = 300;

/// `struct Point(i32, i32);`
fn index_with_tuple_struct() -> ScopeIndex {
    let mut index = ScopeIndex::new();
    let d = decl(DeclKind::Struct, POINT);
    index.item_paths.push(item_path(&["Point"], PerNs { types: Some(d), values: None, macros: None }));
    index.type_paths.push(type_path(&["Point"], TypeReferent::AdtInstance { ty: POINT_TY }));
    index.adts.push(AdtEntry { ty: POINT_TY, adt: Adt::Struct(POINT) });
    for i in 0..2u32 {
        index.fields.push(FieldEntry {
            field: Field { parent: VariantDef::Struct(POINT), id: i },
            name: Name::TupleField(i as usize),
        });
    }
    index
}

const U_TY: u64 = 20;
const U: u64 = 200;
const T: u64 = 5;
const GO: u64 = 77;

/// trait `T` with method `go`, and `struct U;` with `impl T for U`
fn index_with_trait_impl() -> ScopeIndex {
    let mut index = ScopeIndex::new();
    index.item_paths.push(item_path(&["U"], types_only(decl(DeclKind::Struct, U))));
    index.item_paths.push(item_path(&["T"], types_only(decl(DeclKind::Trait, T))));
    index.type_paths.push(type_path(&["U"], TypeReferent::AdtInstance { ty: U_TY }));
    index.type_paths.push(type_path(&["T"], TypeReferent::TraitInstance { trait_id: T }));
    index.adts.push(AdtEntry { ty: U_TY, adt: Adt::Struct(U) });
    index.trait_items.push(TraitItemEntry { trait_id: T, item: item(AssocItemKind::Function, GO, "go") });
    index.trait_candidates.push(CandidateEntry {
        ty: U_TY,
        generic_env: None,
        via_trait: T,
        item: item(AssocItemKind::Function, GO, "go"),
    });
    index
}

#[test]
fn record_field_scenario() {
    let index = index_with_struct_s();
    assert_eq!(
        resolve(&index, &scope(&[]), "S::field", None),
        Some(ResolvedTarget::FieldMember(Field { parent: VariantDef::Struct(S), id: 0 }))
    );
}

#[test]
fn trait_provided_method_scenario() {
    let index = index_with_trait_impl();
    assert_eq!(resolve(&index, &scope(&[T]), "U::go", None), target(DeclKind::Function, GO));
}

#[test]
fn trait_out_of_scope_provides_nothing() {
    let index = index_with_trait_impl();
    assert_eq!(resolve(&index, &scope(&[]), "U::go", None), None);
    assert_eq!(resolve(&index, &scope(&[T + 1]), "U::go", None), None);
}

#[test]
fn candidate_of_another_environment_is_not_seen() {
    let index = index_with_trait_impl();
    let other = ResolutionScope { module: M, generic_env: Some(9), traits_in_scope: vec![T] };
    let name = text("go");
    assert_eq!(resolve_impl_trait_item(&index, &other, U_TY, &name, None), None);
    assert_eq!(resolve_impl_trait_item(&index, &scope(&[T]), U_TY, &name, None), target(DeclKind::Function, GO));
}

#[test]
fn not_a_path_scenario() {
    assert_eq!(resolve(&index_with_struct_s(), &scope(&[]), "NotAPath!!", None), None);
    assert_eq!(resolve(&ScopeIndex::new(), &scope(&[]), "NotAPath!!", None), None);
    assert_eq!(resolve(&index_with_trait_impl(), &scope(&[T]), "NotAPath!!", Some(NamespaceKind::Type)), None);
}

#[test]
fn tuple_field_fallback() {
    let index = index_with_tuple_struct();
    assert_eq!(
        resolve(&index, &scope(&[]), "Point::0", None),
        Some(ResolvedTarget::FieldMember(Field { parent: VariantDef::Struct(POINT), id: 0 }))
    );
    assert_eq!(
        resolve(&index, &scope(&[]), "Point::1", None),
        Some(ResolvedTarget::FieldMember(Field { parent: VariantDef::Struct(POINT), id: 1 }))
    );
    assert_eq!(resolve(&index, &scope(&[]), "Point::5", None), None);
    assert_eq!(resolve(&index, &scope(&[]), "Point::x", None), None);
}

#[test]
fn tuple_position_is_no_identifier() {
    let mut index = index_with_struct_s();
    index.fields.push(FieldEntry { field: Field { parent: VariantDef::Struct(S), id: 1 }, name: text("0") });
    assert_eq!(resolve(&index, &scope(&[]), "S::0", None), None);
}

#[test]
fn tuple_path_is_never_looked_up_as_an_item() {
    let mut index = index_with_tuple_struct();
    let mut p = plain(&["Point"]);
    p.push_segment(Name::TupleField(0));
    index.item_paths.push(ItemPathEntry { module: M, path: p, found: types_only(decl(DeclKind::Module, 999)) });
    assert_eq!(
        resolve(&index, &scope(&[]), "Point::0", None),
        Some(ResolvedTarget::FieldMember(Field { parent: VariantDef::Struct(POINT), id: 0 }))
    );
}

#[test]
fn direct_item_is_returned() {
    let index = index_with_struct_s();
    assert_eq!(resolve(&index, &scope(&[]), "S", None), target(DeclKind::Struct, S));
}

#[test]
fn direct_item_wins_over_member() {
    let mut index = index_with_struct_s();
    index.item_paths.push(item_path(
        &["S", "field"],
        PerNs { types: None, values: Some(decl(DeclKind::Function, 55)), macros: None },
    ));
    assert_eq!(resolve(&index, &scope(&[]), "S::field", None), target(DeclKind::Function, 55));
}

#[test]
fn priority_is_type_then_value_then_macro() {
    let t = decl(DeclKind::Struct, 1);
    let v = decl(DeclKind::Function, 2);
    let m = decl(DeclKind::Macro, 3);
    let all = PerNs { types: Some(t), values: Some(v), macros: Some(m) };
    assert_eq!(select_namespace(all, None), Some(ResolvedTarget::Declaration(t)));
    let no_type = PerNs { types: None, values: Some(v), macros: Some(m) };
    assert_eq!(select_namespace(no_type, None), Some(ResolvedTarget::Declaration(v)));
    let only_macro = PerNs { types: None, values: None, macros: Some(m) };
    assert_eq!(select_namespace(only_macro, None), Some(ResolvedTarget::Declaration(m)));
    assert_eq!(select_namespace(PerNs::none(), None), None);

    let mut index = ScopeIndex::new();
    index.item_paths.push(item_path(&["x"], all));
    assert_eq!(resolve(&index, &scope(&[]), "x", None), Some(ResolvedTarget::Declaration(t)));
}

#[test]
fn filter_selects_its_namespace() {
    let t = decl(DeclKind::Struct, 1);
    let v = decl(DeclKind::Function, 2);
    let m = decl(DeclKind::Macro, 3);
    let all = PerNs { types: Some(t), values: Some(v), macros: Some(m) };
    assert_eq!(select_namespace(all, Some(NamespaceKind::Type)), Some(ResolvedTarget::Declaration(t)));
    assert_eq!(select_namespace(all, Some(NamespaceKind::Value)), Some(ResolvedTarget::Declaration(v)));
    assert_eq!(select_namespace(all, Some(NamespaceKind::Macro)), Some(ResolvedTarget::Declaration(m)));
    let only_type = types_only(t);
    assert_eq!(select_namespace(only_type, Some(NamespaceKind::Value)), None);
    assert_eq!(select_namespace(only_type, Some(NamespaceKind::Macro)), None);
}

#[test]
fn filter_discards_what_lives_in_another_namespace() {
    // a struct that also stands among the values, as its constructor does
    let s = decl(DeclKind::Struct, 1);
    let both = PerNs { types: Some(s), values: Some(s), macros: None };
    assert_eq!(select_namespace(both, Some(NamespaceKind::Type)), Some(ResolvedTarget::Declaration(s)));
    assert_eq!(select_namespace(both, Some(NamespaceKind::Value)), None);
    assert_eq!(select_namespace(both, None), Some(ResolvedTarget::Declaration(s)));
    let misplaced = PerNs { types: None, values: None, macros: Some(decl(DeclKind::Function, 2)) };
    assert_eq!(select_namespace(misplaced, Some(NamespaceKind::Macro)), None);
}

#[test]
fn filtered_out_item_falls_back_to_member() {
    // `S` is a type; asked for a value, `S::field` is still found as a field.
    let mut index = index_with_struct_s();
    index.item_paths.push(item_path(&["S", "field"], types_only(decl(DeclKind::Module, 56))));
    assert_eq!(
        resolve(&index, &scope(&[]), "S::field", Some(NamespaceKind::Value)),
        Some(ResolvedTarget::FieldMember(Field { parent: VariantDef::Struct(S), id: 0 }))
    );
    assert_eq!(resolve(&index, &scope(&[]), "S::field", Some(NamespaceKind::Type)), target(DeclKind::Module, 56));
    assert_eq!(resolve(&index, &scope(&[]), "S::field", Some(NamespaceKind::Macro)), None);
}

#[test]
fn fields_are_values() {
    let index = index_with_struct_s();
    let name = text("field");
    let f = Some(ResolvedTarget::FieldMember(Field { parent: VariantDef::Struct(S), id: 0 }));
    assert_eq!(resolve_field(&index, VariantDef::Struct(S), &name, None), f);
    assert_eq!(resolve_field(&index, VariantDef::Struct(S), &name, Some(NamespaceKind::Value)), f);
    assert_eq!(resolve_field(&index, VariantDef::Struct(S), &name, Some(NamespaceKind::Type)), None);
    assert_eq!(resolve_field(&index, VariantDef::Struct(S), &name, Some(NamespaceKind::Macro)), None);
    assert_eq!(resolve_field(&index, VariantDef::Struct(S), &text("other"), None), None);
    assert_eq!(resolve_field(&index, VariantDef::Union(S), &name, None), None);
}

#[test]
fn result_namespace_agrees_with_filter() {
    let index = index_with_trait_impl();
    for ns in [NamespaceKind::Type, NamespaceKind::Value, NamespaceKind::Macro] {
        for link in ["U", "T", "U::go", "T::go"] {
            if let Some(r) = resolve(&index, &scope(&[T]), link, Some(ns)) {
                assert_eq!(r.namespace(), ns);
            }
        }
    }
    assert_eq!(resolve(&index, &scope(&[T]), "U::go", Some(NamespaceKind::Value)), target(DeclKind::Function, GO));
    assert_eq!(resolve(&index, &scope(&[T]), "U::go", Some(NamespaceKind::Type)), None);
}

#[test]
fn assoc_item_namespaces() {
    let f = item(AssocItemKind::Function, 1, "f");
    let c = item(AssocItemKind::Const, 2, "C");
    let a = item(AssocItemKind::TypeAlias, 3, "A");
    assert_eq!(as_module_def_if_namespace_matches(&f, None), target(DeclKind::Function, 1));
    assert_eq!(as_module_def_if_namespace_matches(&f, Some(NamespaceKind::Value)), target(DeclKind::Function, 1));
    assert_eq!(as_module_def_if_namespace_matches(&f, Some(NamespaceKind::Type)), None);
    assert_eq!(as_module_def_if_namespace_matches(&f, Some(NamespaceKind::Macro)), None);
    assert_eq!(as_module_def_if_namespace_matches(&c, Some(NamespaceKind::Value)), target(DeclKind::Const, 2));
    assert_eq!(as_module_def_if_namespace_matches(&c, Some(NamespaceKind::Type)), None);
    assert_eq!(as_module_def_if_namespace_matches(&a, None), target(DeclKind::TypeAlias, 3));
    assert_eq!(as_module_def_if_namespace_matches(&a, Some(NamespaceKind::Type)), target(DeclKind::TypeAlias, 3));
    assert_eq!(as_module_def_if_namespace_matches(&a, Some(NamespaceKind::Value)), None);
}

#[test]
fn namespace_acceptance() {
    assert!(namespace_accepted(None, NamespaceKind::Type));
    assert!(namespace_accepted(Some(NamespaceKind::Macro), NamespaceKind::Macro));
    assert!(!namespace_accepted(Some(NamespaceKind::Value), NamespaceKind::Type));
}

#[test]
fn inherent_before_trait() {
    let mut index = index_with_trait_impl();
    index.inherent_items.push(InherentEntry { ty: U_TY, item: item(AssocItemKind::Function, 88, "go") });
    assert_eq!(resolve(&index, &scope(&[T]), "U::go", None), target(DeclKind::Function, 88));
}

#[test]
fn inherent_item_needs_no_trait_in_scope() {
    let mut index = index_with_trait_impl();
    index.inherent_items.push(InherentEntry { ty: U_TY, item: item(AssocItemKind::Function, 88, "new") });
    assert_eq!(resolve(&index, &scope(&[]), "U::new", None), target(DeclKind::Function, 88));
}

#[test]
fn inherent_search_skips_items_of_the_wrong_namespace() {
    let mut index = ScopeIndex::new();
    index.inherent_items.push(InherentEntry { ty: 1, item: item(AssocItemKind::TypeAlias, 5, "X") });
    index.inherent_items.push(InherentEntry { ty: 1, item: item(AssocItemKind::Const, 6, "X") });
    let name = text("X");
    assert_eq!(resolve_assoc_item(&index, 1, &name, None), target(DeclKind::TypeAlias, 5));
    assert_eq!(resolve_assoc_item(&index, 1, &name, Some(NamespaceKind::Value)), target(DeclKind::Const, 6));
    assert_eq!(resolve_assoc_item(&index, 1, &name, Some(NamespaceKind::Macro)), None);
    assert_eq!(resolve_assoc_item(&index, 2, &name, None), None);
}

#[test]
fn unnamed_item_is_never_found() {
    let mut index = ScopeIndex::new();
    index.inherent_items.push(InherentEntry { ty: 1, item: AssocItem { kind: AssocItemKind::Const, id: 5, name: None } });
    assert_eq!(resolve_assoc_item(&index, 1, &text("_"), None), None);
}

#[test]
fn first_trait_in_enumeration_order_wins() {
    let mut index = index_with_trait_impl();
    index.trait_candidates.push(CandidateEntry {
        ty: U_TY,
        generic_env: None,
        via_trait: T + 1,
        item: item(AssocItemKind::Function, 78, "go"),
    });
    assert_eq!(resolve(&index, &scope(&[T, T + 1]), "U::go", None), target(DeclKind::Function, GO));
    assert_eq!(resolve(&index, &scope(&[T + 1, T]), "U::go", None), target(DeclKind::Function, GO));
    assert_eq!(resolve(&index, &scope(&[T + 1]), "U::go", None), target(DeclKind::Function, 78));
}

#[test]
fn trait_item_before_field() {
    let mut index = index_with_trait_impl();
    index.fields.push(FieldEntry { field: Field { parent: VariantDef::Struct(U), id: 0 }, name: text("go") });
    assert_eq!(resolve(&index, &scope(&[T]), "U::go", None), target(DeclKind::Function, GO));
    assert_eq!(
        resolve(&index, &scope(&[]), "U::go", None),
        Some(ResolvedTarget::FieldMember(Field { parent: VariantDef::Struct(U), id: 0 }))
    );
}

#[test]
fn enum_variant_has_fields_only() {
    let v = EnumVariant { parent: 400, id: 2 };
    let mut index = ScopeIndex::new();
    index.type_paths.push(type_path(&["E", "V"], TypeReferent::EnumVariant { variant: v }));
    index.fields.push(FieldEntry { field: Field { parent: VariantDef::Variant(v), id: 0 }, name: text("x") });
    // items that would be found if the variant were searched like a type
    index.inherent_items.push(InherentEntry { ty: 2, item: item(AssocItemKind::Function, 1, "f") });
    index.inherent_items.push(InherentEntry { ty: 400, item: item(AssocItemKind::Function, 1, "f") });
    assert_eq!(
        resolve(&index, &scope(&[]), "E::V::x", None),
        Some(ResolvedTarget::FieldMember(Field { parent: VariantDef::Variant(v), id: 0 }))
    );
    assert_eq!(resolve(&index, &scope(&[]), "E::V::f", None), None);
    assert_eq!(resolve(&index, &scope(&[]), "E::V::x", Some(NamespaceKind::Type)), None);
    assert_eq!(resolve(&index, &scope(&[]), "E::V::x", Some(NamespaceKind::Macro)), None);
}

#[test]
fn enum_as_a_whole_has_no_fields() {
    let mut index = ScopeIndex::new();
    index.type_paths.push(type_path(&["E"], TypeReferent::AdtInstance { ty: 40 }));
    index.adts.push(AdtEntry { ty: 40, adt: Adt::Enum(400) });
    index.fields.push(FieldEntry { field: Field { parent: VariantDef::Struct(400), id: 0 }, name: text("x") });
    index.fields.push(FieldEntry { field: Field { parent: VariantDef::Union(400), id: 0 }, name: text("x") });
    assert_eq!(resolve(&index, &scope(&[]), "E::x", None), None);
}

#[test]
fn union_has_fields() {
    let mut index = ScopeIndex::new();
    index.type_paths.push(type_path(&["W"], TypeReferent::AdtInstance { ty: 41 }));
    index.adts.push(AdtEntry { ty: 41, adt: Adt::Union(410) });
    index.fields.push(FieldEntry { field: Field { parent: VariantDef::Union(410), id: 3 }, name: text("x") });
    assert_eq!(
        resolve(&index, &scope(&[]), "W::x", None),
        Some(ResolvedTarget::FieldMember(Field { parent: VariantDef::Union(410), id: 3 }))
    );
}

#[test]
fn trait_members_are_its_own_items() {
    let mut index = index_with_trait_impl();
    // a supertrait with an item of its own, and a type that has it through the trait
    index.trait_items.push(TraitItemEntry { trait_id: T + 1, item: item(AssocItemKind::Function, 90, "base") });
    index.trait_candidates.push(CandidateEntry {
        ty: U_TY,
        generic_env: None,
        via_trait: T + 1,
        item: item(AssocItemKind::Function, 90, "base"),
    });
    assert_eq!(resolve(&index, &scope(&[T, T + 1]), "T::go", None), target(DeclKind::Function, GO));
    assert_eq!(resolve(&index, &scope(&[T, T + 1]), "T::base", None), None);
}

#[test]
fn trait_member_namespace() {
    let mut index = ScopeIndex::new();
    index.trait_items.push(TraitItemEntry { trait_id: T, item: item(AssocItemKind::TypeAlias, 1, "Out") });
    index.trait_items.push(TraitItemEntry { trait_id: T, item: item(AssocItemKind::Const, 2, "N") });
    let out = text("Out");
    let n = text("N");
    assert_eq!(resolve_trait_item(&index, T, &out, None), target(DeclKind::TypeAlias, 1));
    assert_eq!(resolve_trait_item(&index, T, &out, Some(NamespaceKind::Type)), target(DeclKind::TypeAlias, 1));
    assert_eq!(resolve_trait_item(&index, T, &out, Some(NamespaceKind::Value)), None);
    assert_eq!(resolve_trait_item(&index, T, &n, Some(NamespaceKind::Value)), target(DeclKind::Const, 2));
    assert_eq!(resolve_trait_item(&index, T, &n, Some(NamespaceKind::Type)), None);
    assert_eq!(resolve_trait_item(&index, T + 1, &n, None), None);
}

#[test]
fn first_trait_item_of_the_name_decides() {
    let mut index = ScopeIndex::new();
    index.trait_items.push(TraitItemEntry { trait_id: T, item: item(AssocItemKind::TypeAlias, 1, "X") });
    index.trait_items.push(TraitItemEntry { trait_id: T, item: item(AssocItemKind::Const, 2, "X") });
    let x = text("X");
    assert_eq!(resolve_trait_item(&index, T, &x, None), target(DeclKind::TypeAlias, 1));
    assert_eq!(resolve_trait_item(&index, T, &x, Some(NamespaceKind::Value)), None);
}

#[test]
fn unsupported_referents_have_no_members() {
    let mut index = ScopeIndex::new();
    index.inherent_items.push(InherentEntry { ty: 1, item: item(AssocItemKind::Function, 5, "f") });
    index.trait_items.push(TraitItemEntry { trait_id: 1, item: item(AssocItemKind::Function, 5, "f") });
    let f = text("f");
    let s = scope(&[]);
    assert_eq!(resolve_assoc_or_field(&index, &s, TypeReferent::GenericParam { id: 1 }, &f, None), None);
    assert_eq!(resolve_assoc_or_field(&index, &s, TypeReferent::TraitAliasInstance { id: 1 }, &f, None), None);
    assert_eq!(
        resolve_assoc_or_field(&index, &s, TypeReferent::TypeAliasTarget { associated: true, ty: 1 }, &f, None),
        None
    );
}

#[test]
fn type_like_referents_are_searched_alike() {
    let mut index = ScopeIndex::new();
    index.inherent_items.push(InherentEntry { ty: 1, item: item(AssocItemKind::Function, 5, "f") });
    let f = text("f");
    let s = scope(&[]);
    let found = target(DeclKind::Function, 5);
    assert_eq!(resolve_assoc_or_field(&index, &s, TypeReferent::SelfType { ty: 1 }, &f, None), found);
    assert_eq!(resolve_assoc_or_field(&index, &s, TypeReferent::AdtInstance { ty: 1 }, &f, None), found);
    assert_eq!(resolve_assoc_or_field(&index, &s, TypeReferent::BuiltinType { ty: 1 }, &f, None), found);
    assert_eq!(
        resolve_assoc_or_field(&index, &s, TypeReferent::TypeAliasTarget { associated: false, ty: 1 }, &f, None),
        found
    );
    assert_eq!(resolve_type_member(&index, &s, 1, &f, None), found);
    assert_eq!(resolve_type_member(&index, &s, 2, &f, None), None);
}

#[test]
fn builtin_type_member() {
    let mut index = ScopeIndex::new();
    index.type_paths.push(type_path(&["str"], TypeReferent::BuiltinType { ty: 3 }));
    index.inherent_items.push(InherentEntry { ty: 3, item: item(AssocItemKind::Function, 31, "len") });
    assert_eq!(resolve(&index, &scope(&[]), "str::len", None), target(DeclKind::Function, 31));
    assert_eq!(resolve(&index, &scope(&[]), "str::nope", None), None);
}

#[test]
fn single_name_without_item_has_no_prefix() {
    let index = index_with_struct_s();
    assert_eq!(resolve(&index, &scope(&[]), "Missing", None), None);
    assert_eq!(resolve_path(&index, &scope(&[]), plain(&["Missing"]), None), None);
}

#[test]
fn keyword_path_without_item_has_no_member_name() {
    let index = index_with_struct_s();
    assert_eq!(resolve(&index, &scope(&[]), "crate", None), None);
    assert_eq!(resolve(&index, &scope(&[]), "self", None), None);
}

#[test]
fn keyword_path_can_be_an_item() {
    let mut index = ScopeIndex::new();
    index.item_paths.push(ItemPathEntry {
        module: M,
        path: SymbolPath { anchor: PathAnchor::Crate, segments: vec![] },
        found: types_only(decl(DeclKind::Module, 0)),
    });
    index.item_paths.push(ItemPathEntry {
        module: M,
        path: SymbolPath { anchor: PathAnchor::Crate, segments: vec![text("f")] },
        found: PerNs { types: None, values: Some(decl(DeclKind::Function, 4)), macros: None },
    });
    assert_eq!(resolve(&index, &scope(&[]), "crate", None), target(DeclKind::Module, 0));
    assert_eq!(resolve(&index, &scope(&[]), "crate::f", None), target(DeclKind::Function, 4));
    assert_eq!(resolve(&index, &scope(&[]), "f", None), None);
}

#[test]
fn unresolved_prefix_fails() {
    let index = index_with_struct_s();
    assert_eq!(resolve(&index, &scope(&[]), "Nope::field", None), None);
}

#[test]
fn lookup_is_per_module() {
    let index = index_with_struct_s();
    let elsewhere = ResolutionScope { module: M + 1, generic_env: None, traits_in_scope: vec![] };
    assert_eq!(resolve(&index, &elsewhere, "S", None), None);
    assert_eq!(resolve(&index, &elsewhere, "S::field", None), None);
}

#[test]
fn first_row_for_a_path_answers() {
    let mut index = index_with_struct_s();
    index.item_paths.push(item_path(&["S"], types_only(decl(DeclKind::Enum, 7))));
    assert_eq!(resolve(&index, &scope(&[]), "S", None), target(DeclKind::Struct, S));
}

#[test]
fn item_path_in_no_namespace_is_none() {
    let mut index = ScopeIndex::new();
    index.item_paths.push(item_path(&["x"], PerNs::none()));
    assert_eq!(resolve_item_path(&index, &scope(&[]), &plain(&["x"])), None);
    assert_eq!(resolve_item_path(&index, &scope(&[]), &plain(&["y"])), None);
    let found = types_only(decl(DeclKind::Struct, 1));
    index.item_paths.push(item_path(&["z"], found));
    assert_eq!(resolve_item_path(&index, &scope(&[]), &plain(&["z"])), Some(found));
}

#[test]
fn type_position_lookup() {
    let index = index_with_trait_impl();
    assert_eq!(resolve_type(&index, &scope(&[]), &plain(&["U"])), Some(TypeReferent::AdtInstance { ty: U_TY }));
    assert_eq!(resolve_type(&index, &scope(&[]), &plain(&["T"])), Some(TypeReferent::TraitInstance { trait_id: T }));
    assert_eq!(resolve_type(&index, &scope(&[]), &plain(&["V"])), None);
    let generic = ResolutionScope { module: M, generic_env: Some(1), traits_in_scope: vec![] };
    assert_eq!(resolve_type(&index, &generic, &plain(&["U"])), None);
}

#[test]
fn resolution_is_repeatable() {
    let index = index_with_trait_impl();
    let copy = index.clone();
    for link in ["U", "U::go", "T::go", "NotAPath!!", "U::0"] {
        for filter in [None, Some(NamespaceKind::Type), Some(NamespaceKind::Value), Some(NamespaceKind::Macro)] {
            let first = resolve(&index, &scope(&[T]), link, filter);
            assert_eq!(resolve(&index, &scope(&[T]), link, filter), first);
            assert_eq!(resolve(&copy, &scope(&[T]), link, filter), first);
        }
    }
}

#[test]
fn scope_owner_of_each_kind() {
    let v = EnumVariant { parent: 4, id: 1 };
    assert_eq!(scope_owner_of(AttrDefId::ModuleId(1)), Some(AttrDefId::ModuleId(1)));
    assert_eq!(scope_owner_of(AttrDefId::FunctionId(2)), Some(AttrDefId::FunctionId(2)));
    assert_eq!(scope_owner_of(AttrDefId::EnumVariantId(v)), Some(AttrDefId::AdtId(Adt::Enum(4))));
    assert_eq!(
        scope_owner_of(AttrDefId::FieldId(Field { parent: VariantDef::Struct(3), id: 0 })),
        Some(AttrDefId::AdtId(Adt::Struct(3)))
    );
    assert_eq!(
        scope_owner_of(AttrDefId::FieldId(Field { parent: VariantDef::Union(3), id: 0 })),
        Some(AttrDefId::AdtId(Adt::Union(3)))
    );
    assert_eq!(
        scope_owner_of(AttrDefId::FieldId(Field { parent: VariantDef::Variant(v), id: 0 })),
        Some(AttrDefId::AdtId(Adt::Enum(4)))
    );
    assert_eq!(scope_owner_of(AttrDefId::GenericParamId(GenericParam::TypeParam(1))), None);
}

#[test]
fn attr_ids() {
    let v = EnumVariant { parent: 4, id: 1 };
    let f = Field { parent: VariantDef::Struct(3), id: 0 };
    assert_eq!(f.attr_id(), AttrDefId::FieldId(f));
    assert_eq!(v.attr_id(), AttrDefId::EnumVariantId(v));
    assert_eq!(Adt::Union(2).attr_id(), AttrDefId::AdtId(Adt::Union(2)));
    assert_eq!(GenericParam::ConstParam(2).attr_id(), AttrDefId::GenericParamId(GenericParam::ConstParam(2)));
    assert_eq!(AttrDefId::ImplId(9).attr_id(), AttrDefId::ImplId(9));
    assert_eq!(item(AssocItemKind::Function, 1, "f").attr_id(), AttrDefId::FunctionId(1));
    assert_eq!(item(AssocItemKind::Const, 2, "C").attr_id(), AttrDefId::ConstId(2));
    assert_eq!(item(AssocItemKind::TypeAlias, 3, "A").attr_id(), AttrDefId::TypeAliasId(3));
}

#[test]
fn attrs_are_those_of_the_owner() {
    let mut index = ScopeIndex::new();
    index.attrs.push(AttrEntry { owner: AttrDefId::FunctionId(1), docs: vec!["See [`S::field`].".to_string()] });
    index.attrs.push(AttrEntry { owner: AttrDefId::ConstId(1), docs: vec!["other".to_string()] });
    let got = item(AssocItemKind::Function, 1, "f").attrs(&index);
    assert_eq!(got.owner, AttrDefId::FunctionId(1));
    assert_eq!(got.docs, vec!["See [`S::field`].".to_string()]);
    let got = item(AssocItemKind::Const, 1, "C").attrs(&index);
    assert_eq!(got.docs, vec!["other".to_string()]);
    let none = attrs_with_owner(&index, AttrDefId::ModuleId(1));
    assert_eq!(none.owner, AttrDefId::ModuleId(1));
    assert!(none.docs.is_empty());
}

#[test]
fn link_on_a_field_resolves_in_the_scope_of_its_struct() {
    let mut index = index_with_struct_s();
    index.scopes.push(ScopeEntry { owner: AttrDefId::AdtId(Adt::Struct(S)), scope: scope(&[]) });
    let field = Field { parent: VariantDef::Struct(S), id: 0 };
    assert_eq!(
        resolve_doc_path_on(&index, field, "S::field", None),
        Some(ResolvedTarget::FieldMember(field))
    );
    assert_eq!(resolve_doc_path_on(&index, Adt::Struct(S), "S", None), target(DeclKind::Struct, S));
    assert_eq!(resolve_doc_path_on(&index, AttrDefId::FunctionId(1), "S", None), None);
}

#[test]
fn link_on_a_generic_parameter_resolves_to_nothing() {
    let mut index = index_with_struct_s();
    index.scopes.push(ScopeEntry {
        owner: AttrDefId::GenericParamId(GenericParam::TypeParam(1)),
        scope: scope(&[]),
    });
    assert_eq!(resolve_doc_path_on(&index, GenericParam::TypeParam(1), "S", None), None);
}

#[test]
fn traits_in_scope_membership() {
    let s = scope(&[3, 5]);
    assert!(s.has_trait(3));
    assert!(s.has_trait(5));
    assert!(!s.has_trait(4));
    assert!(!scope(&[]).has_trait(0));
}

#[test]
fn natural_namespaces() {
    assert_eq!(DeclKind::Function.namespace(), NamespaceKind::Value);
    assert_eq!(DeclKind::Const.namespace(), NamespaceKind::Value);
    assert_eq!(DeclKind::Static.namespace(), NamespaceKind::Value);
    assert_eq!(DeclKind::Macro.namespace(), NamespaceKind::Macro);
    for k in [DeclKind::Module, DeclKind::Struct, DeclKind::Union, DeclKind::Enum, DeclKind::Variant,
        DeclKind::Trait, DeclKind::TraitAlias, DeclKind::TypeAlias, DeclKind::BuiltinType] {
        assert_eq!(k.namespace(), NamespaceKind::Type);
    }
    let f = ResolvedTarget::FieldMember(Field { parent: VariantDef::Struct(1), id: 0 });
    assert_eq!(f.namespace(), NamespaceKind::Value);
}
