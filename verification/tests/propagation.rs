use apply_attr::attributes::{append_copies, fold_attributes, AttrStyle, Attribute, Attributes};
use apply_attr::bound::{expand_bound, site_refused};
use apply_attr::diagnostics::{Diagnostic, Site};
use apply_attr::expand::{
    expand, expand_impl_item, expand_item, expand_trait_item, forward_selectors, is_applicable,
};
use apply_attr::mask::{
    ItemMask, ITEM_CONST, ITEM_DEF_IMPL, ITEM_ENUM, ITEM_EXT_CRATE, ITEM_FGN_MOD, ITEM_FN,
    ITEM_IMPL, ITEM_MAC, ITEM_MOD, ITEM_STATIC, ITEM_STRUCT, ITEM_TRAIT, ITEM_TY, ITEM_UNION,
    ITEM_USE,
};
use apply_attr::meta::{MetaItem, MetaItemKind, NestedMetaItem, NestedMetaItemKind, Span};
use apply_attr::tree::{
    map_impl_item_to_mask, map_item_to_mask, map_trait_item_to_mask, Annotatable, ImplItem,
    ImplItemKind, Item, ItemKind, TraitItem, TraitItemKind,
};

fn at(lo: u32) -> Span {
    Span { lo, hi: lo + 1 }
}

fn word(name: &str, lo: u32) -> MetaItem {
    MetaItem { name: name.to_string(), node: MetaItemKind::Word, span: at(lo) }
}

fn nested(item: MetaItem) -> NestedMetaItem {
    let span = item.span;
    NestedMetaItem { node: NestedMetaItemKind::MetaItem(item), span }
}

fn list(name: &str, lo: u32, entries: Vec<MetaItem>) -> MetaItem {
    MetaItem {
        name: name.to_string(),
        node: MetaItemKind::List(entries.into_iter().map(nested).collect()),
        span: at(lo),
    }
}

fn query(selectors: Vec<MetaItem>, mode: &str, attributes: Vec<MetaItem>) -> MetaItem {
    list("apply_attr", 100, vec![list("to", 101, selectors), list(mode, 102, attributes)])
}

fn made<'a>(value: &'a MetaItem) -> Attribute<'a> {
    Attribute {
        id: None,
        style: AttrStyle::Outer,
        value,
        is_sugared_doc: false,
        span: value.span,
    }
}

fn own<'a>(id: usize, value: &'a MetaItem) -> Attribute<'a> {
    Attribute {
        id: Some(id),
        style: AttrStyle::Inner,
        value,
        is_sugared_doc: true,
        span: value.span,
    }
}

fn item<'a>(ident: &str, node: ItemKind<'a>) -> Item<'a> {
    Item { ident: ident.to_string(), attrs: vec![], node }
}

fn item_with<'a>(ident: &str, attrs: Vec<Attribute<'a>>, node: ItemKind<'a>) -> Item<'a> {
    Item { ident: ident.to_string(), attrs, node }
}

fn trait_item<'a>(ident: &str, node: TraitItemKind) -> TraitItem<'a> {
    TraitItem { ident: ident.to_string(), attrs: vec![], node }
}

fn impl_item<'a>(ident: &str, node: ImplItemKind) -> ImplItem<'a> {
    ImplItem { ident: ident.to_string(), attrs: vec![], node }
}

fn every_leaf_kind<'a>() -> Vec<Item<'a>> {
    vec![
        item("a", ItemKind::ExternCrate),
        item("b", ItemKind::Use),
        item("c", ItemKind::Static),
        item("d", ItemKind::Const),
        item("e", ItemKind::Fn),
        item("f", ItemKind::ForeignMod),
        item("g", ItemKind::Ty),
        item("h", ItemKind::Enum),
        item("i", ItemKind::Struct),
        item("j", ItemKind::Union),
        item("k", ItemKind::DefaultImpl),
        item("l", ItemKind::Mac),
    ]
}

fn children<'a, 'b>(item: &'b Item<'a>) -> &'b Vec<Item<'a>> {
    match &item.node {
        ItemKind::Mod(items) => items,
        _ => panic!("not a module"),
    }
}

#[test]
fn every_item_kind_maps_to_its_bit() {
    let expected = [
        (ItemKind::ExternCrate, ITEM_EXT_CRATE),
        (ItemKind::Use, ITEM_USE),
        (ItemKind::Static, ITEM_STATIC),
        (ItemKind::Const, ITEM_CONST),
        (ItemKind::Fn, ITEM_FN),
        (ItemKind::Mod(vec![]), ITEM_MOD),
        (ItemKind::ForeignMod, ITEM_FGN_MOD),
        (ItemKind::Ty, ITEM_TY),
        (ItemKind::Enum, ITEM_ENUM),
        (ItemKind::Struct, ITEM_STRUCT),
        (ItemKind::Union, ITEM_UNION),
        (ItemKind::Trait(vec![]), ITEM_TRAIT),
        (ItemKind::DefaultImpl, ITEM_DEF_IMPL),
        (ItemKind::Impl(vec![]), ITEM_IMPL),
        (ItemKind::Mac, ITEM_MAC),
    ];
    for (i, (node, bits)) in expected.into_iter().enumerate() {
        assert_eq!(map_item_to_mask(&item("x", node)), ItemMask { bits });
        assert_eq!(bits, 1u16 << i);
    }
}

#[test]
fn members_share_the_kinds_of_items() {
    let kinds = [
        (TraitItemKind::Const, ImplItemKind::Const, ITEM_CONST),
        (TraitItemKind::Method, ImplItemKind::Method, ITEM_FN),
        (TraitItemKind::Type, ImplItemKind::Type, ITEM_TY),
        (TraitItemKind::Macro, ImplItemKind::Macro, ITEM_MAC),
    ];
    for (in_trait, in_impl, bits) in kinds {
        assert_eq!(map_trait_item_to_mask(&trait_item("x", in_trait)), ItemMask { bits });
        assert_eq!(map_impl_item_to_mask(&impl_item("x", in_impl)), ItemMask { bits });
    }
}

#[test]
fn default_goes_before_and_override_after() {
    let (b1, b2, e1, e2) = (word("b1", 0), word("b2", 1), word("e1", 2), word("e2", 3));
    let batch = vec![made(&b1), made(&b2)];
    let existing = vec![own(1, &e1), own(2, &e2)];
    assert_eq!(
        Attributes::Default(batch.clone()).augment(&existing),
        vec![made(&b1), made(&b2), own(1, &e1), own(2, &e2)]
    );
    assert_eq!(
        Attributes::Override(batch.clone()).augment(&existing),
        vec![own(1, &e1), own(2, &e2), made(&b1), made(&b2)]
    );
    assert_eq!(Attributes::Default(batch.clone()).augment(&[]), batch);
    assert_eq!(Attributes::Override(vec![]).augment(&existing), existing);
    assert_eq!(Attributes::Default(vec![]).augment(&[]), vec![]);
}

#[test]
fn append_copies_appends_in_order() {
    let (a, b, c) = (word("a", 0), word("b", 1), word("c", 2));
    let mut target = vec![made(&a)];
    append_copies(&mut target, &[made(&b), made(&c)]);
    assert_eq!(target, vec![made(&a), made(&b), made(&c)]);
}

#[test]
fn fold_adds_the_batch_only_where_the_kind_is_selected() {
    let (mark, e) = (word("mark", 0), word("e", 1));
    let batch = Attributes::Override(vec![made(&mark)]);
    let existing = vec![own(1, &e)];
    let selected = ItemMask { bits: ITEM_STRUCT | ITEM_ENUM };
    assert_eq!(
        fold_attributes(ItemMask { bits: ITEM_ENUM }, selected, &existing, &batch),
        vec![own(1, &e), made(&mark)]
    );
    assert_eq!(
        fold_attributes(ItemMask { bits: ITEM_FN }, selected, &existing, &batch),
        existing
    );
    assert_eq!(
        fold_attributes(ItemMask { bits: ITEM_ENUM }, ItemMask::none(), &existing, &batch),
        existing
    );
}

#[test]
fn root_forwards_every_selector_and_nested_items_narrow() {
    // [structs, mods(structs)] at a root module.
    let structs = word("structs", 0);
    let mods = list("mods", 1, vec![word("structs", 2)]);
    let selectors = vec![&structs, &mods];
    let mark = word("mark", 3);
    let batch = Attributes::Default(vec![made(&mark)]);

    let mod_mask = ItemMask { bits: ITEM_MOD };
    assert_eq!(forward_selectors(&selectors, mod_mask, true), selectors);
    assert_eq!(forward_selectors(&selectors, mod_mask, false), vec![&word("structs", 2)]);
    assert!(forward_selectors(&selectors, ItemMask { bits: ITEM_TRAIT }, false).is_empty());

    let root = item(
        "root",
        ItemKind::Mod(vec![
            item("Top", ItemKind::Struct),
            item(
                "inner",
                ItemKind::Mod(vec![
                    item("Deep", ItemKind::Struct),
                    item("Choice", ItemKind::Enum),
                    item("deeper", ItemKind::Mod(vec![item("Deepest", ItemKind::Struct)])),
                ]),
            ),
        ]),
    );
    let expanded = expand_item(root, &selectors, &batch, true);
    assert!(expanded.attrs.is_empty());
    let top = children(&expanded);
    assert_eq!(top[0].attrs, vec![made(&mark)]);
    assert!(top[1].attrs.is_empty());
    let inner = children(&top[1]);
    assert_eq!(inner[0].ident, "Deep");
    assert_eq!(inner[0].attrs, vec![made(&mark)]);
    assert!(inner[1].attrs.is_empty());
    assert!(inner[2].attrs.is_empty());
    assert!(children(&inner[2])[0].attrs.is_empty());
}

#[test]
fn enums_structs_and_structs_in_modules_get_the_default() {
    // to(enums, structs, mods(structs)), as_default(mark)
    let meta = query(
        vec![word("enums", 0), word("structs", 1), list("mods", 2, vec![word("structs", 3)])],
        "as_default",
        vec![word("mark", 4)],
    );
    let derive = word("derive", 50);
    let root = item(
        "root",
        ItemKind::Mod(vec![
            item_with("Foo", vec![own(7, &derive)], ItemKind::Struct),
            item("Bar", ItemKind::Enum),
            item("blee", ItemKind::Mod(vec![item("Blee", ItemKind::Struct)])),
        ]),
    );
    let mut diagnostics = Vec::new();
    let expanded = expand(at(100), &meta, Annotatable::Item(root), &mut diagnostics);
    assert!(diagnostics.is_empty());

    let mark = word("mark", 4);
    let expected = item(
        "root",
        ItemKind::Mod(vec![
            item_with("Foo", vec![made(&mark), own(7, &derive)], ItemKind::Struct),
            item_with("Bar", vec![made(&mark)], ItemKind::Enum),
            item(
                "blee",
                ItemKind::Mod(vec![item_with("Blee", vec![made(&mark)], ItemKind::Struct)]),
            ),
        ]),
    );
    assert_eq!(expanded, Annotatable::Item(expected));
}

#[test]
fn unknown_selector_is_reported_once_and_changes_nothing() {
    let meta = query(vec![word("foo", 0)], "as_default", vec![word("mark", 1)]);
    let root = item("root", ItemKind::Mod(every_leaf_kind()));
    let mut diagnostics = Vec::new();
    let expanded = expand(at(100), &meta, Annotatable::Item(root), &mut diagnostics);
    assert_eq!(
        diagnostics,
        vec![Diagnostic::UnrecognizedSelector { span: at(0), name: "foo".to_string() }]
    );
    assert_eq!(diagnostics[0].message(), "unrecognized selector `foo`");
    assert_eq!(expanded, Annotatable::Item(item("root", ItemKind::Mod(every_leaf_kind()))));
}

#[test]
fn query_on_anything_but_mod_trait_impl_is_refused() {
    let meta = query(
        vec![word("fns", 0), word("structs", 1)],
        "as_override",
        vec![word("mark", 2)],
    );
    for leaf in every_leaf_kind() {
        let ident = leaf.ident.clone();
        let mut diagnostics = Vec::new();
        let expanded = expand(at(9), &meta, Annotatable::Item(leaf), &mut diagnostics);
        assert_eq!(diagnostics, vec![Diagnostic::NotApplicable { span: at(9) }]);
        assert_eq!(
            diagnostics[0].message(),
            "Only applicable to `mod`, `trait` or `impl` items."
        );
        match expanded {
            Annotatable::Item(same) => {
                assert_eq!(same.ident, ident);
                assert!(same.attrs.is_empty());
            }
            _ => panic!("an item stays an item"),
        }
    }
    let mut diagnostics = Vec::new();
    let method = Annotatable::TraitItem(trait_item("m", TraitItemKind::Method));
    assert_eq!(
        expand(at(9), &meta, method, &mut diagnostics),
        Annotatable::TraitItem(trait_item("m", TraitItemKind::Method))
    );
    let method = Annotatable::ImplItem(impl_item("m", ImplItemKind::Method));
    assert_eq!(
        expand(at(10), &meta, method, &mut diagnostics),
        Annotatable::ImplItem(impl_item("m", ImplItemKind::Method))
    );
    assert_eq!(
        diagnostics,
        vec![
            Diagnostic::NotApplicable { span: at(9) },
            Diagnostic::NotApplicable { span: at(10) }
        ]
    );
}

#[test]
fn faulty_query_is_reported_before_the_place_is_looked_at() {
    let meta = query(vec![word("foo", 0)], "as_default", vec![]);
    let mut diagnostics = Vec::new();
    let expanded =
        expand(at(9), &meta, Annotatable::Item(item("f", ItemKind::Fn)), &mut diagnostics);
    assert_eq!(
        diagnostics,
        vec![Diagnostic::UnrecognizedSelector { span: at(0), name: "foo".to_string() }]
    );
    assert_eq!(expanded, Annotatable::Item(item("f", ItemKind::Fn)));
}

#[test]
fn query_on_mod_trait_and_impl_is_accepted() {
    let meta = query(vec![], "as_default", vec![]);
    for node in [ItemKind::Mod(vec![]), ItemKind::Trait(vec![]), ItemKind::Impl(vec![])] {
        assert!(is_applicable(&item("x", node)));
    }
    for leaf in every_leaf_kind() {
        assert!(!is_applicable(&leaf));
    }
    let mut diagnostics = Vec::new();
    let expanded =
        expand(at(9), &meta, Annotatable::Item(item("m", ItemKind::Mod(vec![]))), &mut diagnostics);
    assert!(diagnostics.is_empty());
    assert_eq!(expanded, Annotatable::Item(item("m", ItemKind::Mod(vec![]))));
}

#[test]
fn root_itself_gets_the_batch_when_its_kind_is_selected() {
    let meta = query(vec![word("mods", 0)], "as_override", vec![word("mark", 1)]);
    let e = word("e", 2);
    let root = item_with(
        "root",
        vec![own(1, &e)],
        ItemKind::Mod(vec![item("inner", ItemKind::Mod(vec![item("deep", ItemKind::Mod(vec![]))]))]),
    );
    let mut diagnostics = Vec::new();
    let expanded = expand(at(9), &meta, Annotatable::Item(root), &mut diagnostics);
    assert!(diagnostics.is_empty());
    let mark = word("mark", 1);
    let expected = item_with(
        "root",
        vec![own(1, &e), made(&mark)],
        ItemKind::Mod(vec![item_with(
            "inner",
            vec![made(&mark)],
            ItemKind::Mod(vec![item("deep", ItemKind::Mod(vec![]))]),
        )]),
    );
    assert_eq!(expanded, Annotatable::Item(expected));
}

#[test]
fn members_of_traits_and_impls_are_reached() {
    // to(fns, traits(consts), impls(types)) at a root module
    let fns = word("fns", 0);
    let traits = list("traits", 1, vec![word("consts", 2)]);
    let impls = list("impls", 3, vec![word("types", 4)]);
    let selectors = vec![&fns, &traits, &impls];
    let mark = word("mark", 5);
    let batch = Attributes::Override(vec![made(&mark)]);
    let members_of_trait = || {
        vec![
            trait_item("C", TraitItemKind::Const),
            trait_item("m", TraitItemKind::Method),
            trait_item("T", TraitItemKind::Type),
            trait_item("mac", TraitItemKind::Macro),
        ]
    };
    let members_of_impl = || {
        vec![
            impl_item("C", ImplItemKind::Const),
            impl_item("m", ImplItemKind::Method),
            impl_item("T", ImplItemKind::Type),
            impl_item("mac", ImplItemKind::Macro),
        ]
    };
    let root = item(
        "root",
        ItemKind::Mod(vec![
            item("f", ItemKind::Fn),
            item("Tr", ItemKind::Trait(members_of_trait())),
            item("Im", ItemKind::Impl(members_of_impl())),
        ]),
    );
    let expanded = expand_item(root, &selectors, &batch, true);
    let top = children(&expanded);
    assert_eq!(top[0].attrs, vec![made(&mark)]);
    assert!(top[1].attrs.is_empty());
    assert!(top[2].attrs.is_empty());
    match &top[1].node {
        ItemKind::Trait(members) => {
            let marked: Vec<bool> = members.iter().map(|m| !m.attrs.is_empty()).collect();
            assert_eq!(marked, vec![true, false, false, false]);
            assert_eq!(members[0].attrs, vec![made(&mark)]);
        }
        _ => panic!("a trait stays a trait"),
    }
    match &top[2].node {
        ItemKind::Impl(members) => {
            let marked: Vec<bool> = members.iter().map(|m| !m.attrs.is_empty()).collect();
            assert_eq!(marked, vec![false, false, true, false]);
        }
        _ => panic!("an impl stays an impl"),
    }

    // At a root trait every selector reaches the members.
    let root = item("Tr", ItemKind::Trait(members_of_trait()));
    let expanded = expand_item(root, &selectors, &batch, true);
    match &expanded.node {
        ItemKind::Trait(members) => {
            let marked: Vec<bool> = members.iter().map(|m| !m.attrs.is_empty()).collect();
            assert_eq!(marked, vec![false, true, false, false]);
        }
        _ => panic!("a trait stays a trait"),
    }
}

#[test]
fn members_get_the_batch_by_kind() {
    let consts = word("consts", 0);
    let mark = word("mark", 1);
    let e = word("e", 2);
    let batch = Attributes::Default(vec![made(&mark)]);
    let mut constant = trait_item("C", TraitItemKind::Const);
    constant.attrs.push(own(1, &e));
    let expanded = expand_trait_item(constant, &[&consts], &batch);
    assert_eq!(expanded.ident, "C");
    assert_eq!(expanded.node, TraitItemKind::Const);
    assert_eq!(expanded.attrs, vec![made(&mark), own(1, &e)]);
    let method = expand_trait_item(trait_item("m", TraitItemKind::Method), &[&consts], &batch);
    assert!(method.attrs.is_empty());

    let expanded = expand_impl_item(impl_item("C", ImplItemKind::Const), &[&consts], &batch);
    assert_eq!(expanded.attrs, vec![made(&mark)]);
    let ty = expand_impl_item(impl_item("T", ImplItemKind::Type), &[&consts], &batch);
    assert!(ty.attrs.is_empty());
    assert_eq!(ty.node, ImplItemKind::Type);
}

#[test]
fn first_of_two_nested_selectors_for_one_kind_wins() {
    // to(mods(structs), mods(enums)) at a root module
    let first = list("mods", 0, vec![word("structs", 1)]);
    let second = list("mods", 2, vec![word("enums", 3)]);
    let mark = word("mark", 4);
    let batch = Attributes::Default(vec![made(&mark)]);
    let root = item(
        "root",
        ItemKind::Mod(vec![item(
            "inner",
            ItemKind::Mod(vec![item("S", ItemKind::Struct), item("E", ItemKind::Enum)]),
        )]),
    );
    let expanded = expand_item(root, &[&first, &second], &batch, true);
    let inner = children(&children(&expanded)[0]);
    assert_eq!(inner[0].attrs, vec![made(&mark)]);
    assert!(inner[1].attrs.is_empty());
}

#[test]
fn no_selectors_change_nothing() {
    let mark = word("mark", 0);
    let batch = Attributes::Override(vec![made(&mark)]);
    let root = item("root", ItemKind::Mod(every_leaf_kind()));
    assert_eq!(
        expand_item(root, &[], &batch, true),
        item("root", ItemKind::Mod(every_leaf_kind()))
    );
}

#[test]
fn later_query_sees_what_an_earlier_one_added() {
    // to(structs), as_default(first) at the root; then to(enums),
    // as_override(second) at the module `foo` inside.
    let outer = query(vec![word("structs", 0)], "as_default", vec![word("first", 1)]);
    let inner = query(vec![word("enums", 2)], "as_override", vec![word("second", 3)]);
    let mut diagnostics = Vec::new();

    let foo = item(
        "foo",
        ItemKind::Mod(vec![item("Baz", ItemKind::Struct), item("Blee", ItemKind::Enum)]),
    );
    let foo = match expand(at(1), &inner, Annotatable::Item(foo), &mut diagnostics) {
        Annotatable::Item(foo) => foo,
        _ => panic!("an item stays an item"),
    };
    let root = item(
        "root",
        ItemKind::Mod(vec![item("Foo", ItemKind::Enum), item("Bar", ItemKind::Struct), foo]),
    );
    let expanded = expand(at(0), &outer, Annotatable::Item(root), &mut diagnostics);
    assert!(diagnostics.is_empty());

    let (first, second) = (word("first", 1), word("second", 3));
    let expected = item(
        "root",
        ItemKind::Mod(vec![
            item("Foo", ItemKind::Enum),
            item_with("Bar", vec![made(&first)], ItemKind::Struct),
            item(
                "foo",
                ItemKind::Mod(vec![
                    item("Baz", ItemKind::Struct),
                    item_with("Blee", vec![made(&second)], ItemKind::Enum),
                ]),
            ),
        ]),
    );
    assert_eq!(expanded, Annotatable::Item(expected));
}

#[test]
fn bound_trigger_on_a_function_is_refused() {
    let mark = word("mark", 0);
    let batch = Attributes::Default(vec![made(&mark)]);
    let mut diagnostics = Vec::new();
    let expanded = expand_bound(
        at(5),
        "fns",
        &batch,
        Annotatable::Item(item("f", ItemKind::Fn)),
        &mut diagnostics,
    );
    assert_eq!(diagnostics, vec![Diagnostic::NotApplicable { span: at(5) }]);
    assert_eq!(diagnostics[0].message(), "Only applicable to `mod`, `trait` or `impl` items.");
    assert_eq!(expanded, Annotatable::Item(item("f", ItemKind::Fn)));

    let method = Annotatable::ImplItem(impl_item("m", ImplItemKind::Method));
    let expanded = expand_bound(at(6), "fns", &batch, method, &mut diagnostics);
    assert_eq!(diagnostics.len(), 2);
    assert_eq!(diagnostics[1], Diagnostic::NotApplicable { span: at(6) });
    assert_eq!(expanded, Annotatable::ImplItem(impl_item("m", ImplItemKind::Method)));
}

#[test]
fn bound_trigger_reaches_the_item_and_what_it_holds() {
    let mark = word("mark", 0);
    let batch = Attributes::Default(vec![made(&mark)]);
    let root = item(
        "root",
        ItemKind::Mod(vec![
            item("f", ItemKind::Fn),
            item("S", ItemKind::Struct),
            item("inner", ItemKind::Mod(vec![item("g", ItemKind::Fn)])),
            item("Tr", ItemKind::Trait(vec![trait_item("m", TraitItemKind::Method)])),
        ]),
    );
    let mut diagnostics = Vec::new();
    let expanded = expand_bound(at(5), "fns", &batch, Annotatable::Item(root), &mut diagnostics);
    assert!(diagnostics.is_empty());
    let expected = item(
        "root",
        ItemKind::Mod(vec![
            item_with("f", vec![made(&mark)], ItemKind::Fn),
            item("S", ItemKind::Struct),
            item("inner", ItemKind::Mod(vec![item("g", ItemKind::Fn)])),
            item("Tr", ItemKind::Trait(vec![trait_item("m", TraitItemKind::Method)])),
        ]),
    );
    assert_eq!(expanded, Annotatable::Item(expected));

    let root = item(
        "Im",
        ItemKind::Impl(vec![
            impl_item("m", ImplItemKind::Method),
            impl_item("C", ImplItemKind::Const),
        ]),
    );
    let expanded = expand_bound(at(5), "fns", &batch, Annotatable::Item(root), &mut diagnostics);
    assert!(diagnostics.is_empty());
    let mut method = impl_item("m", ImplItemKind::Method);
    method.attrs.push(made(&mark));
    let expected = item("Im", ItemKind::Impl(vec![method, impl_item("C", ImplItemKind::Const)]));
    assert_eq!(expanded, Annotatable::Item(expected));
}

#[test]
fn bound_trigger_is_refused_where_nothing_of_its_kind_can_be() {
    let mark = word("mark", 0);
    let batch = Attributes::Override(vec![made(&mark)]);
    for target in ["structs", "enums", "mods"] {
        let mut diagnostics = Vec::new();
        let tr = item("Tr", ItemKind::Trait(vec![trait_item("m", TraitItemKind::Method)]));
        let expanded = expand_bound(at(5), target, &batch, Annotatable::Item(tr), &mut diagnostics);
        assert_eq!(
            diagnostics,
            vec![Diagnostic::NotApplicableTo { span: at(5), site: Site::Traits }]
        );
        assert_eq!(diagnostics[0].message(), "Attribute not applicable to traits.");
        assert_eq!(
            expanded,
            Annotatable::Item(item(
                "Tr",
                ItemKind::Trait(vec![trait_item("m", TraitItemKind::Method)])
            ))
        );

        let im = item("Im", ItemKind::Impl(vec![]));
        let mut diagnostics = Vec::new();
        expand_bound(at(6), target, &batch, Annotatable::Item(im), &mut diagnostics);
        assert_eq!(
            diagnostics,
            vec![Diagnostic::NotApplicableTo { span: at(6), site: Site::Impls }]
        );
        assert_eq!(diagnostics[0].message(), "Attribute not applicable to impls.");

        let module = item("m", ItemKind::Mod(vec![]));
        let mut diagnostics = Vec::new();
        expand_bound(at(7), target, &batch, Annotatable::Item(module), &mut diagnostics);
        assert!(diagnostics.is_empty());
    }
    for target in ["consts", "fns", "types", "macros"] {
        let mask = apply_attr::mask::map_selector_to_mask(target);
        assert_eq!(site_refused(mask, &item("Tr", ItemKind::Trait(vec![]))), None);
        assert_eq!(site_refused(mask, &item("Im", ItemKind::Impl(vec![]))), None);
        assert_eq!(site_refused(mask, &item("m", ItemKind::Mod(vec![]))), None);
    }
    assert_eq!(
        Diagnostic::NotApplicableTo { span: at(0), site: Site::Mods }.message(),
        "Attribute not applicable to mods."
    );
}

#[test]
fn query_with_a_bad_first_part_changes_nothing() {
    let meta = list(
        "apply_attr",
        100,
        vec![
            list("on", 101, vec![word("structs", 0)]),
            list("as_default", 102, vec![word("mark", 1)]),
        ],
    );
    let root = item("root", ItemKind::Mod(every_leaf_kind()));
    let mut diagnostics = Vec::new();
    let expanded = expand(at(100), &meta, Annotatable::Item(root), &mut diagnostics);
    assert_eq!(
        diagnostics,
        vec![
            Diagnostic::ExpectedTo { span: at(101) },
            Diagnostic::ExpectedQuery { span: at(100) },
        ]
    );
    assert_eq!(expanded, Annotatable::Item(item("root", ItemKind::Mod(every_leaf_kind()))));
}
