//! Carrying a batch of attributes down a tree of items.

use vstd::prelude::*;
use crate::attributes::{fold_attributes, folded, Attributes, AttributesModel};
use crate::diagnostics::Diagnostic;
use crate::mask::ItemMask;
use crate::meta::{MetaItem, Span};
use crate::query::{extract_meta, lemma_query_accepted_iff_silent, query_errors, query_parts};
use crate::selector::{
    extract_mask_from_selectors,
    extract_sub_selectors,
    selectors_mask,
    sub_selectors,
    Selector,
};
use crate::tree::{
    impl_item_kind_mask,
    item_kind_mask,
    map_impl_item_to_mask,
    map_item_to_mask,
    map_trait_item_to_mask,
    trait_item_kind_mask,
    Annotatable,
    AnnotatableModel,
    ImplItem,
    ImplItemModel,
    Item,
    ItemKind,
    ItemKindModel,
    ItemModel,
    TraitItem,
    TraitItemModel,
};

verus! {

/// The selectors that an item of kind `item_mask` hands to what it holds.
/// The item a query is applied to hands on all of them; an item further
/// down hands on only what a nested selector says for its kind.
pub open spec fn forwarded_selectors<'s>(
    selectors: Seq<&'s MetaItem>,
    item_mask: ItemMask,
    is_root: bool,
) -> Seq<&'s MetaItem> {
    if is_root {
        selectors
    } else {
        sub_selectors(selectors, item_mask)
    }
}

/// A trait member after the batch has passed it.
pub open spec fn expanded_trait_item<'a>(
    item: TraitItemModel<'a>,
    selectors: Seq<&MetaItem>,
    attributes: AttributesModel<'a>,
) -> TraitItemModel<'a> {
    TraitItemModel {
        ident: item.ident,
        attrs: folded(
            trait_item_kind_mask(item.node),
            selectors_mask(selectors),
            item.attrs,
            attributes,
        ),
        node: item.node,
    }
}

/// An impl member after the batch has passed it.
pub open spec fn expanded_impl_item<'a>(
    item: ImplItemModel<'a>,
    selectors: Seq<&MetaItem>,
    attributes: AttributesModel<'a>,
) -> ImplItemModel<'a> {
    ImplItemModel {
        ident: item.ident,
        attrs: folded(
            impl_item_kind_mask(item.node),
            selectors_mask(selectors),
            item.attrs,
            attributes,
        ),
        node: item.node,
    }
}

/// An item after the batch has passed it and all that it holds: the item
/// gets the batch if its kind is selected, and each thing it holds is
/// passed in turn, with the selectors that the item hands on.
pub open spec fn expanded_item<'a>(
    item: ItemModel<'a>,
    selectors: Seq<&MetaItem>,
    attributes: AttributesModel<'a>,
    is_root: bool,
) -> ItemModel<'a>
    decreases item,
{
    let item_mask = item_kind_mask(item.node);
    let forwarded = forwarded_selectors(selectors, item_mask, is_root);
    ItemModel {
        ident: item.ident,
        attrs: folded(item_mask, selectors_mask(selectors), item.attrs, attributes),
        node: match item.node {
            ItemKindModel::Mod(items) => ItemKindModel::Mod(
                Seq::new(
                    items.len(),
                    |i: int|
                        if 0 <= i < items.len() {
                            expanded_item(items[i], forwarded, attributes, false)
                        } else {
                            arbitrary()
                        },
                ),
            ),
            ItemKindModel::Trait(items) => ItemKindModel::Trait(
                Seq::new(
                    items.len(),
                    |i: int| expanded_trait_item(items[i], forwarded, attributes),
                ),
            ),
            ItemKindModel::Impl(items) => ItemKindModel::Impl(
                Seq::new(
                    items.len(),
                    |i: int| expanded_impl_item(items[i], forwarded, attributes),
                ),
            ),
            other => other,
        },
    }
}

/// Passes the batch over a trait member: it gets the batch if its kind is
/// among those the selectors select. Nothing lies below a member.
pub fn expand_trait_item<'a>(
    item: TraitItem<'a>,
    selectors: &[&Selector],
    attributes: &Attributes<'a>,
) -> (expanded: TraitItem<'a>)
    ensures
        expanded@ == expanded_trait_item(item@, selectors@, attributes@),
{
    let item_mask = map_trait_item_to_mask(&item);
    let selector_mask = extract_mask_from_selectors(selectors);
    let augmented_attributes = fold_attributes(
        item_mask,
        selector_mask,
        item.attrs.as_slice(),
        attributes,
    );
    TraitItem { ident: item.ident, attrs: augmented_attributes, node: item.node }
}

/// Passes the batch over an impl member: it gets the batch if its kind is
/// among those the selectors select. Nothing lies below a member.
pub fn expand_impl_item<'a>(
    item: ImplItem<'a>,
    selectors: &[&Selector],
    attributes: &Attributes<'a>,
) -> (expanded: ImplItem<'a>)
    ensures
        expanded@ == expanded_impl_item(item@, selectors@, attributes@),
{
    let item_mask = map_impl_item_to_mask(&item);
    let selector_mask = extract_mask_from_selectors(selectors);
    let augmented_attributes = fold_attributes(
        item_mask,
        selector_mask,
        item.attrs.as_slice(),
        attributes,
    );
    ImplItem { ident: item.ident, attrs: augmented_attributes, node: item.node }
}

/// The selectors that an item of kind `item_mask` hands to what it holds.
pub fn forward_selectors<'s>(selectors: &[&'s Selector], item_mask: ItemMask, is_root: bool) -> (
    forwarded: Vec<&'s Selector>
)
    ensures
        forwarded@ == forwarded_selectors(selectors@, item_mask, is_root),
{
    if is_root {
        let mut forwarded: Vec<&'s Selector> = Vec::new();
        let mut i: usize = 0;
        while i < selectors.len()
            invariant
                i <= selectors.len(),
                forwarded@ == selectors@.take(i as int),
            decreases selectors.len() - i,
        {
            forwarded.push(selectors[i]);
            i = i + 1;
        }
        proof {
            assert(selectors@.take(selectors.len() as int) == selectors@);
        }
        forwarded
    } else {
        extract_sub_selectors(selectors, item_mask)
    }
}

/// Passes the batch over an item and all that it holds. The item gets the
/// batch if its kind is among those the selectors select; the items of a
/// module and the members of a trait or an impl are then passed with the
/// selectors that the item hands on, and are never the root themselves.
pub fn expand_item<'a>(
    item: Item<'a>,
    selectors: &[&Selector],
    attributes: &Attributes<'a>,
    is_root: bool,
) -> (expanded: Item<'a>)
    ensures
        expanded@ == expanded_item(item@, selectors@, attributes@, is_root),
    decreases item,
{
    let item_mask = map_item_to_mask(&item);
    let selector_mask = extract_mask_from_selectors(selectors);
    let sub_selectors = forward_selectors(selectors, item_mask, is_root);
    let augmented_attributes = fold_attributes(
        item_mask,
        selector_mask,
        item.attrs.as_slice(),
        attributes,
    );
    let Item { ident, attrs: _, node } = item;
    let node = match node {
        ItemKind::Mod(items) => {
            let ghost children = items@;
            let mut expanded_items: Vec<Item<'a>> = Vec::new();
            for child in it: items
                invariant
                    it.seq() == children,
                    item.node is Mod,
                    item.node->Mod_0@ == children,
                    expanded_items@.len() == it.index(),
                    forall|j: int|
                        0 <= j < it.index() ==> (#[trigger] expanded_items@[j])@ == expanded_item(
                            children[j]@,
                            sub_selectors@,
                            attributes@,
                            false,
                        ),
            {
                proof {
                    assert(decreases_to!(item.node => item.node->Mod_0));
                    assert(decreases_to!(item.node->Mod_0 => item.node->Mod_0[it.index()]));
                }
                let expanded_child = expand_item(
                    child,
                    sub_selectors.as_slice(),
                    attributes,
                    false,
                );
                expanded_items.push(expanded_child);
            }
            ItemKind::Mod(expanded_items)
        },
        ItemKind::Trait(items) => {
            let ghost children = items@;
            let mut expanded_items: Vec<TraitItem<'a>> = Vec::new();
            for child in it: items
                invariant
                    it.seq() == children,
                    expanded_items@.len() == it.index(),
                    forall|j: int|
                        0 <= j < it.index() ==> (#[trigger] expanded_items@[j])@
                            == expanded_trait_item(children[j]@, sub_selectors@, attributes@),
            {
                let expanded_child = expand_trait_item(child, sub_selectors.as_slice(), attributes);
                expanded_items.push(expanded_child);
            }
            ItemKind::Trait(expanded_items)
        },
        ItemKind::Impl(items) => {
            let ghost children = items@;
            let mut expanded_items: Vec<ImplItem<'a>> = Vec::new();
            for child in it: items
                invariant
                    it.seq() == children,
                    expanded_items@.len() == it.index(),
                    forall|j: int|
                        0 <= j < it.index() ==> (#[trigger] expanded_items@[j])@
                            == expanded_impl_item(children[j]@, sub_selectors@, attributes@),
            {
                let expanded_child = expand_impl_item(child, sub_selectors.as_slice(), attributes);
                expanded_items.push(expanded_child);
            }
            ItemKind::Impl(expanded_items)
        },
        other => other,
    };
    let expanded = Item { ident, attrs: augmented_attributes, node };
    proof {
        let target = expanded_item(item@, selectors@, attributes@, is_root);
        if item.node is Mod {
            assert(expanded@.node->Mod_0 =~= target.node->Mod_0);
        } else if item.node is Trait {
            assert(expanded@.node->Trait_0 =~= target.node->Trait_0);
        } else if item.node is Impl {
            assert(expanded@.node->Impl_0 =~= target.node->Impl_0);
        }
    }
    expanded
}

/// Whether a query may be written on this: only on a module, a trait or
/// an impl.
pub open spec fn applicable(ann: AnnotatableModel) -> bool {
    match ann {
        AnnotatableModel::Item(item) => item.node is Mod || item.node is Trait || item.node is Impl,
        _ => false,
    }
}

/// What becomes of `ann` when the query `meta` is written on it. A query
/// that gives its parts, written where it may be, is carried down from the
/// item as the root; in every other case nothing changes.
pub open spec fn expansion<'a>(meta: &MetaItem, ann: AnnotatableModel<'a>) -> AnnotatableModel<
    'a,
> {
    match query_parts(meta) {
        Some((selectors, attributes)) => match ann {
            AnnotatableModel::Item(item) => if applicable(ann) {
                AnnotatableModel::Item(expanded_item(item, selectors, attributes, true))
            } else {
                ann
            },
            _ => ann,
        },
        None => ann,
    }
}

/// What is reported when the query `meta`, found at `span`, is written on
/// `ann`: what is wrong with the query, or else that it is written where it
/// may not be.
pub open spec fn expansion_errors(span: Span, meta: &MetaItem, ann: AnnotatableModel) -> Seq<
    Diagnostic,
> {
    if query_parts(meta) is None {
        query_errors(meta)
    } else if applicable(ann) {
        Seq::empty()
    } else {
        seq![Diagnostic::NotApplicable { span }]
    }
}

/// Where anything is reported, nothing is changed.
pub proof fn lemma_reported_means_unchanged(span: Span, meta: &MetaItem, ann: AnnotatableModel)
    ensures
        expansion_errors(span, meta, ann).len() > 0 ==> expansion(meta, ann) == ann,
        expansion_errors(span, meta, ann).len() == 0 <==> query_parts(meta) is Some && applicable(
            ann,
        ),
{
    lemma_query_accepted_iff_silent(meta);
}

/// Whether a query may be written on this item.
pub fn is_applicable(item: &Item) -> (may: bool)
    ensures
        may == applicable(AnnotatableModel::Item(item@)),
{
    match &item.node {
        ItemKind::Mod(_) | ItemKind::Trait(_) | ItemKind::Impl(_) => true,
        _ => false,
    }
}

/// Applies the query `meta`, found at `span`, to what it is written on.
/// The query is read and checked first, then the place it is written at;
/// only if nothing is wrong with either is the batch carried down, from the
/// item as the root. Whatever is wrong is reported, and then nothing is
/// changed.
pub fn expand<'a>(
    span: Span,
    meta: &'a MetaItem,
    ann: Annotatable<'a>,
    diagnostics: &mut Vec<Diagnostic>,
) -> (expanded: Annotatable<'a>)
    ensures
        expanded@ == expansion(meta, ann@),
        final(diagnostics)@ == old(diagnostics)@ + expansion_errors(span, meta, ann@),
{
    match extract_meta(meta, diagnostics) {
        Some((selectors, attributes)) => {
            proof {
                lemma_query_accepted_iff_silent(meta);
                assert(query_errors(meta) =~= Seq::<Diagnostic>::empty());
            }
            match ann {
                Annotatable::Item(item) => {
                    if is_applicable(&item) {
                        Annotatable::Item(
                            expand_item(item, selectors.as_slice(), &attributes, true),
                        )
                    } else {
                        diagnostics.push(Diagnostic::NotApplicable { span });
                        Annotatable::Item(item)
                    }
                },
                other => {
                    diagnostics.push(Diagnostic::NotApplicable { span });
                    other
                },
            }
        },
        None => ann,
    }
}

} // verus!
