//! What holds of every query, every batch and every tree.

use vstd::prelude::*;
use crate::attributes::{folded, Attribute, AttributesModel};
use crate::expand::{
    expanded_impl_item,
    expanded_item,
    expanded_trait_item,
    forwarded_selectors,
};
use crate::mask::{keyword_mask, ItemMask};
use crate::meta::{meta_items_of, MetaItem};
use crate::selector::{narrows, selector_mask, selectors_mask};
use crate::tree::{
    impl_item_kind_mask,
    item_kind_mask,
    trait_item_kind_mask,
    ItemKindModel,
    ItemModel,
};

verus! {

/// The empty mask is the identity of union and has nothing in common with
/// any mask.
pub proof fn lemma_none_is_identity(mask: ItemMask)
    ensures
        mask.spec_union(ItemMask::spec_none()) == mask,
        ItemMask::spec_none().spec_union(mask) == mask,
        !mask.spec_intersects(ItemMask::spec_none()),
        !ItemMask::spec_none().spec_intersects(mask),
{
    let bits = mask.bits;
    assert(bits | 0 == bits && 0 | bits == bits && bits & 0 == 0 && 0 & bits == 0u16)
        by (bit_vector);
}

/// A mask has a kind in common with a union exactly when it has one in
/// common with either side.
pub proof fn lemma_intersects_union(mask: ItemMask, left: ItemMask, right: ItemMask)
    ensures
        left.spec_union(right).spec_intersects(mask) <==> left.spec_intersects(mask)
            || right.spec_intersects(mask),
{
    let m = mask.bits;
    let l = left.bits;
    let r = right.bits;
    assert(((l | r) & m != 0) <==> (l & m != 0 || r & m != 0)) by (bit_vector);
}

/// A default batch comes before what the item had and an override after
/// it; either way both lists are there in full and in their own order.
pub proof fn lemma_augmented_keeps_both<'a>(
    attributes: AttributesModel<'a>,
    existing: Seq<Attribute<'a>>,
)
    ensures
        attributes is Default ==> attributes.augmented(existing) == attributes.entries()
            + existing,
        attributes is Override ==> attributes.augmented(existing) == existing
            + attributes.entries(),
        attributes.augmented(existing).len() == attributes.entries().len() + existing.len(),
        attributes is Default ==> attributes.augmented(existing).subrange(
            0,
            attributes.entries().len() as int,
        ) == attributes.entries() && attributes.augmented(existing).subrange(
            attributes.entries().len() as int,
            attributes.augmented(existing).len() as int,
        ) == existing,
        attributes is Override ==> attributes.augmented(existing).subrange(
            0,
            existing.len() as int,
        ) == existing && attributes.augmented(existing).subrange(
            existing.len() as int,
            attributes.augmented(existing).len() as int,
        ) == attributes.entries(),
{
}

/// A list of selectors selects a kind exactly when one of its bare
/// keywords names it.
pub proof fn lemma_selected_iff_named(selectors: Seq<&MetaItem>, mask: ItemMask)
    ensures
        selectors_mask(selectors).spec_intersects(mask) <==> exists|i: int|
            0 <= i < selectors.len() && (#[trigger] selector_mask(selectors[i])).spec_intersects(
                mask,
            ),
    decreases selectors.len(),
{
    if selectors.len() == 0 {
        lemma_none_is_identity(mask);
    } else {
        let front = selectors.drop_last();
        lemma_selected_iff_named(front, mask);
        lemma_intersects_union(mask, selectors_mask(front), selector_mask(selectors.last()));
        if selectors_mask(selectors).spec_intersects(mask) {
            if selectors_mask(front).spec_intersects(mask) {
                let i = choose|i: int|
                    0 <= i < front.len() && (#[trigger] selector_mask(front[i])).spec_intersects(
                        mask,
                    );
                assert(selector_mask(selectors[i]).spec_intersects(mask));
            } else {
                assert(selector_mask(selectors[selectors.len() - 1]).spec_intersects(mask));
            }
        }
        if exists|i: int|
            0 <= i < selectors.len() && (#[trigger] selector_mask(selectors[i])).spec_intersects(
                mask,
            ) {
            let i = choose|i: int|
                0 <= i < selectors.len() && (#[trigger] selector_mask(
                    selectors[i],
                )).spec_intersects(mask);
            if i < front.len() {
                assert(selector_mask(front[i]).spec_intersects(mask));
            }
        }
    }
}

/// Below the root, an item of kind `mask` hands on the selectors nested in
/// the first selector that narrows to its kind, whatever comes after it in
/// the list.
pub proof fn lemma_first_narrowing_selector_wins(
    selectors: Seq<&MetaItem>,
    mask: ItemMask,
    first: int,
)
    requires
        0 <= first < selectors.len(),
        narrows(selectors[first], mask),
        forall|i: int| 0 <= i < first ==> !narrows(#[trigger] selectors[i], mask),
    ensures
        forwarded_selectors(selectors, mask, false) == meta_items_of(
            selectors[first].entries(),
        ),
    decreases first,
{
    if first > 0 {
        assert(!narrows(selectors[0], mask));
        let rest = selectors.drop_first();
        assert forall|i: int| 0 <= i < first - 1 implies !narrows(#[trigger] rest[i], mask) by {
            assert(!narrows(selectors[i + 1], mask));
        }
        lemma_first_narrowing_selector_wins(rest, mask, first - 1);
    }
}

/// Below the root, an item hands on nothing where no selector narrows to
/// its kind: the batch goes no further down.
pub proof fn lemma_nothing_forwarded_without_narrowing(selectors: Seq<&MetaItem>, mask: ItemMask)
    requires
        forall|i: int| 0 <= i < selectors.len() ==> !narrows(#[trigger] selectors[i], mask),
    ensures
        forwarded_selectors(selectors, mask, false) == Seq::<&MetaItem>::empty(),
    decreases selectors.len(),
{
    if selectors.len() > 0 {
        assert(!narrows(selectors[0], mask));
        let rest = selectors.drop_first();
        assert forall|i: int| 0 <= i < rest.len() implies !narrows(#[trigger] rest[i], mask) by {
            assert(!narrows(selectors[i + 1], mask));
        }
        lemma_nothing_forwarded_without_narrowing(rest, mask);
    }
}

/// The root hands all of its selectors to everything it holds: each item
/// of a root module, and each member of a root trait or impl, gets the
/// batch exactly when its kind is among those that the whole list selects.
pub proof fn lemma_root_forwards_all<'a>(
    root: ItemModel<'a>,
    selectors: Seq<&MetaItem>,
    attributes: AttributesModel<'a>,
)
    ensures
        forwarded_selectors(selectors, item_kind_mask(root.node), true) == selectors,
        match root.node {
            ItemKindModel::Mod(items) => {
                let expanded = expanded_item(root, selectors, attributes, true).node->Mod_0;
                &&& expanded_item(root, selectors, attributes, true).node is Mod
                &&& expanded.len() == items.len()
                &&& forall|i: int|
                    0 <= i < items.len() ==> {
                        &&& #[trigger] expanded[i] == expanded_item(
                            items[i],
                            selectors,
                            attributes,
                            false,
                        )
                        &&& expanded[i].attrs == folded(
                            item_kind_mask(items[i].node),
                            selectors_mask(selectors),
                            items[i].attrs,
                            attributes,
                        )
                    }
            },
            ItemKindModel::Trait(items) => {
                let expanded = expanded_item(root, selectors, attributes, true).node->Trait_0;
                &&& expanded_item(root, selectors, attributes, true).node is Trait
                &&& expanded.len() == items.len()
                &&& forall|i: int|
                    0 <= i < items.len() ==> {
                        &&& #[trigger] expanded[i] == expanded_trait_item(
                            items[i],
                            selectors,
                            attributes,
                        )
                        &&& expanded[i].attrs == folded(
                            trait_item_kind_mask(items[i].node),
                            selectors_mask(selectors),
                            items[i].attrs,
                            attributes,
                        )
                    }
            },
            ItemKindModel::Impl(items) => {
                let expanded = expanded_item(root, selectors, attributes, true).node->Impl_0;
                &&& expanded_item(root, selectors, attributes, true).node is Impl
                &&& expanded.len() == items.len()
                &&& forall|i: int|
                    0 <= i < items.len() ==> {
                        &&& #[trigger] expanded[i] == expanded_impl_item(
                            items[i],
                            selectors,
                            attributes,
                        )
                        &&& expanded[i].attrs == folded(
                            impl_item_kind_mask(items[i].node),
                            selectors_mask(selectors),
                            items[i].attrs,
                            attributes,
                        )
                    }
            },
            other => expanded_item(root, selectors, attributes, true).node == other,
        },
{
}

/// With no selectors nothing is selected and nothing handed on: the tree
/// stays as it is.
pub proof fn lemma_no_selectors_change_nothing<'a>(
    item: ItemModel<'a>,
    attributes: AttributesModel<'a>,
    is_root: bool,
)
    ensures
        expanded_item(item, Seq::empty(), attributes, is_root) == item,
    decreases item,
{
    let none = Seq::<&MetaItem>::empty();
    let expanded = expanded_item(item, none, attributes, is_root);
    lemma_none_is_identity(item_kind_mask(item.node));
    assert(forwarded_selectors(none, item_kind_mask(item.node), is_root) == none);
    match item.node {
        ItemKindModel::Mod(items) => {
            assert forall|i: int| 0 <= i < items.len() implies expanded.node->Mod_0[i]
                == items[i] by {
                lemma_no_selectors_change_nothing(items[i], attributes, false);
            }
            assert(expanded.node->Mod_0 =~= items);
        },
        ItemKindModel::Trait(items) => {
            assert forall|i: int| 0 <= i < items.len() implies expanded.node->Trait_0[i]
                == items[i] by {
                lemma_none_is_identity(trait_item_kind_mask(items[i].node));
            }
            assert(expanded.node->Trait_0 =~= items);
        },
        ItemKindModel::Impl(items) => {
            assert forall|i: int| 0 <= i < items.len() implies expanded.node->Impl_0[i]
                == items[i] by {
                lemma_none_is_identity(impl_item_kind_mask(items[i].node));
            }
            assert(expanded.node->Impl_0 =~= items);
        },
        _ => {},
    }
}

/// Carrying a batch down changes attributes only: every item keeps its
/// name and its kind, and holds as many things as before.
pub proof fn lemma_expansion_keeps_shape<'a>(
    item: ItemModel<'a>,
    selectors: Seq<&MetaItem>,
    attributes: AttributesModel<'a>,
    is_root: bool,
)
    ensures
        expanded_item(item, selectors, attributes, is_root).ident == item.ident,
        item_kind_mask(expanded_item(item, selectors, attributes, is_root).node)
            == item_kind_mask(item.node),
        match item.node {
            ItemKindModel::Mod(items) => expanded_item(
                item,
                selectors,
                attributes,
                is_root,
            ).node->Mod_0.len() == items.len(),
            ItemKindModel::Trait(items) => expanded_item(
                item,
                selectors,
                attributes,
                is_root,
            ).node->Trait_0.len() == items.len(),
            ItemKindModel::Impl(items) => expanded_item(
                item,
                selectors,
                attributes,
                is_root,
            ).node->Impl_0.len() == items.len(),
            other => expanded_item(item, selectors, attributes, is_root).node == other,
        },
{
}

/// A bare keyword in the list selects its kind, and a keyword with a
/// nested list selects nothing by itself.
pub proof fn lemma_nested_selector_selects_nothing(selector: &MetaItem, mask: ItemMask)
    requires
        !(selector.node is Word),
    ensures
        !selector_mask(selector).spec_intersects(mask),
        selector.node is List ==> (narrows(selector, mask) <==> mask.spec_intersects(
            keyword_mask(selector.name@),
        )),
{
    lemma_none_is_identity(mask);
}

} // verus!
