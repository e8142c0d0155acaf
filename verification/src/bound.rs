//! Triggers bound to one kind.
//!
//! Besides the query with its selectors, the host may offer one trigger for
//! each keyword, which takes a batch alone. Such a trigger does what a query
//! with that one bare keyword does: the item it is written on and what that
//! item holds get the batch where they are of the kind, and nothing further
//! down does.

use vstd::prelude::*;
use crate::attributes::{folded, Attributes, AttributesModel};
use crate::diagnostics::{Diagnostic, Site};
use crate::expand::{applicable, expand_item, expanded_item, is_applicable};
use crate::laws::{lemma_no_selectors_change_nothing, lemma_none_is_identity};
use crate::mask::{is_keyword, keyword_mask, map_selector_to_mask, ItemMask, ITEM_MEMBERS};
use crate::meta::{MetaItem, MetaItemKind, Span};
use crate::selector::{selectors_mask, sub_selectors};
use crate::tree::{
    impl_item_kind_mask,
    item_kind_mask,
    trait_item_kind_mask,
    Annotatable,
    AnnotatableModel,
    ImplItemModel,
    Item,
    ItemKind,
    ItemKindModel,
    ItemModel,
    TraitItemModel,
};

verus! {

/// The site that a trigger for the kinds `target` may not be written on,
/// if `node` is such a site: a trait or an impl, unless the kind is one
/// that their members can be of. A module holds items of every kind.
pub open spec fn refused_site(target: ItemMask, node: ItemKindModel) -> Option<Site> {
    if target.spec_intersects(ItemMask { bits: ITEM_MEMBERS }) {
        None
    } else {
        match node {
            ItemKindModel::Trait(_) => Some(Site::Traits),
            ItemKindModel::Impl(_) => Some(Site::Impls),
            _ => None,
        }
    }
}

/// An item that has got the batch if it is of one of the kinds `target`;
/// what it holds is as before.
pub open spec fn marked_item<'a>(
    item: ItemModel<'a>,
    target: ItemMask,
    attributes: AttributesModel<'a>,
) -> ItemModel<'a> {
    ItemModel {
        ident: item.ident,
        attrs: folded(item_kind_mask(item.node), target, item.attrs, attributes),
        node: item.node,
    }
}

/// A trait member that has got the batch if it is of one of the kinds
/// `target`.
pub open spec fn marked_trait_item<'a>(
    item: TraitItemModel<'a>,
    target: ItemMask,
    attributes: AttributesModel<'a>,
) -> TraitItemModel<'a> {
    TraitItemModel {
        ident: item.ident,
        attrs: folded(trait_item_kind_mask(item.node), target, item.attrs, attributes),
        node: item.node,
    }
}

/// An impl member that has got the batch if it is of one of the kinds
/// `target`.
pub open spec fn marked_impl_item<'a>(
    item: ImplItemModel<'a>,
    target: ItemMask,
    attributes: AttributesModel<'a>,
) -> ImplItemModel<'a> {
    ImplItemModel {
        ident: item.ident,
        attrs: folded(impl_item_kind_mask(item.node), target, item.attrs, attributes),
        node: item.node,
    }
}

/// What a bound trigger makes of the item it is written on: the item and
/// each thing it holds get the batch where they are of the kind; nothing
/// below them changes.
pub open spec fn bound_expansion<'a>(
    item: ItemModel<'a>,
    target: ItemMask,
    attributes: AttributesModel<'a>,
) -> ItemModel<'a> {
    ItemModel {
        ident: item.ident,
        attrs: folded(item_kind_mask(item.node), target, item.attrs, attributes),
        node: match item.node {
            ItemKindModel::Mod(items) => ItemKindModel::Mod(
                Seq::new(items.len(), |i: int| marked_item(items[i], target, attributes)),
            ),
            ItemKindModel::Trait(items) => ItemKindModel::Trait(
                Seq::new(items.len(), |i: int| marked_trait_item(items[i], target, attributes)),
            ),
            ItemKindModel::Impl(items) => ItemKindModel::Impl(
                Seq::new(items.len(), |i: int| marked_impl_item(items[i], target, attributes)),
            ),
            other => other,
        },
    }
}

/// What becomes of `ann` when a trigger bound to the kinds `target` is
/// written on it.
pub open spec fn bound_result<'a>(
    target: ItemMask,
    attributes: AttributesModel<'a>,
    ann: AnnotatableModel<'a>,
) -> AnnotatableModel<'a> {
    match ann {
        AnnotatableModel::Item(item) => if applicable(ann) && refused_site(target, item.node)
            is None {
            AnnotatableModel::Item(bound_expansion(item, target, attributes))
        } else {
            ann
        },
        _ => ann,
    }
}

/// What is reported when a trigger bound to the kinds `target`, found at
/// `span`, is written on `ann`.
pub open spec fn bound_errors(span: Span, target: ItemMask, ann: AnnotatableModel) -> Seq<
    Diagnostic,
> {
    match ann {
        AnnotatableModel::Item(item) => if !applicable(ann) {
            seq![Diagnostic::NotApplicable { span }]
        } else {
            match refused_site(target, item.node) {
                Some(site) => seq![Diagnostic::NotApplicableTo { span, site }],
                None => Seq::empty(),
            }
        },
        _ => seq![Diagnostic::NotApplicable { span }],
    }
}

/// Where a bound trigger reports anything, it changes nothing.
pub proof fn lemma_bound_reported_means_unchanged<'a>(
    span: Span,
    target: ItemMask,
    attributes: AttributesModel<'a>,
    ann: AnnotatableModel<'a>,
)
    ensures
        bound_errors(span, target, ann).len() > 0 ==> bound_result(target, attributes, ann)
            == ann,
{
}

/// A bound trigger does what a query with its one bare keyword does.
pub proof fn lemma_bound_is_one_keyword_query<'a>(
    item: ItemModel<'a>,
    selector: &MetaItem,
    attributes: AttributesModel<'a>,
)
    requires
        selector.node is Word,
    ensures
        expanded_item(item, seq![selector], attributes, true) == bound_expansion(
            item,
            keyword_mask(selector.name@),
            attributes,
        ),
{
    let selectors = seq![selector];
    let target = keyword_mask(selector.name@);
    let expanded = expanded_item(item, selectors, attributes, true);
    let bound = bound_expansion(item, target, attributes);
    assert(selectors.drop_last() == Seq::<&MetaItem>::empty());
    assert(selectors.drop_first() == Seq::<&MetaItem>::empty());
    lemma_none_is_identity(target);
    assert(selectors_mask(selectors) == target) by {
        reveal_with_fuel(selectors_mask, 2);
    }
    assert forall|mask: ItemMask| #[trigger]
        sub_selectors(selectors, mask) == Seq::<&MetaItem>::empty() by {
        reveal_with_fuel(sub_selectors, 2);
    }
    match item.node {
        ItemKindModel::Mod(items) => {
            assert forall|i: int| 0 <= i < items.len() implies expanded.node->Mod_0[i]
                == bound.node->Mod_0[i] by {
                let child = items[i];
                let below = sub_selectors(selectors, item_kind_mask(child.node));
                let got = expanded_item(child, selectors, attributes, false);
                match child.node {
                    ItemKindModel::Mod(inner) => {
                        assert forall|j: int| 0 <= j < inner.len() implies got.node->Mod_0[j]
                            == inner[j] by {
                            lemma_no_selectors_change_nothing(inner[j], attributes, false);
                        }
                        assert(got.node->Mod_0 =~= inner);
                    },
                    ItemKindModel::Trait(inner) => {
                        assert forall|j: int| 0 <= j < inner.len() implies got.node->Trait_0[j]
                            == inner[j] by {
                            lemma_none_is_identity(trait_item_kind_mask(inner[j].node));
                        }
                        assert(got.node->Trait_0 =~= inner);
                    },
                    ItemKindModel::Impl(inner) => {
                        assert forall|j: int| 0 <= j < inner.len() implies got.node->Impl_0[j]
                            == inner[j] by {
                            lemma_none_is_identity(impl_item_kind_mask(inner[j].node));
                        }
                        assert(got.node->Impl_0 =~= inner);
                    },
                    _ => {},
                }
            }
            assert(expanded.node->Mod_0 =~= bound.node->Mod_0);
        },
        ItemKindModel::Trait(items) => {
            assert(expanded.node->Trait_0 =~= bound.node->Trait_0);
        },
        ItemKindModel::Impl(items) => {
            assert(expanded.node->Impl_0 =~= bound.node->Impl_0);
        },
        _ => {},
    }
}

/// The site that a trigger for the kinds `target` may not be written on,
/// if `item` is such a site.
pub fn site_refused(target: ItemMask, item: &Item) -> (site: Option<Site>)
    ensures
        site == refused_site(target, item@.node),
{
    if target.intersects(ItemMask::from_bits(ITEM_MEMBERS)) {
        None
    } else {
        match &item.node {
            ItemKind::Trait(_) => Some(Site::Traits),
            ItemKind::Impl(_) => Some(Site::Impls),
            _ => None,
        }
    }
}

/// Applies the trigger bound to the keyword `target`, found at `span`, to
/// what it is written on, with the batch it was given. The place is checked
/// first: it must be a module, a trait or an impl, and one that can hold
/// things of that kind. What is wrong is reported, and then nothing is
/// changed.
pub fn expand_bound<'a>(
    span: Span,
    target: &str,
    attributes: &Attributes<'a>,
    ann: Annotatable<'a>,
    diagnostics: &mut Vec<Diagnostic>,
) -> (expanded: Annotatable<'a>)
    requires
        is_keyword(target@),
    ensures
        expanded@ == bound_result(keyword_mask(target@), attributes@, ann@),
        final(diagnostics)@ == old(diagnostics)@ + bound_errors(
            span,
            keyword_mask(target@),
            ann@,
        ),
{
    match ann {
        Annotatable::Item(item) => {
            if !is_applicable(&item) {
                diagnostics.push(Diagnostic::NotApplicable { span });
                Annotatable::Item(item)
            } else {
                match site_refused(map_selector_to_mask(target), &item) {
                    Some(site) => {
                        diagnostics.push(Diagnostic::NotApplicableTo { span, site });
                        Annotatable::Item(item)
                    },
                    None => {
                        let selector = MetaItem {
                            name: String::from_str(target),
                            node: MetaItemKind::Word,
                            span,
                        };
                        let mut selectors: Vec<&MetaItem> = Vec::new();
                        selectors.push(&selector);
                        proof {
                            assert(selectors@ == seq![&selector]);
                            lemma_bound_is_one_keyword_query(item@, &selector, attributes@);
                        }
                        Annotatable::Item(
                            expand_item(item, selectors.as_slice(), attributes, true),
                        )
                    },
                }
            }
        },
        other => {
            diagnostics.push(Diagnostic::NotApplicable { span });
            other
        },
    }
}

} // verus!
