//! Attributes and the two ways of adding a batch of them to an item.

use vstd::prelude::*;
use crate::mask::ItemMask;
use crate::meta::{MetaItem, Span};

verus! {

/// Whether an attribute stands before its item or inside it.
#[derive(Clone, Copy, Debug, PartialEq, Eq, Structural)]
pub enum AttrStyle {
    Outer,
    Inner,
}

/// An attribute of an item. It is a small handle: what the attribute says
/// is borrowed, so that giving one attribute to many items copies no
/// meta item. The library never looks inside.
#[derive(Clone, Copy, Debug, PartialEq, Eq)]
pub struct Attribute<'a> {
    /// The number the host knows the attribute by; `None` for one that a
    /// query has made and the host has not numbered yet.
    pub id: Option<usize>,
    pub style: AttrStyle,
    pub value: &'a MetaItem,
    pub is_sugared_doc: bool,
    pub span: Span,
}

/// A batch of attributes, with the place it takes among the attributes an
/// item already has.
#[derive(Clone, Debug, PartialEq, Eq)]
pub enum Attributes<'a> {
    /// The batch goes first: where later attributes win, the item's own
    /// prevail.
    Default(Vec<Attribute<'a>>),
    /// The batch goes last: where later attributes win, the batch prevails.
    Override(Vec<Attribute<'a>>),
}

/// A batch as a value: its attributes in order, and its place.
pub ghost enum AttributesModel<'a> {
    Default(Seq<Attribute<'a>>),
    Override(Seq<Attribute<'a>>),
}

impl<'a> AttributesModel<'a> {
    /// The attributes of the batch, in their order.
    pub open spec fn entries(self) -> Seq<Attribute<'a>> {
        match self {
            AttributesModel::Default(attrs) => attrs,
            AttributesModel::Override(attrs) => attrs,
        }
    }

    /// What an item has once the batch is added to `existing`.
    pub open spec fn augmented(self, existing: Seq<Attribute<'a>>) -> Seq<Attribute<'a>> {
        match self {
            AttributesModel::Default(attrs) => attrs + existing,
            AttributesModel::Override(attrs) => existing + attrs,
        }
    }
}

impl<'a> View for Attributes<'a> {
    type V = AttributesModel<'a>;

    open spec fn view(&self) -> AttributesModel<'a> {
        match self {
            Attributes::Default(attrs) => AttributesModel::Default(attrs@),
            Attributes::Override(attrs) => AttributesModel::Override(attrs@),
        }
    }
}

impl<'a> Attributes<'a> {
    /// Adds the batch to the attributes an item already has: before them
    /// for a default, after them for an override. Both lists keep their
    /// order and nothing is dropped.
    pub fn augment(&self, existing: &[Attribute<'a>]) -> (expanded_attrs: Vec<Attribute<'a>>)
        ensures
            expanded_attrs@ == self@.augmented(existing@),
    {
        let mut expanded_attrs: Vec<Attribute<'a>> = Vec::new();
        match self {
            Attributes::Default(attrs) => {
                append_copies(&mut expanded_attrs, attrs.as_slice());
                append_copies(&mut expanded_attrs, existing);
            },
            Attributes::Override(attrs) => {
                append_copies(&mut expanded_attrs, existing);
                append_copies(&mut expanded_attrs, attrs.as_slice());
            },
        }
        expanded_attrs
    }
}

/// Appends a copy of each attribute of `source` to `target`, in order.
pub fn append_copies<'a>(target: &mut Vec<Attribute<'a>>, source: &[Attribute<'a>])
    ensures
        final(target)@ == old(target)@ + source@,
{
    let mut i: usize = 0;
    while i < source.len()
        invariant
            i <= source.len(),
            target@ == old(target)@ + source@.take(i as int),
        decreases source.len() - i,
    {
        target.push(source[i]);
        i = i + 1;
    }
    proof {
        assert(source@.take(source.len() as int) == source@);
    }
}

/// What an item has after a batch has passed it: the batch is added where
/// the item's kind is among the selected kinds, and nowhere else.
pub open spec fn folded<'a>(
    item_mask: ItemMask,
    selector_mask: ItemMask,
    item_attributes: Seq<Attribute<'a>>,
    attributes: AttributesModel<'a>,
) -> Seq<Attribute<'a>> {
    if selector_mask.spec_intersects(item_mask) {
        attributes.augmented(item_attributes)
    } else {
        item_attributes
    }
}

/// Gives an item of kind `item_mask` the batch if its kind is selected, and
/// its own attributes unchanged if not.
pub fn fold_attributes<'a>(
    item_mask: ItemMask,
    selector_mask: ItemMask,
    item_attributes: &[Attribute<'a>],
    attributes: &Attributes<'a>,
) -> (folded_attrs: Vec<Attribute<'a>>)
    ensures
        folded_attrs@ == folded(item_mask, selector_mask, item_attributes@, attributes@),
{
    if selector_mask.intersects(item_mask) {
        attributes.augment(item_attributes)
    } else {
        let mut kept: Vec<Attribute<'a>> = Vec::new();
        append_copies(&mut kept, item_attributes);
        kept
    }
}

} // verus!
