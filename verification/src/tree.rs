//! The tree that attributes are carried down: items, and the members of
//! traits and impls.

use vstd::prelude::*;
use crate::attributes::Attribute;
use crate::mask::{
    ItemMask,
    ITEM_CONST,
    ITEM_DEF_IMPL,
    ITEM_ENUM,
    ITEM_EXT_CRATE,
    ITEM_FGN_MOD,
    ITEM_FN,
    ITEM_IMPL,
    ITEM_MAC,
    ITEM_MOD,
    ITEM_STATIC,
    ITEM_STRUCT,
    ITEM_TRAIT,
    ITEM_TY,
    ITEM_UNION,
    ITEM_USE,
};

verus! {

/// What a member of a trait is.
#[derive(Clone, Copy, Debug, PartialEq, Eq, Structural)]
pub enum TraitItemKind {
    Const,
    Method,
    Type,
    Macro,
}

/// A member of a trait.
#[derive(Debug, PartialEq, Eq)]
pub struct TraitItem<'a> {
    pub ident: String,
    pub attrs: Vec<Attribute<'a>>,
    pub node: TraitItemKind,
}

/// What a member of an impl is.
#[derive(Clone, Copy, Debug, PartialEq, Eq, Structural)]
pub enum ImplItemKind {
    Const,
    Method,
    Type,
    Macro,
}

/// A member of an impl.
#[derive(Debug, PartialEq, Eq)]
pub struct ImplItem<'a> {
    pub ident: String,
    pub attrs: Vec<Attribute<'a>>,
    pub node: ImplItemKind,
}

/// What an item is. A module holds items, a trait and an impl hold members;
/// no other kind holds anything that attributes are carried to.
#[derive(Debug, PartialEq, Eq)]
pub enum ItemKind<'a> {
    ExternCrate,
    Use,
    Static,
    Const,
    Fn,
    Mod(Vec<Item<'a>>),
    ForeignMod,
    Ty,
    Enum,
    Struct,
    Union,
    Trait(Vec<TraitItem<'a>>),
    DefaultImpl,
    Impl(Vec<ImplItem<'a>>),
    Mac,
}

/// An item: its name, its attributes in order, and what it is.
#[derive(Debug, PartialEq, Eq)]
pub struct Item<'a> {
    pub ident: String,
    pub attrs: Vec<Attribute<'a>>,
    pub node: ItemKind<'a>,
}

/// What a query can be written on.
#[derive(Debug, PartialEq, Eq)]
pub enum Annotatable<'a> {
    Item(Item<'a>),
    TraitItem(TraitItem<'a>),
    ImplItem(ImplItem<'a>),
}

/// A trait member as a value: its name, its attributes in order, its kind.
pub ghost struct TraitItemModel<'a> {
    pub ident: Seq<char>,
    pub attrs: Seq<Attribute<'a>>,
    pub node: TraitItemKind,
}

/// An impl member as a value.
pub ghost struct ImplItemModel<'a> {
    pub ident: Seq<char>,
    pub attrs: Seq<Attribute<'a>>,
    pub node: ImplItemKind,
}

/// What an item is, as a value.
pub ghost enum ItemKindModel<'a> {
    ExternCrate,
    Use,
    Static,
    Const,
    Fn,
    Mod(Seq<ItemModel<'a>>),
    ForeignMod,
    Ty,
    Enum,
    Struct,
    Union,
    Trait(Seq<TraitItemModel<'a>>),
    DefaultImpl,
    Impl(Seq<ImplItemModel<'a>>),
    Mac,
}

/// An item as a value: its name, its attributes in order, and its kind with
/// what it holds.
pub ghost struct ItemModel<'a> {
    pub ident: Seq<char>,
    pub attrs: Seq<Attribute<'a>>,
    pub node: ItemKindModel<'a>,
}

/// What a query can be written on, as a value.
pub ghost enum AnnotatableModel<'a> {
    Item(ItemModel<'a>),
    TraitItem(TraitItemModel<'a>),
    ImplItem(ImplItemModel<'a>),
}

impl<'a> View for Annotatable<'a> {
    type V = AnnotatableModel<'a>;

    open spec fn view(&self) -> AnnotatableModel<'a> {
        match self {
            Annotatable::Item(item) => AnnotatableModel::Item(item@),
            Annotatable::TraitItem(item) => AnnotatableModel::TraitItem(item@),
            Annotatable::ImplItem(item) => AnnotatableModel::ImplItem(item@),
        }
    }
}

impl<'a> View for TraitItem<'a> {
    type V = TraitItemModel<'a>;

    open spec fn view(&self) -> TraitItemModel<'a> {
        TraitItemModel { ident: self.ident@, attrs: self.attrs@, node: self.node }
    }
}

impl<'a> View for ImplItem<'a> {
    type V = ImplItemModel<'a>;

    open spec fn view(&self) -> ImplItemModel<'a> {
        ImplItemModel { ident: self.ident@, attrs: self.attrs@, node: self.node }
    }
}

impl<'a> View for Item<'a> {
    type V = ItemModel<'a>;

    open spec fn view(&self) -> ItemModel<'a> {
        item_model(*self)
    }
}

/// An item as a value, with all that it holds.
pub open spec fn item_model<'a>(item: Item<'a>) -> ItemModel<'a>
    decreases item,
{
    ItemModel {
        ident: item.ident@,
        attrs: item.attrs@,
        node: match item.node {
            ItemKind::ExternCrate => ItemKindModel::ExternCrate,
            ItemKind::Use => ItemKindModel::Use,
            ItemKind::Static => ItemKindModel::Static,
            ItemKind::Const => ItemKindModel::Const,
            ItemKind::Fn => ItemKindModel::Fn,
            ItemKind::Mod(items) => ItemKindModel::Mod(
                Seq::new(
                    items.len() as nat,
                    |i: int|
                        if 0 <= i < items.len() {
                            item_model(items[i])
                        } else {
                            arbitrary()
                        },
                ),
            ),
            ItemKind::ForeignMod => ItemKindModel::ForeignMod,
            ItemKind::Ty => ItemKindModel::Ty,
            ItemKind::Enum => ItemKindModel::Enum,
            ItemKind::Struct => ItemKindModel::Struct,
            ItemKind::Union => ItemKindModel::Union,
            ItemKind::Trait(items) => ItemKindModel::Trait(trait_items_view(items@)),
            ItemKind::DefaultImpl => ItemKindModel::DefaultImpl,
            ItemKind::Impl(items) => ItemKindModel::Impl(impl_items_view(items@)),
            ItemKind::Mac => ItemKindModel::Mac,
        },
    }
}

/// The members of a trait as values, in order.
pub open spec fn trait_items_view<'a>(items: Seq<TraitItem<'a>>) -> Seq<TraitItemModel<'a>> {
    Seq::new(items.len(), |i: int| items[i]@)
}

/// The members of an impl as values, in order.
pub open spec fn impl_items_view<'a>(items: Seq<ImplItem<'a>>) -> Seq<ImplItemModel<'a>> {
    Seq::new(items.len(), |i: int| items[i]@)
}

/// The mask of the one kind that an item is of.
pub open spec fn item_kind_mask(node: ItemKindModel) -> ItemMask {
    ItemMask {
        bits: match node {
            ItemKindModel::ExternCrate => ITEM_EXT_CRATE,
            ItemKindModel::Use => ITEM_USE,
            ItemKindModel::Static => ITEM_STATIC,
            ItemKindModel::Const => ITEM_CONST,
            ItemKindModel::Fn => ITEM_FN,
            ItemKindModel::Mod(_) => ITEM_MOD,
            ItemKindModel::ForeignMod => ITEM_FGN_MOD,
            ItemKindModel::Ty => ITEM_TY,
            ItemKindModel::Enum => ITEM_ENUM,
            ItemKindModel::Struct => ITEM_STRUCT,
            ItemKindModel::Union => ITEM_UNION,
            ItemKindModel::Trait(_) => ITEM_TRAIT,
            ItemKindModel::DefaultImpl => ITEM_DEF_IMPL,
            ItemKindModel::Impl(_) => ITEM_IMPL,
            ItemKindModel::Mac => ITEM_MAC,
        },
    }
}

/// The mask of the one kind that a trait member is of. Members share the
/// kinds of the items they resemble.
pub open spec fn trait_item_kind_mask(node: TraitItemKind) -> ItemMask {
    ItemMask {
        bits: match node {
            TraitItemKind::Const => ITEM_CONST,
            TraitItemKind::Method => ITEM_FN,
            TraitItemKind::Type => ITEM_TY,
            TraitItemKind::Macro => ITEM_MAC,
        },
    }
}

/// The mask of the one kind that an impl member is of.
pub open spec fn impl_item_kind_mask(node: ImplItemKind) -> ItemMask {
    ItemMask {
        bits: match node {
            ImplItemKind::Const => ITEM_CONST,
            ImplItemKind::Method => ITEM_FN,
            ImplItemKind::Type => ITEM_TY,
            ImplItemKind::Macro => ITEM_MAC,
        },
    }
}

/// Maps an item to the mask of its kind.
pub fn map_item_to_mask(item: &Item) -> (mask: ItemMask)
    ensures
        mask == item_kind_mask(item@.node),
{
    let bits: u16 = match &item.node {
        ItemKind::ExternCrate => ITEM_EXT_CRATE,
        ItemKind::Use => ITEM_USE,
        ItemKind::Static => ITEM_STATIC,
        ItemKind::Const => ITEM_CONST,
        ItemKind::Fn => ITEM_FN,
        ItemKind::Mod(_) => ITEM_MOD,
        ItemKind::ForeignMod => ITEM_FGN_MOD,
        ItemKind::Ty => ITEM_TY,
        ItemKind::Enum => ITEM_ENUM,
        ItemKind::Struct => ITEM_STRUCT,
        ItemKind::Union => ITEM_UNION,
        ItemKind::Trait(_) => ITEM_TRAIT,
        ItemKind::DefaultImpl => ITEM_DEF_IMPL,
        ItemKind::Impl(_) => ITEM_IMPL,
        ItemKind::Mac => ITEM_MAC,
    };
    ItemMask { bits }
}

/// Maps a trait member to the mask of its kind.
pub fn map_trait_item_to_mask(item: &TraitItem) -> (mask: ItemMask)
    ensures
        mask == trait_item_kind_mask(item@.node),
{
    let bits: u16 = match item.node {
        TraitItemKind::Const => ITEM_CONST,
        TraitItemKind::Method => ITEM_FN,
        TraitItemKind::Type => ITEM_TY,
        TraitItemKind::Macro => ITEM_MAC,
    };
    ItemMask { bits }
}

/// Maps an impl member to the mask of its kind.
pub fn map_impl_item_to_mask(item: &ImplItem) -> (mask: ItemMask)
    ensures
        mask == impl_item_kind_mask(item@.node),
{
    let bits: u16 = match item.node {
        ImplItemKind::Const => ITEM_CONST,
        ImplItemKind::Method => ITEM_FN,
        ImplItemKind::Type => ITEM_TY,
        ImplItemKind::Macro => ITEM_MAC,
    };
    ItemMask { bits }
}

} // verus!
