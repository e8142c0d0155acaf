//! Attribute propagation over a tree of items.
//!
//! A query names the kinds of items that are to receive a batch of
//! attributes, and whether the batch goes before or after the attributes an
//! item already has. Written on a module, a trait or an impl, it is carried
//! down the tree: to the item itself, to what the item holds, and further
//! down only where a nested selector says so.
//!
//! The library works on plain values. The host hands it the query as a meta
//! item and the tree as items with their attributes, and gets back the tree
//! with the attributes in place, and a list of what was wrong if anything
//! was. Nothing is changed where anything is reported.

pub mod attributes;
pub mod bound;
pub mod diagnostics;
pub mod expand;
pub mod laws;
pub mod mask;
pub mod meta;
pub mod query;
pub mod selector;
pub mod tree;
