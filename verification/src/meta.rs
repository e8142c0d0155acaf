//! Meta items: the words, lists and name-value pairs that queries and
//! attributes are written in.

use vstd::prelude::*;

verus! {

/// A stretch of source text, by the offsets of its two ends.
#[derive(Clone, Copy, Debug, PartialEq, Eq, Structural)]
pub struct Span {
    pub lo: u32,
    pub hi: u32,
}

/// A literal, kept as the text it was written with.
#[derive(Clone, Debug, PartialEq, Eq)]
pub struct Lit {
    pub text: String,
    pub span: Span,
}

/// The three forms of a meta item.
#[derive(Debug, PartialEq, Eq)]
pub enum MetaItemKind {
    /// A bare word, as in `structs`.
    Word,
    /// A word with a list in brackets, as in `mods(structs, enums)`.
    List(Vec<NestedMetaItem>),
    /// A word with a value, as in `feature = "nightly"`.
    NameValue(Lit),
}

/// A named word, list or name-value pair, with the place it was found at.
#[derive(Debug, PartialEq, Eq)]
pub struct MetaItem {
    pub name: String,
    pub node: MetaItemKind,
    pub span: Span,
}

/// What an entry of a list can be.
#[derive(Debug, PartialEq, Eq)]
pub enum NestedMetaItemKind {
    MetaItem(MetaItem),
    Literal(Lit),
}

/// An entry of a list: a meta item or a literal.
#[derive(Debug, PartialEq, Eq)]
pub struct NestedMetaItem {
    pub node: NestedMetaItemKind,
    pub span: Span,
}

impl MetaItem {
    /// Whether this is a list, whatever its name.
    pub open spec fn spec_is_list(&self) -> bool {
        self.node is List
    }

    /// The entries of a list; none for a word or a name-value pair.
    pub open spec fn entries(&self) -> Seq<NestedMetaItem> {
        match self.node {
            MetaItemKind::List(entries) => entries@,
            _ => Seq::empty(),
        }
    }
}

impl NestedMetaItem {
    /// Whether this entry is a meta item of the given name.
    pub open spec fn spec_check_name(&self, name: Seq<char>) -> bool {
        match self.node {
            NestedMetaItemKind::MetaItem(item) => item.name@ == name,
            NestedMetaItemKind::Literal(_) => false,
        }
    }

    /// Whether this entry is a meta item of the given name.
    #[verifier::when_used_as_spec(spec_check_name_str)]
    pub fn check_name(&self, name: &str) -> (named: bool)
        ensures
            named == self.spec_check_name(name@),
    {
        match &self.node {
            NestedMetaItemKind::MetaItem(item) => crate::mask::same_text(item.name.as_str(), name),
            NestedMetaItemKind::Literal(_) => false,
        }
    }

    pub open spec fn spec_check_name_str(&self, name: &str) -> bool {
        self.spec_check_name(name@)
    }
}

/// The meta items among the entries of a list, in their order; literals are
/// left out.
pub open spec fn meta_items_of<'a>(entries: Seq<NestedMetaItem>) -> Seq<&'a MetaItem>
    decreases entries.len(),
{
    if entries.len() == 0 {
        Seq::empty()
    } else {
        let rest = meta_items_of(entries.drop_last());
        match entries.last().node {
            NestedMetaItemKind::MetaItem(item) => rest.push(&item),
            NestedMetaItemKind::Literal(_) => rest,
        }
    }
}

/// Collects the meta items among the entries of a list, in their order.
pub fn collect_meta_items<'a>(entries: &'a Vec<NestedMetaItem>) -> (items: Vec<&'a MetaItem>)
    ensures
        items@ == meta_items_of(entries@),
{
    let mut items: Vec<&'a MetaItem> = Vec::new();
    let mut i: usize = 0;
    while i < entries.len()
        invariant
            i <= entries.len(),
            items@ == meta_items_of(entries@.take(i as int)),
        decreases entries.len() - i,
    {
        proof {
            assert(entries@.take(i + 1).drop_last() == entries@.take(i as int));
        }
        match &entries[i].node {
            NestedMetaItemKind::MetaItem(item) => {
                items.push(item);
            },
            NestedMetaItemKind::Literal(_) => {},
        }
        i = i + 1;
    }
    proof {
        assert(entries@.take(entries.len() as int) == entries@);
    }
    items
}

} // verus!
