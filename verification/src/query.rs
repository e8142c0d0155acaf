//! Queries: `to(<selectors>), as_default(<attributes>)` and
//! `to(<selectors>), as_override(<attributes>)`.

use vstd::prelude::*;
use crate::attributes::{AttrStyle, Attribute, Attributes, AttributesModel};
use crate::diagnostics::Diagnostic;
use crate::meta::{
    collect_meta_items,
    meta_items_of,
    MetaItem,
    MetaItemKind,
    NestedMetaItem,
    NestedMetaItemKind,
    Span,
};
use crate::selector::{
    lemma_valid_selectors_report_nothing,
    selectors_errors,
    selectors_valid,
    validate_all,
    Selector,
};

verus! {

/// The entries of `meta` if it is a list of the given name.
pub open spec fn named_list(meta: &NestedMetaItem, name: Seq<char>) -> Option<
    Seq<NestedMetaItem>,
> {
    match meta.node {
        NestedMetaItemKind::MetaItem(item) => if item.name@ == name && item.node is List {
            Some(item.entries())
        } else {
            None
        },
        NestedMetaItemKind::Literal(_) => None,
    }
}

/// The attribute that a query makes of a meta item found at `span`: an
/// outer attribute that the host has not numbered yet.
pub open spec fn attribute_of<'a>(span: Span, value: &'a MetaItem) -> Attribute<'a> {
    Attribute { id: None, style: AttrStyle::Outer, value, is_sugared_doc: false, span }
}

/// The attributes that a query makes of the entries of its second part:
/// one of each meta item, in order. Literals are left out.
pub open spec fn attributes_of<'a>(entries: Seq<NestedMetaItem>) -> Seq<Attribute<'a>>
    decreases entries.len(),
{
    if entries.len() == 0 {
        Seq::empty()
    } else {
        let rest = attributes_of(entries.drop_last());
        match entries.last().node {
            NestedMetaItemKind::MetaItem(item) => rest.push(
                attribute_of(entries.last().span, &item),
            ),
            NestedMetaItemKind::Literal(_) => rest,
        }
    }
}

/// The selectors that the first part of a query gives: the meta items of a
/// list named `to`, if each of them is well formed.
pub open spec fn query_selectors<'a>(meta: &NestedMetaItem) -> Option<Seq<&'a MetaItem>> {
    match named_list(meta, "to"@) {
        Some(entries) => if selectors_valid(meta_items_of(entries)) {
            Some(meta_items_of(entries))
        } else {
            None
        },
        None => None,
    }
}

/// What is reported of the first part of a query: of a list named `to`,
/// what is reported of its selectors; of anything else, that a `to` was
/// expected.
pub open spec fn query_selectors_errors(meta: &NestedMetaItem) -> Seq<Diagnostic> {
    match named_list(meta, "to"@) {
        Some(entries) => selectors_errors(meta_items_of(entries)),
        None => seq![Diagnostic::ExpectedTo { span: meta.span }],
    }
}

/// The batch that the second part of a query gives: a default for a list
/// named `as_default`, an override for one named `as_override`.
pub open spec fn query_attributes<'a>(meta: &NestedMetaItem) -> Option<AttributesModel<'a>> {
    match named_list(meta, "as_default"@) {
        Some(entries) => Some(AttributesModel::Default(attributes_of(entries))),
        None => match named_list(meta, "as_override"@) {
            Some(entries) => Some(AttributesModel::Override(attributes_of(entries))),
            None => None,
        },
    }
}

/// What is reported of the second part of a query.
pub open spec fn query_attributes_errors(meta: &NestedMetaItem) -> Seq<Diagnostic> {
    if query_attributes(meta) is Some {
        Seq::empty()
    } else {
        seq![Diagnostic::ExpectedMode { span: meta.span }]
    }
}

/// Whether a meta item has the shape of a query: a list of two parts.
pub open spec fn query_shaped(meta: &MetaItem) -> bool {
    meta.spec_is_list() && meta.entries().len() == 2
}

/// The selectors and the batch of a query, where both of its parts give
/// theirs.
pub open spec fn query_parts<'a>(meta: &MetaItem) -> Option<
    (Seq<&'a MetaItem>, AttributesModel<'a>),
> {
    if query_shaped(meta) {
        match (query_selectors(&meta.entries()[0]), query_attributes(&meta.entries()[1])) {
            (Some(selectors), Some(attributes)) => Some((selectors, attributes)),
            _ => None,
        }
    } else {
        None
    }
}

/// Whether a query of two parts is at fault as a whole: its first part is
/// not a list named `to`, or its second is neither of the two lists that
/// give a batch, or its selectors are rejected with nothing to report of
/// them. A query whose only faults are those reported of its selectors is
/// not.
pub open spec fn query_malformed(first: &NestedMetaItem, second: &NestedMetaItem) -> bool {
    match named_list(first, "to"@) {
        Some(entries) => {
            let selectors = meta_items_of(entries);
            ||| query_attributes(second) is None
            ||| !selectors_valid(selectors) && selectors_errors(selectors).len() == 0
        },
        None => true,
    }
}

/// What is reported of a query. Of one that is not a list of two parts,
/// that a query was expected. Of a list of two parts, what is reported of
/// its first part, then what is reported of its second, and last, where
/// the query is at fault as a whole, that a query was expected.
pub open spec fn query_errors(meta: &MetaItem) -> Seq<Diagnostic> {
    if query_shaped(meta) {
        let first = &meta.entries()[0];
        let second = &meta.entries()[1];
        query_selectors_errors(first) + query_attributes_errors(second) + if query_malformed(
            first,
            second,
        ) {
            seq![Diagnostic::ExpectedQuery { span: meta.span }]
        } else {
            Seq::empty()
        }
    } else {
        seq![Diagnostic::ExpectedQuery { span: meta.span }]
    }
}

/// A query gives its parts exactly when nothing is reported of it.
pub proof fn lemma_query_accepted_iff_silent(meta: &MetaItem)
    ensures
        query_parts(meta) is Some <==> query_errors(meta).len() == 0,
{
    if query_shaped(meta) {
        let first = &meta.entries()[0];
        match named_list(first, "to"@) {
            Some(entries) => {
                if selectors_valid(meta_items_of(entries)) {
                    lemma_valid_selectors_report_nothing(meta_items_of(entries));
                }
            },
            None => {},
        }
    }
}

/// Where a query does not give its parts, the last thing reported of it is
/// that a query was expected, at the place of the query, unless a fault
/// was reported of one of its selectors and both parts are lists of the
/// right names.
pub proof fn lemma_rejected_query_is_reported(meta: &MetaItem)
    requires
        query_parts(meta) is None,
    ensures
        query_errors(meta).len() > 0,
        !query_shaped(meta) || query_malformed(&meta.entries()[0], &meta.entries()[1])
            ==> query_errors(meta).last() == (Diagnostic::ExpectedQuery { span: meta.span }),
        query_shaped(meta) && !query_malformed(&meta.entries()[0], &meta.entries()[1])
            ==> query_errors(meta) == selectors_errors(
            meta_items_of(named_list(&meta.entries()[0], "to"@)->Some_0),
        ),
{
    lemma_query_accepted_iff_silent(meta);
}

/// Whether `meta` is a list of the given name.
pub fn is_list_named(meta: &NestedMetaItem, name: &str) -> (named: bool)
    ensures
        named == (named_list(meta, name@) is Some),
{
    match &meta.node {
        NestedMetaItemKind::MetaItem(item) => match &item.node {
            MetaItemKind::List(_) => meta.check_name(name),
            _ => false,
        },
        NestedMetaItemKind::Literal(_) => false,
    }
}

/// Makes the attributes of a batch out of the entries of a list.
pub fn collect_attributes<'a>(entries: &'a Vec<NestedMetaItem>) -> (attributes: Vec<
    Attribute<'a>,
>)
    ensures
        attributes@ == attributes_of(entries@),
{
    let mut attributes: Vec<Attribute<'a>> = Vec::new();
    let mut i: usize = 0;
    while i < entries.len()
        invariant
            i <= entries.len(),
            attributes@ == attributes_of(entries@.take(i as int)),
        decreases entries.len() - i,
    {
        proof {
            assert(entries@.take(i + 1).drop_last() == entries@.take(i as int));
        }
        let entry = &entries[i];
        match &entry.node {
            NestedMetaItemKind::MetaItem(item) => {
                attributes.push(
                    Attribute {
                        id: None,
                        style: AttrStyle::Outer,
                        value: item,
                        is_sugared_doc: false,
                        span: entry.span,
                    },
                );
            },
            NestedMetaItemKind::Literal(_) => {},
        }
        i = i + 1;
    }
    proof {
        assert(entries@.take(entries.len() as int) == entries@);
    }
    attributes
}

/// Reads the selectors off the first part of a query and checks each of
/// them. Gives them if the part is a list named `to` and every selector in
/// it is well formed. Of a part that is no such list it reports that a
/// `to` was expected; of a list named `to` it reports what is wrong with
/// its selectors, which may be nothing: a literal in a nested list is
/// rejected in silence.
pub fn extract_selectors<'a>(meta: &'a NestedMetaItem, diagnostics: &mut Vec<Diagnostic>) -> (selectors:
    Option<Vec<&'a Selector>>)
    ensures
        match selectors {
            Some(found) => query_selectors(meta) == Some(found@),
            None => query_selectors(meta) is None,
        },
        final(diagnostics)@ == old(diagnostics)@ + query_selectors_errors(meta),
{
    if let NestedMetaItemKind::MetaItem(item) = &meta.node {
        if let MetaItemKind::List(entries) = &item.node {
            if meta.check_name("to") {
                let selector_items = collect_meta_items(entries);
                if validate_all(selector_items.as_slice(), diagnostics) {
                    return Some(selector_items);
                } else {
                    return None;
                }
            }
        }
    }
    diagnostics.push(Diagnostic::ExpectedTo { span: meta.span });
    None
}

/// Reads the batch off the second part of a query: a default from a list
/// named `as_default`, an override from one named `as_override`. Anything
/// else is reported and gives nothing.
pub fn extract_attributes<'a>(meta: &'a NestedMetaItem, diagnostics: &mut Vec<Diagnostic>) -> (attributes:
    Option<Attributes<'a>>)
    ensures
        match attributes {
            Some(found) => query_attributes(meta) == Some(found@),
            None => query_attributes(meta) is None,
        },
        final(diagnostics)@ == old(diagnostics)@ + query_attributes_errors(meta),
{
    if let NestedMetaItemKind::MetaItem(item) = &meta.node {
        if let MetaItemKind::List(entries) = &item.node {
            if meta.check_name("as_default") {
                return Some(Attributes::Default(collect_attributes(entries)));
            } else if meta.check_name("as_override") {
                return Some(Attributes::Override(collect_attributes(entries)));
            }
        }
    }
    diagnostics.push(Diagnostic::ExpectedMode { span: meta.span });
    None
}

/// Reads a query: its selectors and its batch. Both parts are read, so
/// that what is wrong with either is reported; the query gives its parts
/// only if both give theirs. Where it does not, that a query was expected
/// is reported after all else, at the place of the query, unless all that
/// is wrong are faults reported of its selectors.
pub fn extract_meta<'a>(meta: &'a MetaItem, diagnostics: &mut Vec<Diagnostic>) -> (parts: Option<
    (Vec<&'a Selector>, Attributes<'a>),
>)
    ensures
        match parts {
            Some((selectors, attributes)) => query_parts(meta) == Some((selectors@, attributes@)),
            None => query_parts(meta) is None,
        },
        final(diagnostics)@ == old(diagnostics)@ + query_errors(meta),
{
    let ghost before = diagnostics@;
    if let MetaItemKind::List(entries) = &meta.node {
        if entries.len() == 2 {
            let reported = diagnostics.len();
            let selectors = extract_selectors(&entries[0], diagnostics);
            let silent = diagnostics.len() == reported;
            let attributes = extract_attributes(&entries[1], diagnostics);
            let malformed = !is_list_named(&entries[0], "to") || attributes.is_none() || (
            selectors.is_none() && silent);
            proof {
                let first = &meta.entries()[0];
                let second = &meta.entries()[1];
                if named_list(first, "to"@) is Some {
                    let found = meta_items_of(named_list(first, "to"@)->Some_0);
                    if selectors_valid(found) {
                        lemma_valid_selectors_report_nothing(found);
                    }
                }
                assert(silent == (query_selectors_errors(first).len() == 0));
                assert(malformed == query_malformed(first, second));
                assert(diagnostics@ == before + (query_selectors_errors(first)
                    + query_attributes_errors(second)));
            }
            if malformed {
                diagnostics.push(Diagnostic::ExpectedQuery { span: meta.span });
            }
            proof {
                assert(diagnostics@ == before + query_errors(meta));
            }
            return match (selectors, attributes) {
                (Some(selectors), Some(attributes)) => Some((selectors, attributes)),
                _ => None,
            };
        }
    }
    diagnostics.push(Diagnostic::ExpectedQuery { span: meta.span });
    None
}

} // verus!
