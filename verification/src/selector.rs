//! Selectors: the meta items that name the kinds a query applies to.
//!
//! A bare keyword selects the items of one kind. A keyword with a nested
//! list selects nothing by itself: it names the kind of item whose members
//! the nested selectors apply to.

use vstd::prelude::*;
use crate::diagnostics::Diagnostic;
use crate::mask::{
    is_keyword,
    is_nesting_keyword,
    is_nesting_selector_keyword,
    is_selector_keyword,
    keyword_mask,
    map_selector_to_mask,
    ItemMask,
};
use crate::meta::{
    collect_meta_items,
    meta_items_of,
    MetaItem,
    MetaItemKind,
    NestedMetaItem,
    NestedMetaItemKind,
};

verus! {

/// A selector is a meta item read as one.
pub type Selector = MetaItem;

/// Whether a selector is well formed: a bare keyword, or one of the nesting
/// keywords with a list of well-formed selectors. A name-value pair never
/// is, nor a list that holds a literal.
pub open spec fn selector_valid(selector: &MetaItem) -> bool
    decreases selector,
{
    match selector.node {
        MetaItemKind::Word => is_keyword(selector.name@),
        MetaItemKind::List(entries) => is_nesting_keyword(selector.name@) && forall|i: int|
            0 <= i < entries.len() ==> match (#[trigger] entries[i]).node {
                NestedMetaItemKind::MetaItem(item) => selector_valid(&item),
                NestedMetaItemKind::Literal(_) => false,
            },
        MetaItemKind::NameValue(_) => false,
    }
}

/// What is reported of a selector: its own fault first, then those of its
/// nested selectors, each in full and in list order.
pub open spec fn selector_errors(selector: &MetaItem) -> Seq<Diagnostic>
    decreases selector, 0nat,
{
    match selector.node {
        MetaItemKind::Word => if is_keyword(selector.name@) {
            Seq::empty()
        } else {
            seq![Diagnostic::UnrecognizedSelector { span: selector.span, name: selector.name }]
        },
        MetaItemKind::List(entries) => (if is_nesting_keyword(selector.name@) {
            Seq::empty()
        } else {
            seq![
                Diagnostic::UnrecognizedNestedSelector {
                    span: selector.span,
                    name: selector.name,
                },
            ]
        }) + entries_errors(entries@, entries@.len()),
        MetaItemKind::NameValue(_) => seq![
            Diagnostic::UnexpectedNameValue { span: selector.span, name: selector.name },
        ],
    }
}

/// What is reported of the first `n` entries of a nested list. A literal
/// makes the list unusable, and nothing is said of it.
pub open spec fn entries_errors(entries: Seq<NestedMetaItem>, n: nat) -> Seq<Diagnostic>
    decreases entries, n,
{
    if n == 0 || n > entries.len() {
        Seq::empty()
    } else {
        entries_errors(entries, (n - 1) as nat) + match entries[n - 1].node {
            NestedMetaItemKind::MetaItem(item) => selector_errors(&item),
            NestedMetaItemKind::Literal(_) => Seq::empty(),
        }
    }
}

/// Whether every selector of a list is well formed.
pub open spec fn selectors_valid(selectors: Seq<&MetaItem>) -> bool {
    forall|i: int| 0 <= i < selectors.len() ==> selector_valid(#[trigger] selectors[i])
}

/// What is reported of a list of selectors: of each what is reported of it
/// alone, in list order.
pub open spec fn selectors_errors(selectors: Seq<&MetaItem>) -> Seq<Diagnostic>
    decreases selectors.len(),
{
    if selectors.len() == 0 {
        Seq::empty()
    } else {
        selectors_errors(selectors.drop_last()) + selector_errors(selectors.last())
    }
}

impl MetaItem {
    /// Checks a selector against the vocabulary and reports every fault in
    /// it, those of nested selectors included: a fault found does not stop
    /// the check.
    pub fn validate(&self, diagnostics: &mut Vec<Diagnostic>) -> (valid: bool)
        ensures
            valid == selector_valid(self),
            final(diagnostics)@ == old(diagnostics)@ + selector_errors(self),
        decreases self,
    {
        match &self.node {
            MetaItemKind::List(sub_selectors) => {
                let valid_item = is_nesting_selector_keyword(self.name.as_str());
                if !valid_item {
                    diagnostics.push(
                        Diagnostic::UnrecognizedNestedSelector {
                            span: self.span,
                            name: self.name.clone(),
                        },
                    );
                }
                let ghost own = diagnostics@;
                let mut valid_sub_selectors = true;
                let mut i: usize = 0;
                while i < sub_selectors.len()
                    invariant
                        i <= sub_selectors.len(),
                        self.node == MetaItemKind::List(*sub_selectors),
                        diagnostics@ == own + entries_errors(sub_selectors@, i as nat),
                        valid_sub_selectors == forall|j: int|
                            0 <= j < i ==> match (#[trigger] sub_selectors[j]).node {
                                NestedMetaItemKind::MetaItem(item) => selector_valid(&item),
                                NestedMetaItemKind::Literal(_) => false,
                            },
                    decreases sub_selectors.len() - i,
                {
                    match &sub_selectors[i].node {
                        NestedMetaItemKind::MetaItem(item) => {
                            proof {
                                assert(decreases_to!(self.node => self.node->List_0));
                                assert(decreases_to!(sub_selectors => sub_selectors[i as int]));
                            }
                            let valid_entry = item.validate(diagnostics);
                            valid_sub_selectors = valid_sub_selectors && valid_entry;
                        },
                        NestedMetaItemKind::Literal(_) => {
                            valid_sub_selectors = false;
                        },
                    }
                    i = i + 1;
                }
                valid_item && valid_sub_selectors
            },
            MetaItemKind::Word => {
                if is_selector_keyword(self.name.as_str()) {
                    true
                } else {
                    diagnostics.push(
                        Diagnostic::UnrecognizedSelector {
                            span: self.span,
                            name: self.name.clone(),
                        },
                    );
                    false
                }
            },
            MetaItemKind::NameValue(_) => {
                diagnostics.push(
                    Diagnostic::UnexpectedNameValue { span: self.span, name: self.name.clone() },
                );
                false
            },
        }
    }
}

/// A well-formed selector is checked in silence: nothing is reported of it.
pub proof fn lemma_valid_selector_reports_nothing(selector: &MetaItem)
    requires
        selector_valid(selector),
    ensures
        selector_errors(selector) == Seq::<Diagnostic>::empty(),
    decreases selector, selector.entries().len() + 1,
{
    match selector.node {
        MetaItemKind::List(entries) => {
            lemma_valid_entries_report_nothing(selector, entries@.len());
        },
        _ => {},
    }
}

/// The first `n` nested selectors of a well-formed selector are checked in
/// silence.
pub proof fn lemma_valid_entries_report_nothing(selector: &MetaItem, n: nat)
    requires
        selector_valid(selector),
        n <= selector.entries().len(),
    ensures
        entries_errors(selector.entries(), n) == Seq::<Diagnostic>::empty(),
    decreases selector, n,
{
    if n > 0 {
        let entries = selector.node->List_0;
        lemma_valid_entries_report_nothing(selector, (n - 1) as nat);
        let entry = entries[n - 1];
        assert(decreases_to!(selector.node => selector.node->List_0));
        assert(decreases_to!(entries => entries[n - 1]));
        match entry.node {
            NestedMetaItemKind::MetaItem(item) => {
                lemma_valid_selector_reports_nothing(&item);
            },
            NestedMetaItemKind::Literal(_) => {},
        }
    }
}

/// Checking a list of well-formed selectors reports nothing, however often
/// it is done: what is reported depends on the selectors alone.
pub proof fn lemma_valid_selectors_report_nothing(selectors: Seq<&MetaItem>)
    requires
        selectors_valid(selectors),
    ensures
        selectors_errors(selectors) == Seq::<Diagnostic>::empty(),
    decreases selectors.len(),
{
    if selectors.len() > 0 {
        assert forall|i: int| 0 <= i < selectors.drop_last().len() implies selector_valid(
            #[trigger] selectors.drop_last()[i],
        ) by {
            assert(selector_valid(selectors[i]));
        }
        lemma_valid_selectors_report_nothing(selectors.drop_last());
        assert(selector_valid(selectors[selectors.len() - 1]));
        lemma_valid_selector_reports_nothing(selectors.last());
    }
}

/// Checks every selector of a list, reporting each fault of each: a faulty
/// selector does not keep the later ones from being checked.
pub fn validate_all(selectors: &[&Selector], diagnostics: &mut Vec<Diagnostic>) -> (valid: bool)
    ensures
        valid == selectors_valid(selectors@),
        final(diagnostics)@ == old(diagnostics)@ + selectors_errors(selectors@),
{
    let ghost before = diagnostics@;
    let mut valid = true;
    let mut i: usize = 0;
    while i < selectors.len()
        invariant
            i <= selectors.len(),
            valid == selectors_valid(selectors@.take(i as int)),
            diagnostics@ == before + selectors_errors(selectors@.take(i as int)),
        decreases selectors.len() - i,
    {
        proof {
            assert(selectors@.take(i + 1).drop_last() == selectors@.take(i as int));
            assert(selectors@.take(i + 1).last() == selectors@[i as int]);
            assert(selectors_valid(selectors@.take(i + 1)) == (selectors_valid(
                selectors@.take(i as int),
            ) && selector_valid(selectors@[i as int]))) by {
                if selectors_valid(selectors@.take(i + 1)) {
                    assert(selector_valid(selectors@.take(i + 1)[i as int]));
                    assert forall|j: int| 0 <= j < i implies selector_valid(
                        #[trigger] selectors@.take(i as int)[j],
                    ) by {
                        assert(selector_valid(selectors@.take(i + 1)[j]));
                    }
                }
            }
        }
        let valid_entry = selectors[i].validate(diagnostics);
        valid = valid && valid_entry;
        i = i + 1;
    }
    proof {
        assert(selectors@.take(selectors.len() as int) == selectors@);
    }
    valid
}

/// The kind that a selector selects: that of its keyword for a bare word,
/// none for any other form.
pub open spec fn selector_mask(selector: &MetaItem) -> ItemMask {
    match selector.node {
        MetaItemKind::Word => keyword_mask(selector.name@),
        _ => ItemMask::spec_none(),
    }
}

/// The kinds that a list of selectors selects: those of its bare keywords.
pub open spec fn selectors_mask(selectors: Seq<&MetaItem>) -> ItemMask
    decreases selectors.len(),
{
    if selectors.len() == 0 {
        ItemMask::spec_none()
    } else {
        selectors_mask(selectors.drop_last()).spec_union(selector_mask(selectors.last()))
    }
}

/// Gathers the kinds that the bare keywords of a list select.
pub fn extract_mask_from_selectors(selectors: &[&Selector]) -> (mask: ItemMask)
    ensures
        mask == selectors_mask(selectors@),
{
    let mut mask = ItemMask::none();
    let mut i: usize = 0;
    while i < selectors.len()
        invariant
            i <= selectors.len(),
            mask == selectors_mask(selectors@.take(i as int)),
        decreases selectors.len() - i,
    {
        proof {
            assert(selectors@.take(i + 1).drop_last() == selectors@.take(i as int));
        }
        let selector = selectors[i];
        let own = match &selector.node {
            MetaItemKind::Word => map_selector_to_mask(selector.name.as_str()),
            _ => ItemMask::none(),
        };
        mask = mask.union(own);
        i = i + 1;
    }
    proof {
        assert(selectors@.take(selectors.len() as int) == selectors@);
    }
    mask
}

/// Whether a selector says what applies to the members of an item of kind
/// `mask`: it has a nested list, and its keyword names that kind.
pub open spec fn narrows(selector: &MetaItem, mask: ItemMask) -> bool {
    selector.node is List && mask.spec_intersects(keyword_mask(selector.name@))
}

/// The selectors for the members of an item of kind `mask`: those nested in
/// the first selector of the list that narrows to that kind, and none where
/// no selector does.
pub open spec fn sub_selectors<'a>(selectors: Seq<&'a MetaItem>, mask: ItemMask) -> Seq<
    &'a MetaItem,
>
    decreases selectors.len(),
{
    if selectors.len() == 0 {
        Seq::empty()
    } else if narrows(selectors.first(), mask) {
        meta_items_of(selectors.first().entries())
    } else {
        sub_selectors(selectors.drop_first(), mask)
    }
}

/// Finds the selectors for the members of an item of kind `mask`.
pub fn extract_sub_selectors<'a>(selectors: &[&'a Selector], mask: ItemMask) -> (subs: Vec<
    &'a Selector,
>)
    ensures
        subs@ == sub_selectors(selectors@, mask),
{
    let mut i: usize = 0;
    proof {
        assert(selectors@.skip(0) == selectors@);
    }
    while i < selectors.len()
        invariant
            i <= selectors.len(),
            sub_selectors(selectors@, mask) == sub_selectors(selectors@.skip(i as int), mask),
        decreases selectors.len() - i,
    {
        proof {
            assert(selectors@.skip(i as int).drop_first() == selectors@.skip(i + 1));
        }
        let selector = selectors[i];
        if let MetaItemKind::List(entries) = &selector.node {
            if mask.intersects(map_selector_to_mask(selector.name.as_str())) {
                return collect_meta_items(entries);
            }
        }
        i = i + 1;
    }
    Vec::new()
}

} // verus!
