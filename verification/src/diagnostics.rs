//! What the library reports of a query or of the place it is applied at.

use vstd::prelude::*;
use crate::meta::Span;

verus! {

/// The three kinds of item that a query can be written on.
#[derive(Clone, Copy, Debug, PartialEq, Eq, Structural)]
pub enum Site {
    Mods,
    Traits,
    Impls,
}

/// One thing that is wrong, with the place it is wrong at. The host shows
/// it; the library only says what and where.
#[derive(Clone, Debug, PartialEq, Eq)]
pub enum Diagnostic {
    /// A bare selector that is no keyword.
    UnrecognizedSelector { span: Span, name: String },
    /// A selector with a nested list whose name is not one of the keywords
    /// that may carry one.
    UnrecognizedNestedSelector { span: Span, name: String },
    /// A selector written as a name-value pair.
    UnexpectedNameValue { span: Span, name: String },
    /// A query that is not a list of two parts.
    ExpectedQuery { span: Span },
    /// A first part that is not a usable `to(...)`.
    ExpectedTo { span: Span },
    /// A second part that is neither `as_default(...)` nor
    /// `as_override(...)`.
    ExpectedMode { span: Span },
    /// A query applied to an item that is no module, trait or impl.
    NotApplicable { span: Span },
    /// A trigger bound to one kind, written on a module, trait or impl that
    /// holds nothing of that kind.
    NotApplicableTo { span: Span, site: Site },
}

impl Diagnostic {
    /// Where the diagnostic points.
    pub open spec fn spec_span(&self) -> Span {
        match self {
            Diagnostic::UnrecognizedSelector { span, .. } => *span,
            Diagnostic::UnrecognizedNestedSelector { span, .. } => *span,
            Diagnostic::UnexpectedNameValue { span, .. } => *span,
            Diagnostic::ExpectedQuery { span } => *span,
            Diagnostic::ExpectedTo { span } => *span,
            Diagnostic::ExpectedMode { span } => *span,
            Diagnostic::NotApplicable { span } => *span,
            Diagnostic::NotApplicableTo { span, .. } => *span,
        }
    }

    /// The text of the diagnostic.
    pub open spec fn spec_message(&self) -> Seq<char> {
        match self {
            Diagnostic::UnrecognizedSelector { name, .. } => "unrecognized selector `"@ + name@
                + "`"@,
            Diagnostic::UnrecognizedNestedSelector { name, .. } => "unrecognized selector `"@
                + name@ + "(...)`"@,
            Diagnostic::UnexpectedNameValue { name, .. } => "unexpected name value pair `"@ + name@
                + " = ...`"@,
            Diagnostic::ExpectedQuery { .. } =>
                "Expected 'apply_attr(to(...), as_default|as_override(...))'."@,
            Diagnostic::ExpectedTo { .. } => "Expected `to(...)`."@,
            Diagnostic::ExpectedMode { .. } => "Expected `as_default(...)` or `as_override(...)`."@,
            Diagnostic::NotApplicable { .. } =>
                "Only applicable to `mod`, `trait` or `impl` items."@,
            Diagnostic::NotApplicableTo { site, .. } => match site {
                Site::Mods => "Attribute not applicable to mods."@,
                Site::Traits => "Attribute not applicable to traits."@,
                Site::Impls => "Attribute not applicable to impls."@,
            },
        }
    }

    /// Where the diagnostic points.
    #[verifier::when_used_as_spec(spec_span)]
    pub fn span(&self) -> (span: Span)
        ensures
            span == self.spec_span(),
    {
        match self {
            Diagnostic::UnrecognizedSelector { span, .. } => *span,
            Diagnostic::UnrecognizedNestedSelector { span, .. } => *span,
            Diagnostic::UnexpectedNameValue { span, .. } => *span,
            Diagnostic::ExpectedQuery { span } => *span,
            Diagnostic::ExpectedTo { span } => *span,
            Diagnostic::ExpectedMode { span } => *span,
            Diagnostic::NotApplicable { span } => *span,
            Diagnostic::NotApplicableTo { span, .. } => *span,
        }
    }

    /// The text of the diagnostic.
    pub fn message(&self) -> (text: String)
        ensures
            text@ == self.spec_message(),
    {
        match self {
            Diagnostic::UnrecognizedSelector { name, .. } => String::from_str(
                "unrecognized selector `",
            ).concat(name.as_str()).concat("`"),
            Diagnostic::UnrecognizedNestedSelector { name, .. } => String::from_str(
                "unrecognized selector `",
            ).concat(name.as_str()).concat("(...)`"),
            Diagnostic::UnexpectedNameValue { name, .. } => String::from_str(
                "unexpected name value pair `",
            ).concat(name.as_str()).concat(" = ...`"),
            Diagnostic::ExpectedQuery { .. } => String::from_str(
                "Expected 'apply_attr(to(...), as_default|as_override(...))'.",
            ),
            Diagnostic::ExpectedTo { .. } => String::from_str("Expected `to(...)`."),
            Diagnostic::ExpectedMode { .. } => String::from_str(
                "Expected `as_default(...)` or `as_override(...)`.",
            ),
            Diagnostic::NotApplicable { .. } => String::from_str(
                "Only applicable to `mod`, `trait` or `impl` items.",
            ),
            Diagnostic::NotApplicableTo { site, .. } => match site {
                Site::Mods => String::from_str("Attribute not applicable to mods."),
                Site::Traits => String::from_str("Attribute not applicable to traits."),
                Site::Impls => String::from_str("Attribute not applicable to impls."),
            },
        }
    }
}

} // verus!
