//! The two kinds of failure: while synthesizing, and while finalizing a builder.

use vstd::prelude::*;
use vstd::string::StringExecFns;
use crate::text::joined;

verus! {

/// Why a finalization did not produce a record.
#[derive(Debug, PartialEq, Eq)]
pub enum BuildError {
    /// A required field was never set; the payload is the field's name.
    MissingDependency(String),
}

/// The model of a [`BuildError`].
pub enum BuildErrorView {
    MissingDependency(Seq<char>),
}

impl DeepView for BuildError {
    type V = BuildErrorView;

    open spec fn deep_view(&self) -> BuildErrorView {
        match self {
            BuildError::MissingDependency(field) => BuildErrorView::MissingDependency(field@),
        }
    }
}

impl BuildError {
    /// The error as a sentence: `Missing dependency: ` and the field's name.
    pub fn message(&self) -> (text: String)
        ensures
            self matches BuildError::MissingDependency(field) && text@ == "Missing dependency: "@
                + field@,
    {
        match self {
            BuildError::MissingDependency(field) => joined("Missing dependency: ", field.as_str()),
        }
    }
}

/// Why a synthesis pass was abandoned. No code is emitted in any of these cases.
#[derive(Debug, PartialEq, Eq)]
pub enum SynthesisError {
    /// The annotated item is an enum or a union.
    NotAStruct,
    /// The annotated struct has positional fields, or none at all and no braces.
    UnnamedFields,
    /// A `builder` annotation on the type itself is malformed.
    MalformedStructAttribute,
    /// A `builder` annotation on the named field is malformed.
    MalformedFieldAttribute(String),
    /// The default expression of the named field is no sequence of tokens.
    InvalidDefaultExpression(String),
}

/// The model of a [`SynthesisError`].
pub enum SynthesisErrorView {
    NotAStruct,
    UnnamedFields,
    MalformedStructAttribute,
    MalformedFieldAttribute(Seq<char>),
    InvalidDefaultExpression(Seq<char>),
}

impl DeepView for SynthesisError {
    type V = SynthesisErrorView;

    open spec fn deep_view(&self) -> SynthesisErrorView {
        match self {
            SynthesisError::NotAStruct => SynthesisErrorView::NotAStruct,
            SynthesisError::UnnamedFields => SynthesisErrorView::UnnamedFields,
            SynthesisError::MalformedStructAttribute => SynthesisErrorView::MalformedStructAttribute,
            SynthesisError::MalformedFieldAttribute(field) => {
                SynthesisErrorView::MalformedFieldAttribute(field@)
            },
            SynthesisError::InvalidDefaultExpression(field) => {
                SynthesisErrorView::InvalidDefaultExpression(field@)
            },
        }
    }
}

impl SynthesisErrorView {
    /// The diagnostic that goes with the error.
    pub open spec fn message(self) -> Seq<char> {
        match self {
            SynthesisErrorView::NotAStruct => "Only structs are supported"@,
            SynthesisErrorView::UnnamedFields => "Only named fields are supported"@,
            SynthesisErrorView::MalformedStructAttribute => {
                "Malformed builder attribute on the struct"@
            },
            SynthesisErrorView::MalformedFieldAttribute(field) => {
                "Malformed builder attribute on field "@ + field
            },
            SynthesisErrorView::InvalidDefaultExpression(field) => {
                "Invalid default expression on field "@ + field
            },
        }
    }
}

impl SynthesisError {
    /// The diagnostic to hand to the host compiler; it names the offending
    /// field where there is one.
    pub fn message(&self) -> (text: String)
        ensures
            text@ == self.deep_view().message(),
    {
        match self {
            SynthesisError::NotAStruct => String::from_str("Only structs are supported"),
            SynthesisError::UnnamedFields => String::from_str("Only named fields are supported"),
            SynthesisError::MalformedStructAttribute => {
                String::from_str("Malformed builder attribute on the struct")
            },
            SynthesisError::MalformedFieldAttribute(field) => {
                joined("Malformed builder attribute on field ", field.as_str())
            },
            SynthesisError::InvalidDefaultExpression(field) => {
                joined("Invalid default expression on field ", field.as_str())
            },
        }
    }
}

} // verus!
