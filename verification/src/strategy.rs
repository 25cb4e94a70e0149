//! The finalization strategy resolver.
//!
//! For every field and for each of the two finalization operations, one of a
//! few strategies says where the field's value comes from. The rules are
//! tried in a fixed order and the first that applies decides:
//!
//! 1. a field that takes no part in the builder is always filled with its
//!    type's default value;
//! 2. a required field must have been set;
//! 3. a field with a declared default falls back to it;
//! 4. what is left was marked optional and falls back to the empty optional.

use vstd::prelude::*;
use crate::field_attributes::{
    DefaultStrategy,
    DefaultStrategyView,
    FieldAttributes,
    FieldAttributesView,
};

verus! {

/// The two finalization operations of a builder.
#[derive(Clone, Copy, Debug, PartialEq, Eq, Structural)]
pub enum Finalization {
    /// `build()`.
    Strict,
    /// `build_with_defaults()`.
    Defaulting,
}

/// Where a finalization takes one field's value from.
#[derive(Debug, PartialEq, Eq)]
pub enum Strategy {
    /// The value that was set; finalization fails if there is none.
    RequireOrError,
    /// The value that was set, else the type's default value.
    TraitDefaultIfAbsent,
    /// The value that was set, else the value of the expression.
    ExpressionIfAbsent(String),
    /// The value that was set, else the empty optional.
    EmptyOptionalIfAbsent,
    /// The type's default value; the builder has no slot for the field.
    AlwaysTraitDefault,
}

/// The model of a [`Strategy`].
pub enum StrategyView {
    RequireOrError,
    TraitDefaultIfAbsent,
    ExpressionIfAbsent(Seq<char>),
    EmptyOptionalIfAbsent,
    AlwaysTraitDefault,
}

impl DeepView for Strategy {
    type V = StrategyView;

    open spec fn deep_view(&self) -> StrategyView {
        match self {
            Strategy::RequireOrError => StrategyView::RequireOrError,
            Strategy::TraitDefaultIfAbsent => StrategyView::TraitDefaultIfAbsent,
            Strategy::ExpressionIfAbsent(source) => StrategyView::ExpressionIfAbsent(source@),
            Strategy::EmptyOptionalIfAbsent => StrategyView::EmptyOptionalIfAbsent,
            Strategy::AlwaysTraitDefault => StrategyView::AlwaysTraitDefault,
        }
    }
}

/// The strategy of a field under one finalization operation.
///
/// The operation does not enter into it: a field without a default stays
/// mandatory under `build_with_defaults()` too.
pub open spec fn resolution(attrs: FieldAttributesView, op: Finalization) -> StrategyView {
    if !attrs.builder {
        StrategyView::AlwaysTraitDefault
    } else if attrs.required {
        StrategyView::RequireOrError
    } else {
        match attrs.default {
            DefaultStrategyView::TraitDefault => StrategyView::TraitDefaultIfAbsent,
            DefaultStrategyView::Expression(source) => StrategyView::ExpressionIfAbsent(source),
            DefaultStrategyView::Unset => StrategyView::EmptyOptionalIfAbsent,
        }
    }
}

/// Resolves the strategy of a field under one finalization operation.
pub fn resolve(attrs: &FieldAttributes, op: Finalization) -> (strategy: Strategy)
    ensures
        strategy.deep_view() == resolution(attrs.deep_view(), op),
{
    if !attrs.builder {
        Strategy::AlwaysTraitDefault
    } else if attrs.required {
        Strategy::RequireOrError
    } else {
        match &attrs.default {
            DefaultStrategy::TraitDefault => Strategy::TraitDefaultIfAbsent,
            DefaultStrategy::Expression(source) => Strategy::ExpressionIfAbsent(source.clone()),
            DefaultStrategy::Unset => Strategy::EmptyOptionalIfAbsent,
        }
    }
}

/// Both finalization operations resolve every field alike.
pub proof fn lemma_finalizations_agree(attrs: FieldAttributesView)
    ensures
        resolution(attrs, Finalization::Strict) == resolution(attrs, Finalization::Defaulting),
{
}

/// A declared default decides before the optional mark does: a field that
/// takes part, is not required and declares an expression resolves to that
/// expression under both operations, whether or not it was also marked
/// optional.
pub proof fn lemma_default_beats_optional(
    attrs: FieldAttributesView,
    source: Seq<char>,
    op: Finalization,
)
    requires
        attrs.builder,
        !attrs.required,
        attrs.default == DefaultStrategyView::Expression(source),
    ensures
        resolution(attrs, op) == StrategyView::ExpressionIfAbsent(source),
{
}

} // verus!
