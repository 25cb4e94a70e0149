//! One synthesis pass, from a declaration to what is emitted for it.

use std::str::FromStr;
use vstd::prelude::*;
use crate::decl::RecordDecl;
use crate::error::{SynthesisError, SynthesisErrorView};
use crate::expansion::{expansion_of, synthesize, Expansion, ExpansionView};
use crate::field_attributes::{DefaultStrategy, DefaultStrategyView};
use crate::record::{FieldSpec, FieldSpecView, RecordSpec, RecordSpecView};

verus! {

/// Asks the tokenizer of the host language whether `source` is a sequence of
/// tokens.
///
/// This calls `proc_macro2::TokenStream::from_str`. Nothing is claimed of the
/// answer: inside a procedural macro it is the compiler's own tokenizer that
/// answers, elsewhere the one that `proc_macro2` brings along.
#[verifier::external_body]
fn tokenizes(source: &str) -> (ok: bool) {
    proc_macro2::TokenStream::from_str(source).is_ok()
}

impl FieldSpecView {
    /// The default expression that a finalization may evaluate for this
    /// field, if there is one. An expression on a field that takes no part in
    /// the builder, or that is required, is never evaluated.
    pub open spec fn live_expression(self) -> Option<Seq<char>> {
        if self.attrs.builder && !self.attrs.required {
            match self.attrs.default {
                DefaultStrategyView::Expression(source) => Some(source),
                _ => None,
            }
        } else {
            None
        }
    }
}

impl FieldSpec {
    /// The default expression that a finalization may evaluate for this
    /// field, if there is one.
    pub fn live_expression(&self) -> (source: Option<&String>)
        ensures
            match source {
                Some(text) => self.deep_view().live_expression() == Some(text@),
                None => self.deep_view().live_expression() is None,
            },
    {
        if self.attrs.builder && !self.attrs.required {
            match &self.attrs.default {
                DefaultStrategy::Expression(source) => Some(source),
                _ => None,
            }
        } else {
            None
        }
    }
}

impl RecordSpecView {
    /// Whether the `i`-th field has a default expression that the verdicts
    /// do not accept. A missing verdict accepts nothing.
    pub open spec fn rejected(self, verdicts: Seq<bool>, i: int) -> bool {
        &&& 0 <= i < self.fields.len()
        &&& self.fields[i].live_expression() is Some
        &&& !(i < verdicts.len() && verdicts[i])
    }

    /// Whether `i` is the first field whose default expression is rejected.
    pub open spec fn first_rejected(self, verdicts: Seq<bool>, i: int) -> bool {
        &&& self.rejected(verdicts, i)
        &&& forall|j: int| 0 <= j < i ==> !self.rejected(verdicts, j)
    }

    /// What a pass emits once the tokenizer has given its verdicts, one for
    /// each field: nothing but an error naming the first field whose default
    /// expression was rejected, or else the whole expansion.
    pub open spec fn checked_expansion(self, verdicts: Seq<bool>) -> Result<
        ExpansionView,
        SynthesisErrorView,
    > {
        if exists|i: int| self.first_rejected(verdicts, i) {
            let i = choose|i: int| self.first_rejected(verdicts, i);
            Err(SynthesisErrorView::InvalidDefaultExpression(self.fields[i].name))
        } else {
            Ok(expansion_of(self))
        }
    }
}

/// Has the tokenizer look at every default expression that a finalization may
/// evaluate. The result has one verdict for each field, `true` for a field
/// without such an expression.
fn tokenizer_verdicts(record: &RecordSpec) -> (verdicts: Vec<bool>)
    ensures
        verdicts@.len() == record.fields@.len(),
        forall|i: int|
            0 <= i < verdicts@.len() && record.deep_view().fields[i].live_expression() is None
                ==> verdicts@[i],
{
    let n = record.fields.len();
    let mut verdicts: Vec<bool> = Vec::new();
    let mut i: usize = 0;
    while i < n
        invariant
            n == record.fields@.len(),
            i <= n,
            verdicts@.len() == i,
            forall|j: int|
                0 <= j < i && record.deep_view().fields[j].live_expression() is None
                    ==> verdicts@[j],
        decreases n - i,
    {
        let verdict = match record.fields[i].live_expression() {
            Some(source) => tokenizes(source.as_str()),
            None => true,
        };
        verdicts.push(verdict);
        i += 1;
    }
    verdicts
}

/// Concludes a pass from a configured record and the tokenizer's verdicts on
/// its default expressions.
///
/// The fields are gone through in declaration order. The first one whose
/// default expression was rejected aborts the pass; if there is none, the
/// expansion is emitted whole.
pub fn expand_checked(record: &RecordSpec, verdicts: &Vec<bool>) -> (outcome: Result<
    Expansion,
    SynthesisError,
>)
    ensures
        match outcome {
            Ok(emitted) => record.deep_view().checked_expansion(verdicts@) == Ok::<
                ExpansionView,
                SynthesisErrorView,
            >(emitted.deep_view()),
            Err(e) => record.deep_view().checked_expansion(verdicts@) == Err::<
                ExpansionView,
                SynthesisErrorView,
            >(e.deep_view()),
        },
{
    let n = record.fields.len();
    let ghost model = record.deep_view();
    let mut i: usize = 0;
    while i < n
        invariant
            n == record.fields@.len(),
            model == record.deep_view(),
            i <= n,
            forall|j: int| 0 <= j < i ==> !model.rejected(verdicts@, j),
        decreases n - i,
    {
        let field = &record.fields[i];
        let accepted = i < verdicts.len() && verdicts[i];
        if field.live_expression().is_some() && !accepted {
            proof {
                // no field before this one is rejected, so every first one is this one
                assert(model.first_rejected(verdicts@, i as int));
                let k = choose|k: int| model.first_rejected(verdicts@, k);
                assert(k == i);
            }
            return Err(SynthesisError::InvalidDefaultExpression(field.name.clone()));
        }
        i += 1;
    }
    Ok(synthesize(record))
}

/// Runs one synthesis pass on a declaration.
///
/// The declaration is read into a configured record; what that finds wrong
/// with the item's shape or its annotations is the error. Then every default
/// expression that a finalization may evaluate goes to the host language's
/// tokenizer. What the tokenizer says is not for this library to foretell:
/// either the pass emits the expansion of the configured record, or it fails
/// naming a field that carries such an expression. Where no field does, the
/// pass succeeds.
pub fn expand_builder(input: &RecordDecl) -> (outcome: Result<Expansion, SynthesisError>)
    ensures
        match input.analysis() {
            Err(e) => outcome matches Err(found) && found.deep_view() == e,
            Ok(record) => match outcome {
                Ok(emitted) => emitted.deep_view() == expansion_of(record),
                Err(found) => exists|i: int|
                    0 <= i < record.fields.len() && (#[trigger] record.fields[i]).live_expression()
                        is Some && found.deep_view()
                        == SynthesisErrorView::InvalidDefaultExpression(record.fields[i].name),
            },
        },
        input.analysis() matches Ok(record) && (forall|i: int|
            0 <= i < record.fields.len() ==> (#[trigger] record.fields[i]).live_expression()
                is None) ==> outcome is Ok,
{
    let record = match RecordSpec::from_decl(input) {
        Ok(record) => record,
        Err(e) => {
            return Err(e);
        },
    };
    let verdicts = tokenizer_verdicts(&record);
    let outcome = expand_checked(&record, &verdicts);
    assert(input.analysis()->Ok_0 == record.deep_view());
    outcome
}

} // verus!
