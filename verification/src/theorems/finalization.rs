//! What holds of both finalizations of every emitted builder, in every state
//! that the builder can be in.

use vstd::prelude::*;
use crate::error::BuildErrorView;
use crate::expansion::{expansion_of, inits_of, ExpansionView};
use crate::model::{
    entries,
    filled,
    finalized,
    first_failure,
    fresh,
    held,
    yield_at,
    FieldValueView,
};
use crate::record::RecordSpecView;
use crate::strategy::Finalization;

verus! {

/// The entries of both finalizations are those of the record's fields, one
/// for one.
pub proof fn lemma_entries_follow_fields(record: RecordSpecView, op: Finalization)
    ensures
        entries(expansion_of(record), op) == inits_of(record.fields, op),
        entries(expansion_of(record), op).len() == record.fields.len(),
        forall|i: int|
            0 <= i < record.fields.len() ==> (#[trigger] entries(expansion_of(record), op)[i])
                == record.fields[i].init(op),
{
}

/// A finalization fails exactly where some entry fails, and then with the
/// error of the first such entry.
pub proof fn lemma_finalized_by_first_failure<V>(
    plan: ExpansionView,
    op: Finalization,
    slots: Seq<Option<V>>,
    i: int,
)
    requires
        first_failure(plan, op, slots, i),
    ensures
        finalized(plan, op, slots) == Err::<Seq<FieldValueView<V>>, BuildErrorView>(
            yield_at(plan, op, slots, i)->Err_0,
        ),
{
    let k = choose|k: int| first_failure(plan, op, slots, k);
    if k < i {
        assert(yield_at(plan, op, slots, k) is Ok);
    } else if i < k {
        assert(yield_at(plan, op, slots, i) is Ok);
    }
}

/// Where some entry of a finalization fails, some entry is the first to
/// fail.
pub proof fn lemma_some_entry_fails_first<V>(
    plan: ExpansionView,
    op: Finalization,
    slots: Seq<Option<V>>,
    i: int,
)
    requires
        0 <= i < entries(plan, op).len(),
        yield_at(plan, op, slots, i) is Err,
    ensures
        exists|k: int| first_failure(plan, op, slots, k),
    decreases i,
{
    if exists|j: int| 0 <= j < i && yield_at(plan, op, slots, j) is Err {
        let j = choose|j: int| 0 <= j < i && yield_at(plan, op, slots, j) is Err;
        lemma_some_entry_fails_first(plan, op, slots, j);
    } else {
        assert(first_failure(plan, op, slots, i));
    }
}

/// A finalization succeeds exactly where every entry yields a value, and
/// then returns those values, one for each field of the record and in the
/// order of the declaration. It either yields all of the record or none of
/// it.
pub proof fn lemma_finalization_is_all_or_nothing<V>(
    plan: ExpansionView,
    op: Finalization,
    slots: Seq<Option<V>>,
)
    ensures
        finalized(plan, op, slots) is Ok <==> forall|i: int|
            0 <= i < entries(plan, op).len() ==> yield_at(plan, op, slots, i) is Ok,
        finalized(plan, op, slots) matches Ok(values) ==> {
            &&& values.len() == entries(plan, op).len()
            &&& forall|i: int|
                0 <= i < values.len() ==> yield_at(plan, op, slots, i) == Ok::<
                    FieldValueView<V>,
                    BuildErrorView,
                >(#[trigger] values[i])
        },
        finalized(plan, op, slots) matches Err(e) ==> exists|field: Seq<char>|
            e == BuildErrorView::MissingDependency(field),
{
    if exists|i: int| 0 <= i < entries(plan, op).len() && yield_at(plan, op, slots, i) is Err {
        let i = choose|i: int|
            0 <= i < entries(plan, op).len() && yield_at(plan, op, slots, i) is Err;
        lemma_some_entry_fails_first(plan, op, slots, i);
    }
    if exists|k: int| first_failure(plan, op, slots, k) {
        let k = choose|k: int| first_failure(plan, op, slots, k);
        assert(yield_at(plan, op, slots, k) is Err);
        let e = yield_at(plan, op, slots, k)->Err_0;
        assert(e == BuildErrorView::MissingDependency(entries(plan, op)[k].field));
    }
}

/// The two finalizations of an emitted builder behave alike in every state:
/// `build_with_defaults()` invents no value that `build()` would not.
pub proof fn lemma_finalizations_behave_alike<V>(record: RecordSpecView, slots: Seq<Option<V>>)
    ensures
        finalized(expansion_of(record), Finalization::Strict, slots) == finalized(
            expansion_of(record),
            Finalization::Defaulting,
            slots,
        ),
{
    let plan = expansion_of(record);
    assert(entries(plan, Finalization::Strict) =~= entries(plan, Finalization::Defaulting));
    assert forall|i: int|
        yield_at(plan, Finalization::Strict, slots, i) == yield_at(
            plan,
            Finalization::Defaulting,
            slots,
            i,
        ) by {}
    assert forall|i: int|
        first_failure(plan, Finalization::Strict, slots, i) == first_failure(
            plan,
            Finalization::Defaulting,
            slots,
            i,
        ) by {}
    if !exists|i: int| first_failure(plan, Finalization::Strict, slots, i) {
        assert(finalized(plan, Finalization::Strict, slots)->Ok_0 =~= finalized(
            plan,
            Finalization::Defaulting,
            slots,
        )->Ok_0);
    }
}

/// A builder in which every required field was set builds, under both
/// finalizations: nothing but a missing required field makes one fail.
pub proof fn lemma_all_required_set_builds<V>(
    record: RecordSpecView,
    op: Finalization,
    slots: Seq<Option<V>>,
)
    requires
        forall|i: int|
            0 <= i < record.fields.len() && (#[trigger] record.fields[i]).attrs.builder
                && record.fields[i].attrs.required ==> held(
                expansion_of(record),
                slots,
                record.fields[i].name,
            ) is Some,
    ensures
        finalized(expansion_of(record), op, slots) is Ok,
{
    let plan = expansion_of(record);
    lemma_entries_follow_fields(record, op);
    assert forall|i: int| !first_failure(plan, op, slots, i) by {
        if 0 <= i < entries(plan, op).len() {
            assert(entries(plan, op)[i] == record.fields[i].init(op));
            assert(yield_at(plan, op, slots, i) is Ok);
        }
    }
}

/// Where no field is required, both finalizations succeed on a builder on
/// which no setter was called, and on any other.
pub proof fn lemma_nothing_required_always_builds<V>(
    record: RecordSpecView,
    op: Finalization,
    slots: Seq<Option<V>>,
)
    requires
        record.consistent(),
        forall|i: int|
            0 <= i < record.fields.len() ==> !(#[trigger] record.fields[i]).attrs.required || !(
            record.fields[i].attrs.default is Unset),
    ensures
        finalized(expansion_of(record), op, slots) is Ok,
        finalized(expansion_of(record), op, fresh::<V>(expansion_of(record))) is Ok,
{
    let plan = expansion_of(record);
    lemma_entries_follow_fields(record, op);
    assert forall|s: Seq<Option<V>>, i: int| !first_failure(plan, op, s, i) by {
        if 0 <= i < entries(plan, op).len() {
            assert(record.fields[i].attrs.consistent());
            assert(!record.fields[i].attrs.required);
            assert(entries(plan, op)[i] == record.fields[i].init(op));
            assert(yield_at(plan, op, s, i) is Ok);
        }
    }
}

/// The first required field that was never set is the one that both
/// finalizations report, however many others are missing behind it.
///
/// `i` is a required field that takes part in the builder and was never
/// set, and every such field before it was set.
pub proof fn lemma_first_missing_field_is_reported<V>(
    record: RecordSpecView,
    op: Finalization,
    slots: Seq<Option<V>>,
    i: int,
)
    requires
        0 <= i < record.fields.len(),
        record.fields[i].attrs.builder,
        record.fields[i].attrs.required,
        held(expansion_of(record), slots, record.fields[i].name) is None,
        forall|j: int|
            0 <= j < i && (#[trigger] record.fields[j]).attrs.builder
                && record.fields[j].attrs.required ==> held(
                expansion_of(record),
                slots,
                record.fields[j].name,
            ) is Some,
    ensures
        finalized(expansion_of(record), op, slots) == Err::<
            Seq<FieldValueView<V>>,
            BuildErrorView,
        >(BuildErrorView::MissingDependency(record.fields[i].name)),
{
    let plan = expansion_of(record);
    lemma_entries_follow_fields(record, op);
    assert(entries(plan, op)[i] == record.fields[i].init(op));
    assert forall|j: int| 0 <= j < i implies yield_at(plan, op, slots, j) is Ok by {
        assert(entries(plan, op)[j] == record.fields[j].init(op));
    }
    assert(first_failure(plan, op, slots, i));
    lemma_finalized_by_first_failure(plan, op, slots, i);
}

/// A required field that is the only one left unset makes both
/// finalizations fail, naming exactly that field.
pub proof fn lemma_missing_field_is_named<V>(
    record: RecordSpecView,
    op: Finalization,
    slots: Seq<Option<V>>,
    i: int,
)
    requires
        0 <= i < record.fields.len(),
        record.fields[i].attrs.builder,
        record.fields[i].attrs.required,
        held(expansion_of(record), slots, record.fields[i].name) is None,
        forall|j: int|
            0 <= j < record.fields.len() && j != i && (#[trigger] record.fields[j]).attrs.builder
                && record.fields[j].attrs.required ==> held(
                expansion_of(record),
                slots,
                record.fields[j].name,
            ) is Some,
    ensures
        finalized(expansion_of(record), op, slots) == Err::<
            Seq<FieldValueView<V>>,
            BuildErrorView,
        >(BuildErrorView::MissingDependency(record.fields[i].name)),
{
    lemma_first_missing_field_is_reported(record, op, slots, i);
}

/// A field that takes no part in the builder is filled with its type's
/// default value by both finalizations, whatever the builder holds.
pub proof fn lemma_skipped_field_is_defaulted<V>(
    record: RecordSpecView,
    op: Finalization,
    slots: Seq<Option<V>>,
    i: int,
)
    requires
        0 <= i < record.fields.len(),
        !record.fields[i].attrs.builder,
    ensures
        yield_at(expansion_of(record), op, slots, i) == Ok::<FieldValueView<V>, BuildErrorView>(
            FieldValueView::TraitDefault,
        ),
        finalized(expansion_of(record), op, slots) matches Ok(values) ==> values[i]
            == FieldValueView::<V>::TraitDefault,
{
    lemma_entries_follow_fields(record, op);
    assert(entries(expansion_of(record), op)[i] == record.fields[i].init(op));
}

} // verus!
