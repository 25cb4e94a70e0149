//! What holds of the slots and setters of every emitted builder.

use vstd::prelude::*;
use crate::error::BuildErrorView;
use crate::expansion::{
    expansion_of,
    slot_methods_of,
    slot_names_of,
    slots_of,
    AccessorView,
    ExpansionView,
    FieldDefView,
};
use crate::model::{after_set, entries, fresh, held, is_slot_of, slot_of, yield_at, FieldValueView};
use crate::record::{FieldSpecView, RecordSpecView};
use crate::strategy::Finalization;
use crate::theorems::finalization::lemma_entries_follow_fields;

verus! {

/// A builder on which no setter was called holds nothing.
pub proof fn lemma_fresh_holds_nothing<V>(plan: ExpansionView, name: Seq<char>)
    ensures
        held(plan, fresh::<V>(plan), name) == None::<V>,
{
}

/// A setter changes what the builder holds for its own field and for no
/// other.
pub proof fn lemma_set_then_held<V>(
    plan: ExpansionView,
    slots: Seq<Option<V>>,
    name: Seq<char>,
    value: V,
    other: Seq<char>,
)
    requires
        slots.len() == plan.builder_fields.len(),
    ensures
        after_set(plan, slots, name, value).len() == slots.len(),
        slot_of(plan.builder_fields, name) is Some ==> held(
            plan,
            after_set(plan, slots, name, value),
            name,
        ) == Some(value),
        other != name ==> held(plan, after_set(plan, slots, name, value), other) == held(
            plan,
            slots,
            other,
        ),
{
    if slot_of(plan.builder_fields, name) is Some && other != name {
        let i = slot_of(plan.builder_fields, name)->Some_0;
        if slot_of(plan.builder_fields, other) is Some {
            let k = slot_of(plan.builder_fields, other)->Some_0;
            assert(is_slot_of(plan.builder_fields, name, i));
            assert(is_slot_of(plan.builder_fields, other, k));
            assert(i != k);
        }
    }
}

/// Calling a setter twice leaves the builder as the second call alone would:
/// the last value stands, and nothing accumulates.
pub proof fn lemma_last_set_wins<V>(
    plan: ExpansionView,
    slots: Seq<Option<V>>,
    name: Seq<char>,
    first: V,
    second: V,
)
    ensures
        after_set(plan, after_set(plan, slots, name, first), name, second) == after_set(
            plan,
            slots,
            name,
            second,
        ),
{
    assert(after_set(plan, after_set(plan, slots, name, first), name, second) =~= after_set(
        plan,
        slots,
        name,
        second,
    ));
}

/// Every slot of the builder belongs to a field that takes part.
pub proof fn lemma_slots_come_from_fields(fields: Seq<FieldSpecView>, k: int)
    requires
        0 <= k < slots_of(fields).len(),
    ensures
        exists|i: int|
            0 <= i < fields.len() && (#[trigger] fields[i]).attrs.builder && fields[i].def()
                == slots_of(fields)[k],
    decreases fields.len(),
{
    let last = fields.last();
    let rest = fields.drop_last();
    if last.attrs.builder && k == slots_of(fields).len() - 1 {
        assert(fields[fields.len() - 1] == last);
    } else {
        lemma_slots_come_from_fields(rest, k);
        let i = choose|i: int|
            0 <= i < rest.len() && (#[trigger] rest[i]).attrs.builder && rest[i].def() == slots_of(
                rest,
            )[k];
        assert(fields[i] == rest[i]);
    }
}

/// Where some slot has the name, the name stands for a slot.
pub proof fn lemma_named_slot_exists(defs: Seq<FieldDefView>, name: Seq<char>, k: int)
    requires
        0 <= k < defs.len(),
        defs[k].name == name,
    ensures
        slot_of(defs, name) is Some,
    decreases k,
{
    if exists|j: int| 0 <= j < k && (#[trigger] defs[j]).name == name {
        let j = choose|j: int| 0 <= j < k && (#[trigger] defs[j]).name == name;
        lemma_named_slot_exists(defs, name, j);
    } else {
        assert(is_slot_of(defs, name, k));
    }
}

/// Every field that takes part has a slot of its name.
pub proof fn lemma_fields_have_slots(fields: Seq<FieldSpecView>, i: int)
    requires
        0 <= i < fields.len(),
        fields[i].attrs.builder,
    ensures
        exists|k: int|
            0 <= k < slots_of(fields).len() && (#[trigger] slots_of(fields)[k]) == fields[i].def(),
        slot_of(slots_of(fields), fields[i].name) is Some,
    decreases fields.len(),
{
    let last = fields.last();
    let rest = fields.drop_last();
    let slots = slots_of(fields);
    if i == fields.len() - 1 {
        assert(slots[slots.len() - 1] == fields[i].def());
    } else {
        lemma_fields_have_slots(rest, i);
        let k = choose|k: int|
            0 <= k < slots_of(rest).len() && (#[trigger] slots_of(rest)[k]) == rest[i].def();
        assert(slots[k] == fields[i].def());
    }
    let k = choose|k: int| 0 <= k < slots.len() && (#[trigger] slots[k]) == fields[i].def();
    lemma_named_slot_exists(slots, fields[i].name, k);
}

/// A field that takes no part in the builder never appears on it: the
/// builder has no slot, and so no setter, of its name.
pub proof fn lemma_skipped_field_has_no_slot(record: RecordSpecView, i: int)
    requires
        record.names_distinct(),
        0 <= i < record.fields.len(),
        !record.fields[i].attrs.builder,
    ensures
        slot_of(expansion_of(record).builder_fields, record.fields[i].name) is None,
{
    let slots = slots_of(record.fields);
    let name = record.fields[i].name;
    if exists|k: int| is_slot_of(slots, name, k) {
        let k = choose|k: int| is_slot_of(slots, name, k);
        lemma_slots_come_from_fields(record.fields, k);
        let j = choose|j: int|
            0 <= j < record.fields.len() && (#[trigger] record.fields[j]).attrs.builder
                && record.fields[j].def() == slots[k];
        assert(record.fields[j].name == record.fields[i].name);
        assert(j != i);
    }
}

/// A value that was set is the value that both finalizations put into the
/// finished record.
pub proof fn lemma_set_value_is_built<V>(
    record: RecordSpecView,
    op: Finalization,
    slots: Seq<Option<V>>,
    i: int,
    value: V,
)
    requires
        0 <= i < record.fields.len(),
        record.fields[i].attrs.builder,
        slots.len() == expansion_of(record).builder_fields.len(),
    ensures
        yield_at(
            expansion_of(record),
            op,
            after_set(expansion_of(record), slots, record.fields[i].name, value),
            i,
        ) == Ok::<FieldValueView<V>, BuildErrorView>(FieldValueView::Provided(value)),
{
    let plan = expansion_of(record);
    lemma_entries_follow_fields(record, op);
    lemma_fields_have_slots(record.fields, i);
    lemma_set_then_held(plan, slots, record.fields[i].name, value, record.fields[i].name);
    assert(entries(plan, op)[i] == record.fields[i].init(op));
}

/// The constructor and the setters cover the slots one for one: the
/// constructor leaves exactly the slots absent, and every slot has exactly
/// one setter, which bears the slot's name and takes the slot's type.
pub proof fn lemma_constructor_and_setters_cover_slots(fields: Seq<FieldSpecView>)
    ensures
        slot_names_of(fields).len() == slots_of(fields).len(),
        slot_methods_of(fields).len() == slots_of(fields).len(),
        forall|k: int|
            0 <= k < slots_of(fields).len() ==> (#[trigger] slot_names_of(fields)[k]) == slots_of(
                fields,
            )[k].name,
        forall|k: int|
            0 <= k < slots_of(fields).len() ==> (#[trigger] slot_methods_of(fields)[k])
                == (AccessorView {
                method: slots_of(fields)[k].name,
                field: slots_of(fields)[k].name,
                ty: slots_of(fields)[k].ty,
            }),
    decreases fields.len(),
{
    if fields.len() > 0 {
        let rest = fields.drop_last();
        lemma_constructor_and_setters_cover_slots(rest);
        if fields.last().attrs.builder {
            let n = slots_of(rest).len() as int;
            assert forall|k: int| 0 <= k < n implies slots_of(fields)[k] == slots_of(rest)[k]
                && slot_names_of(fields)[k] == slot_names_of(rest)[k] && slot_methods_of(
                fields,
            )[k] == slot_methods_of(rest)[k] by {}
        }
    }
}

} // verus!
