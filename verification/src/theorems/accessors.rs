//! What holds of the accessors of every finished record.

use vstd::prelude::*;
use crate::accessors::{
    after_write,
    field_of,
    is_method_of,
    method_of,
    place_of,
    read_by,
    written_by,
};
use crate::expansion::{expansion_of, getters_of, setters_of, AccessorView, ExpansionView};
use crate::model::{is_slot_of, slot_of, FieldValueView};
use crate::record::{FieldSpecView, RecordSpecView};

verus! {

/// A write accessor changes the field it is for and no other: the field then
/// holds the value that was passed, and every other field holds what it held.
pub proof fn lemma_write_changes_one_field<V>(
    plan: ExpansionView,
    values: Seq<FieldValueView<V>>,
    method: Seq<char>,
    value: V,
    other: Seq<char>,
)
    requires
        written_by(plan, values, method) is Some,
    ensures
        after_write(plan, values, method, value).len() == values.len(),
        field_of(
            plan,
            after_write(plan, values, method, value),
            method_of(plan.setters, method)->Some_0.field,
        ) == Some(FieldValueView::Provided(value)),
        other != method_of(plan.setters, method)->Some_0.field ==> field_of(
            plan,
            after_write(plan, values, method, value),
            other,
        ) == field_of(plan, values, other),
{
    let name = method_of(plan.setters, method)->Some_0.field;
    let i = place_of(plan, values, name)->Some_0;
    assert(is_slot_of(plan.fields, name, i));
    if other != name && slot_of(plan.fields, other) is Some {
        let k = slot_of(plan.fields, other)->Some_0;
        assert(is_slot_of(plan.fields, other, k));
        assert(i != k);
    }
}

/// A call of an accessor that the record does not have reads nothing and
/// changes nothing.
pub proof fn lemma_absent_accessors_do_nothing<V>(
    plan: ExpansionView,
    values: Seq<FieldValueView<V>>,
    method: Seq<char>,
    value: V,
)
    ensures
        method_of(plan.getters, method) is None ==> read_by(plan, values, method) is None,
        method_of(plan.setters, method) is None ==> after_write(plan, values, method, value)
            == values,
{
}

/// Texts that are equal behind the same prefix are equal.
proof fn lemma_prefix_cancels(prefix: Seq<char>, a: Seq<char>, b: Seq<char>)
    requires
        prefix + a == prefix + b,
    ensures
        a == b,
{
    let n = prefix.len() as int;
    assert(a =~= (prefix + a).subrange(n, n + a.len()));
    assert(b =~= (prefix + b).subrange(n, n + b.len()));
}

/// Every read accessor belongs to a field that takes part and asks for one.
pub proof fn lemma_getters_come_from_fields(fields: Seq<FieldSpecView>, k: int)
    requires
        0 <= k < getters_of(fields).len(),
    ensures
        exists|i: int|
            0 <= i < fields.len() && (#[trigger] fields[i]).getter() == Some(
                getters_of(fields)[k],
            ),
    decreases fields.len(),
{
    let last = fields.last();
    let rest = fields.drop_last();
    if last.getter() is Some && k == getters_of(fields).len() - 1 {
        assert(fields[fields.len() - 1] == last);
    } else {
        lemma_getters_come_from_fields(rest, k);
        let i = choose|i: int|
            0 <= i < rest.len() && (#[trigger] rest[i]).getter() == Some(getters_of(rest)[k]);
        assert(fields[i] == rest[i]);
    }
}

/// Every field that takes part and asks for a read accessor has one.
pub proof fn lemma_fields_have_getters(fields: Seq<FieldSpecView>, i: int)
    requires
        0 <= i < fields.len(),
        fields[i].getter() is Some,
    ensures
        exists|k: int|
            0 <= k < getters_of(fields).len() && Some(#[trigger] getters_of(fields)[k])
                == fields[i].getter(),
    decreases fields.len(),
{
    let rest = fields.drop_last();
    let getters = getters_of(fields);
    if i == fields.len() - 1 {
        assert(Some(getters[getters.len() - 1]) == fields[i].getter());
    } else {
        lemma_fields_have_getters(rest, i);
        let k = choose|k: int|
            0 <= k < getters_of(rest).len() && Some(#[trigger] getters_of(rest)[k])
                == rest[i].getter();
        assert(getters[k] == getters_of(rest)[k]);
    }
}

/// Every write accessor belongs to a field that takes part and asks for one.
pub proof fn lemma_setters_come_from_fields(fields: Seq<FieldSpecView>, k: int)
    requires
        0 <= k < setters_of(fields).len(),
    ensures
        exists|i: int|
            0 <= i < fields.len() && (#[trigger] fields[i]).setter() == Some(
                setters_of(fields)[k],
            ),
    decreases fields.len(),
{
    let last = fields.last();
    let rest = fields.drop_last();
    if last.setter() is Some && k == setters_of(fields).len() - 1 {
        assert(fields[fields.len() - 1] == last);
    } else {
        lemma_setters_come_from_fields(rest, k);
        let i = choose|i: int|
            0 <= i < rest.len() && (#[trigger] rest[i]).setter() == Some(setters_of(rest)[k]);
        assert(fields[i] == rest[i]);
    }
}

/// Every field that takes part and asks for a write accessor has one.
pub proof fn lemma_fields_have_setters(fields: Seq<FieldSpecView>, i: int)
    requires
        0 <= i < fields.len(),
        fields[i].setter() is Some,
    ensures
        exists|k: int|
            0 <= k < setters_of(fields).len() && Some(#[trigger] setters_of(fields)[k])
                == fields[i].setter(),
    decreases fields.len(),
{
    let rest = fields.drop_last();
    let setters = setters_of(fields);
    if i == fields.len() - 1 {
        assert(Some(setters[setters.len() - 1]) == fields[i].setter());
    } else {
        lemma_fields_have_setters(rest, i);
        let k = choose|k: int|
            0 <= k < setters_of(rest).len() && Some(#[trigger] setters_of(rest)[k])
                == rest[i].setter();
        assert(setters[k] == setters_of(rest)[k]);
    }
}

/// Where some accessor bears the name, the name stands for an accessor.
pub proof fn lemma_named_method_exists(accessors: Seq<AccessorView>, method: Seq<char>, k: int)
    requires
        0 <= k < accessors.len(),
        accessors[k].method == method,
    ensures
        exists|i: int| is_method_of(accessors, method, i),
    decreases k,
{
    if exists|j: int| 0 <= j < k && (#[trigger] accessors[j]).method == method {
        let j = choose|j: int| 0 <= j < k && (#[trigger] accessors[j]).method == method;
        lemma_named_method_exists(accessors, method, j);
    } else {
        assert(is_method_of(accessors, method, k));
    }
}

/// A record has the read accessor `get_<field>` exactly for the fields that
/// take part in the builder and ask for one, and the accessor is for that
/// field.
pub proof fn lemma_getter_exists_iff_granted(record: RecordSpecView, i: int)
    requires
        record.names_distinct(),
        0 <= i < record.fields.len(),
    ensures
        method_of(expansion_of(record).getters, "get_"@ + record.fields[i].name)
            == record.fields[i].getter(),
{
    let fields = record.fields;
    let getters = getters_of(fields);
    let method = "get_"@ + fields[i].name;
    if exists|k: int| is_method_of(getters, method, k) {
        let k = choose|k: int| is_method_of(getters, method, k);
        lemma_getters_come_from_fields(fields, k);
        let j = choose|j: int|
            0 <= j < fields.len() && (#[trigger] fields[j]).getter() == Some(getters[k]);
        lemma_prefix_cancels("get_"@, fields[j].name, fields[i].name);
        assert(j == i);
    } else if fields[i].getter() is Some {
        lemma_fields_have_getters(fields, i);
        let k = choose|k: int|
            0 <= k < getters.len() && Some(#[trigger] getters[k]) == fields[i].getter();
        lemma_named_method_exists(getters, method, k);
    }
}

/// A record has the write accessor `set_<field>` exactly for the fields that
/// take part in the builder and ask for one, and the accessor is for that
/// field.
pub proof fn lemma_setter_exists_iff_granted(record: RecordSpecView, i: int)
    requires
        record.names_distinct(),
        0 <= i < record.fields.len(),
    ensures
        method_of(expansion_of(record).setters, "set_"@ + record.fields[i].name)
            == record.fields[i].setter(),
{
    let fields = record.fields;
    let setters = setters_of(fields);
    let method = "set_"@ + fields[i].name;
    if exists|k: int| is_method_of(setters, method, k) {
        let k = choose|k: int| is_method_of(setters, method, k);
        lemma_setters_come_from_fields(fields, k);
        let j = choose|j: int|
            0 <= j < fields.len() && (#[trigger] fields[j]).setter() == Some(setters[k]);
        lemma_prefix_cancels("set_"@, fields[j].name, fields[i].name);
        assert(j == i);
    } else if fields[i].setter() is Some {
        lemma_fields_have_setters(fields, i);
        let k = choose|k: int|
            0 <= k < setters.len() && Some(#[trigger] setters[k]) == fields[i].setter();
        lemma_named_method_exists(setters, method, k);
    }
}

} // verus!
