//! What the accessors of a finished record do when they run.
//!
//! A finished record holds one value for each of its fields. A read accessor
//! hands out the value of its field; a write accessor puts a new value in
//! its place. A record has only the accessors that were emitted for it.

use vstd::prelude::*;
use crate::expansion::{Accessor, AccessorView, Expansion, ExpansionView};
use crate::model::{find_slot, slot_of, FieldValue, FieldValueView};
use crate::text::text_eq;

verus! {

/// Whether `i` is the first among `accessors` whose method is named `method`.
pub open spec fn is_method_of(accessors: Seq<AccessorView>, method: Seq<char>, i: int) -> bool {
    &&& 0 <= i < accessors.len()
    &&& accessors[i].method == method
    &&& forall|j: int| 0 <= j < i ==> (#[trigger] accessors[j]).method != method
}

/// The accessor that a method name stands for, if there is one.
pub open spec fn method_of(accessors: Seq<AccessorView>, method: Seq<char>) -> Option<
    AccessorView,
> {
    if exists|i: int| is_method_of(accessors, method, i) {
        Some(accessors[choose|i: int| is_method_of(accessors, method, i)])
    } else {
        None
    }
}

/// The place of the field `name` among the values of a record, if the record
/// has such a field.
pub open spec fn place_of<V>(
    plan: ExpansionView,
    values: Seq<FieldValueView<V>>,
    name: Seq<char>,
) -> Option<int> {
    match slot_of(plan.fields, name) {
        Some(i) => if i < values.len() {
            Some(i)
        } else {
            None
        },
        None => None,
    }
}

/// What the field `name` of a record holds.
pub open spec fn field_of<V>(
    plan: ExpansionView,
    values: Seq<FieldValueView<V>>,
    name: Seq<char>,
) -> Option<FieldValueView<V>> {
    match place_of(plan, values, name) {
        Some(i) => Some(values[i]),
        None => None,
    }
}

/// What a call of the read accessor `method` returns; nothing where the
/// record has no such method.
pub open spec fn read_by<V>(
    plan: ExpansionView,
    values: Seq<FieldValueView<V>>,
    method: Seq<char>,
) -> Option<FieldValueView<V>> {
    match method_of(plan.getters, method) {
        Some(getter) => field_of(plan, values, getter.field),
        None => None,
    }
}

/// The place that a call of the write accessor `method` writes to; none
/// where the record has no such method.
pub open spec fn written_by<V>(
    plan: ExpansionView,
    values: Seq<FieldValueView<V>>,
    method: Seq<char>,
) -> Option<int> {
    match method_of(plan.setters, method) {
        Some(setter) => place_of(plan, values, setter.field),
        None => None,
    }
}

/// The values of a record after a call of the write accessor `method` with
/// `value`: the field of the accessor holds the new value, and every other
/// field is as it was.
pub open spec fn after_write<V>(
    plan: ExpansionView,
    values: Seq<FieldValueView<V>>,
    method: Seq<char>,
    value: V,
) -> Seq<FieldValueView<V>> {
    match written_by(plan, values, method) {
        Some(i) => values.update(i, FieldValueView::Provided(value)),
        None => values,
    }
}

/// Finds the accessor that a method name stands for.
pub fn find_method<'a>(accessors: &'a Vec<Accessor>, method: &str) -> (found: Option<&'a Accessor>)
    ensures
        match found {
            Some(accessor) => method_of(accessors.deep_view(), method@) == Some(
                accessor.deep_view(),
            ),
            None => method_of(accessors.deep_view(), method@) is None,
        },
{
    let n = accessors.len();
    let mut i: usize = 0;
    while i < n
        invariant
            n == accessors@.len(),
            i <= n,
            forall|j: int| 0 <= j < i ==> (#[trigger] accessors.deep_view()[j]).method != method@,
        decreases n - i,
    {
        if text_eq(accessors[i].method.as_str(), method) {
            proof {
                // no accessor before this one bears the name, so every
                // first one that does is this one
                assert(is_method_of(accessors.deep_view(), method@, i as int));
                let k = choose|k: int| is_method_of(accessors.deep_view(), method@, k);
                assert(k == i);
            }
            return Some(&accessors[i]);
        }
        i += 1;
    }
    None
}

/// A finished record as it is at run time: the plan it was emitted from,
/// and the values of its fields in declaration order. `V` stands for the
/// values that were set.
pub struct RecordModel<'a, V> {
    plan: &'a Expansion,
    values: Vec<FieldValue<V>>,
}

impl<'a, V> RecordModel<'a, V> {
    /// The plan that the record was emitted from.
    pub closed spec fn plan(self) -> ExpansionView {
        self.plan.deep_view()
    }

    /// The values of the fields, in declaration order.
    pub closed spec fn values(self) -> Seq<FieldValueView<V>> {
        self.values.deep_view()
    }

    /// The record that a finalization has returned.
    pub fn new(plan: &'a Expansion, values: Vec<FieldValue<V>>) -> (record: Self)
        ensures
            record.plan() == plan.deep_view(),
            record.values() == values.deep_view(),
    {
        RecordModel { plan, values }
    }

    /// Where the field `name` is kept.
    fn place(&self, name: &str) -> (at: Option<usize>)
        ensures
            match at {
                Some(i) => place_of(self.plan(), self.values(), name@) == Some(i as int),
                None => place_of(self.plan(), self.values(), name@) is None,
            },
    {
        match find_slot(&self.plan.fields, name) {
            Some(i) => if i < self.values.len() {
                Some(i)
            } else {
                None
            },
            None => None,
        }
    }

    /// Reads the field `name`; nothing where the record has no such field.
    pub fn field(&self, name: &str) -> (value: Option<&FieldValue<V>>)
        ensures
            value.deep_view() == field_of(self.plan(), self.values(), name@),
    {
        match self.place(name) {
            Some(i) => Some(&self.values[i]),
            None => None,
        }
    }

    /// Calls the read accessor `method`: a reference to the accessor's
    /// field. Nothing where the record has no read accessor of that name.
    pub fn get(&self, method: &str) -> (value: Option<&FieldValue<V>>)
        ensures
            value.deep_view() == read_by(self.plan(), self.values(), method@),
    {
        match find_method(&self.plan.getters, method) {
            Some(getter) => self.field(getter.field.as_str()),
            None => None,
        }
    }

    /// Calls the write accessor `method` with `value`: the accessor's field
    /// is replaced in place. Returns whether the record has a write accessor
    /// of that name; where it has none, nothing changes.
    pub fn set(&mut self, method: &str, value: V) -> (done: bool)
        ensures
            final(self).plan() == old(self).plan(),
            final(self).values() == after_write(old(self).plan(), old(self).values(), method@, value),
            done == written_by(old(self).plan(), old(self).values(), method@) is Some,
    {
        let at = match find_method(&self.plan.setters, method) {
            Some(setter) => self.place(setter.field.as_str()),
            None => None,
        };
        match at {
            Some(i) => {
                let ghost before = self.values.deep_view();
                self.values.set(i, FieldValue::Provided(value));
                assert(self.values.deep_view() =~= before.update(
                    i as int,
                    FieldValueView::Provided(value),
                ));
                true
            },
            None => false,
        }
    }

    /// Hands the values back.
    pub fn into_values(self) -> (values: Vec<FieldValue<V>>)
        ensures
            values.deep_view() == self.values(),
    {
        self.values
    }
}

} // verus!
