//! The code synthesizer: what is emitted for a configured record.
//!
//! An [`Expansion`] lists the emitted items part by part, each part in the
//! declaration order of the fields it comes from. Rendering it as tokens is
//! mechanical and left to the caller.

use vstd::prelude::*;
use crate::record::{FieldSpec, FieldSpecView, RecordSpec, RecordSpecView};
use crate::strategy::{resolution, resolve, Finalization, Strategy, StrategyView};
use crate::text::joined;

verus! {

/// A field declaration: `name: ty`.
#[derive(Debug, PartialEq, Eq)]
pub struct FieldDef {
    pub name: String,
    pub ty: String,
}

/// The model of a [`FieldDef`].
pub struct FieldDefView {
    pub name: Seq<char>,
    pub ty: Seq<char>,
}

impl DeepView for FieldDef {
    type V = FieldDefView;

    open spec fn deep_view(&self) -> FieldDefView {
        FieldDefView { name: self.name@, ty: self.ty@ }
    }
}

/// One field of the record literal that a finalization constructs.
#[derive(Debug, PartialEq, Eq)]
pub struct FieldInit {
    /// The field being filled.
    pub field: String,
    /// Where its value comes from.
    pub strategy: Strategy,
}

/// The model of a [`FieldInit`].
pub struct FieldInitView {
    pub field: Seq<char>,
    pub strategy: StrategyView,
}

impl DeepView for FieldInit {
    type V = FieldInitView;

    open spec fn deep_view(&self) -> FieldInitView {
        FieldInitView { field: self.field@, strategy: self.strategy.deep_view() }
    }
}

/// A method that is about one field: an accessor on the finished record, or
/// a setter on the builder.
#[derive(Debug, PartialEq, Eq)]
pub struct Accessor {
    /// The method's name.
    pub method: String,
    /// The field that the method reads or writes.
    pub field: String,
    /// The field's type.
    pub ty: String,
}

/// The model of an [`Accessor`].
pub struct AccessorView {
    pub method: Seq<char>,
    pub field: Seq<char>,
    pub ty: Seq<char>,
}

impl DeepView for Accessor {
    type V = AccessorView;

    open spec fn deep_view(&self) -> AccessorView {
        AccessorView { method: self.method@, field: self.field@, ty: self.ty@ }
    }
}

/// Everything that is emitted for one record type.
#[derive(Debug, PartialEq, Eq)]
pub struct Expansion {
    /// The record type's name.
    pub struct_name: String,
    /// The visibility of the record type and of its builder type.
    pub visibility: String,
    /// The generic parameters and bounds of both types.
    pub generics: String,
    /// The record type's fields, unchanged.
    pub fields: Vec<FieldDef>,
    /// The builder type's name.
    pub builder_name: String,
    /// The builder's slots, one for each field that takes part. A slot holds
    /// the field's type wrapped as absent-or-present.
    pub builder_fields: Vec<FieldDef>,
    /// The slots that the builder's constructor `new()` leaves absent: all
    /// of them, by name. The record type's `builder()` returns what `new()`
    /// makes.
    pub builder_new_fields: Vec<String>,
    /// The builder's chainable setters, one for each slot and named like it.
    /// A setter takes the builder and a value of the field's type by move,
    /// stores the value as present, and returns the builder.
    pub builder_methods: Vec<Accessor>,
    /// The record literal of `build()`, one entry for each field.
    pub build_fields: Vec<FieldInit>,
    /// The record literal of `build_with_defaults()`, one entry for each
    /// field.
    pub build_with_defaults_fields: Vec<FieldInit>,
    /// The read accessors on the record type: `get_<field>` returns a
    /// reference to the field.
    pub getters: Vec<Accessor>,
    /// The write accessors on the record type: `set_<field>` takes a new
    /// value and puts it in the field's place.
    pub setters: Vec<Accessor>,
}

/// The model of an [`Expansion`].
pub struct ExpansionView {
    pub struct_name: Seq<char>,
    pub visibility: Seq<char>,
    pub generics: Seq<char>,
    pub fields: Seq<FieldDefView>,
    pub builder_name: Seq<char>,
    pub builder_fields: Seq<FieldDefView>,
    pub builder_new_fields: Seq<Seq<char>>,
    pub builder_methods: Seq<AccessorView>,
    pub build_fields: Seq<FieldInitView>,
    pub build_with_defaults_fields: Seq<FieldInitView>,
    pub getters: Seq<AccessorView>,
    pub setters: Seq<AccessorView>,
}

impl DeepView for Expansion {
    type V = ExpansionView;

    open spec fn deep_view(&self) -> ExpansionView {
        ExpansionView {
            struct_name: self.struct_name@,
            visibility: self.visibility@,
            generics: self.generics@,
            fields: self.fields.deep_view(),
            builder_name: self.builder_name@,
            builder_fields: self.builder_fields.deep_view(),
            builder_new_fields: self.builder_new_fields.deep_view(),
            builder_methods: self.builder_methods.deep_view(),
            build_fields: self.build_fields.deep_view(),
            build_with_defaults_fields: self.build_with_defaults_fields.deep_view(),
            getters: self.getters.deep_view(),
            setters: self.setters.deep_view(),
        }
    }
}

impl FieldSpecView {
    /// The field's declaration.
    pub open spec fn def(self) -> FieldDefView {
        FieldDefView { name: self.name, ty: self.ty }
    }

    /// The field's slot in the builder, if it has one.
    pub open spec fn slot(self) -> Option<FieldDefView> {
        if self.attrs.builder {
            Some(self.def())
        } else {
            None
        }
    }

    /// The name of the field's slot, if it has one.
    pub open spec fn slot_name(self) -> Option<Seq<char>> {
        if self.attrs.builder {
            Some(self.name)
        } else {
            None
        }
    }

    /// The chainable setter of the field's slot, if it has one.
    pub open spec fn slot_method(self) -> Option<AccessorView> {
        if self.attrs.builder {
            Some(AccessorView { method: self.name, field: self.name, ty: self.ty })
        } else {
            None
        }
    }

    /// The field's entry in the record literal of a finalization.
    pub open spec fn init(self, op: Finalization) -> FieldInitView {
        FieldInitView { field: self.name, strategy: resolution(self.attrs, op) }
    }

    /// The field's read accessor, if it has one.
    pub open spec fn getter(self) -> Option<AccessorView> {
        if self.attrs.builder && self.attrs.getter {
            Some(AccessorView { method: "get_"@ + self.name, field: self.name, ty: self.ty })
        } else {
            None
        }
    }

    /// The field's write accessor, if it has one.
    pub open spec fn setter(self) -> Option<AccessorView> {
        if self.attrs.builder && self.attrs.setter {
            Some(AccessorView { method: "set_"@ + self.name, field: self.name, ty: self.ty })
        } else {
            None
        }
    }
}

/// The declarations of `fields`.
pub open spec fn defs_of(fields: Seq<FieldSpecView>) -> Seq<FieldDefView> {
    Seq::new(fields.len(), |i: int| fields[i].def())
}

/// The builder slots of `fields`: those of the fields that take part, in
/// order.
pub open spec fn slots_of(fields: Seq<FieldSpecView>) -> Seq<FieldDefView> {
    fields.filter_map(|f: FieldSpecView| f.slot())
}

/// The names of the builder slots of `fields`, in order.
pub open spec fn slot_names_of(fields: Seq<FieldSpecView>) -> Seq<Seq<char>> {
    fields.filter_map(|f: FieldSpecView| f.slot_name())
}

/// The chainable setters of the builder slots of `fields`, in order.
pub open spec fn slot_methods_of(fields: Seq<FieldSpecView>) -> Seq<AccessorView> {
    fields.filter_map(|f: FieldSpecView| f.slot_method())
}

/// The record literal that the finalization `op` constructs from `fields`.
pub open spec fn inits_of(fields: Seq<FieldSpecView>, op: Finalization) -> Seq<FieldInitView> {
    Seq::new(fields.len(), |i: int| fields[i].init(op))
}

/// The read accessors of `fields`, in order.
pub open spec fn getters_of(fields: Seq<FieldSpecView>) -> Seq<AccessorView> {
    fields.filter_map(|f: FieldSpecView| f.getter())
}

/// The write accessors of `fields`, in order.
pub open spec fn setters_of(fields: Seq<FieldSpecView>) -> Seq<AccessorView> {
    fields.filter_map(|f: FieldSpecView| f.setter())
}

/// What is emitted for a configured record.
pub open spec fn expansion_of(record: RecordSpecView) -> ExpansionView {
    ExpansionView {
        struct_name: record.name,
        visibility: record.visibility,
        generics: record.generics,
        fields: defs_of(record.fields),
        builder_name: record.name + "Builder"@,
        builder_fields: slots_of(record.fields),
        builder_new_fields: slot_names_of(record.fields),
        builder_methods: slot_methods_of(record.fields),
        build_fields: inits_of(record.fields, Finalization::Strict),
        build_with_defaults_fields: inits_of(record.fields, Finalization::Defaulting),
        getters: getters_of(record.fields),
        setters: setters_of(record.fields),
    }
}

impl FieldSpec {
    /// The field's declaration.
    pub fn def(&self) -> (d: FieldDef)
        ensures
            d.deep_view() == self.deep_view().def(),
    {
        FieldDef { name: self.name.clone(), ty: self.ty.clone() }
    }

    /// The field's entry in the record literal of a finalization.
    pub fn init(&self, op: Finalization) -> (entry: FieldInit)
        ensures
            entry.deep_view() == self.deep_view().init(op),
    {
        FieldInit { field: self.name.clone(), strategy: resolve(&self.attrs, op) }
    }

    /// The chainable setter of the field's slot.
    pub fn slot_method(&self) -> (a: Accessor)
        ensures
            a.deep_view() == (AccessorView { method: self.name@, field: self.name@, ty: self.ty@ }),
    {
        Accessor { method: self.name.clone(), field: self.name.clone(), ty: self.ty.clone() }
    }

    /// The accessor of this field whose name starts with `prefix`.
    pub fn accessor(&self, prefix: &str) -> (a: Accessor)
        ensures
            a.deep_view() == (AccessorView {
                method: prefix@ + self.name@,
                field: self.name@,
                ty: self.ty@,
            }),
    {
        Accessor {
            method: joined(prefix, self.name.as_str()),
            field: self.name.clone(),
            ty: self.ty.clone(),
        }
    }
}

/// Synthesizes what is emitted for a configured record.
pub fn synthesize(record: &RecordSpec) -> (emitted: Expansion)
    ensures
        emitted.deep_view() == expansion_of(record.deep_view()),
{
    let n = record.fields.len();
    let ghost all = record.deep_view().fields;
    let mut fields: Vec<FieldDef> = Vec::new();
    let mut builder_fields: Vec<FieldDef> = Vec::new();
    let mut builder_new_fields: Vec<String> = Vec::new();
    let mut builder_methods: Vec<Accessor> = Vec::new();
    let mut build_fields: Vec<FieldInit> = Vec::new();
    let mut build_with_defaults_fields: Vec<FieldInit> = Vec::new();
    let mut getters: Vec<Accessor> = Vec::new();
    let mut setters: Vec<Accessor> = Vec::new();
    let mut i: usize = 0;
    while i < n
        invariant
            n == record.fields@.len(),
            all == record.deep_view().fields,
            i <= n,
            fields.deep_view() =~= defs_of(all.take(i as int)),
            builder_fields.deep_view() =~= slots_of(all.take(i as int)),
            builder_new_fields.deep_view() =~= slot_names_of(all.take(i as int)),
            builder_methods.deep_view() =~= slot_methods_of(all.take(i as int)),
            build_fields.deep_view() =~= inits_of(all.take(i as int), Finalization::Strict),
            build_with_defaults_fields.deep_view() =~= inits_of(
                all.take(i as int),
                Finalization::Defaulting,
            ),
            getters.deep_view() =~= getters_of(all.take(i as int)),
            setters.deep_view() =~= setters_of(all.take(i as int)),
        decreases n - i,
    {
        let field = &record.fields[i];
        let ghost this = all[i as int];
        proof {
            all.lemma_filter_map_take_succ(|f: FieldSpecView| f.slot(), i as int);
            all.lemma_filter_map_take_succ(|f: FieldSpecView| f.slot_name(), i as int);
            all.lemma_filter_map_take_succ(|f: FieldSpecView| f.slot_method(), i as int);
            all.lemma_filter_map_take_succ(|f: FieldSpecView| f.getter(), i as int);
            all.lemma_filter_map_take_succ(|f: FieldSpecView| f.setter(), i as int);
        }

        let ghost before = fields.deep_view();
        fields.push(field.def());
        assert(fields.deep_view() =~= before.push(this.def()));

        let ghost before = build_fields.deep_view();
        build_fields.push(field.init(Finalization::Strict));
        assert(build_fields.deep_view() =~= before.push(this.init(Finalization::Strict)));

        let ghost before = build_with_defaults_fields.deep_view();
        build_with_defaults_fields.push(field.init(Finalization::Defaulting));
        assert(build_with_defaults_fields.deep_view() =~= before.push(
            this.init(Finalization::Defaulting),
        ));

        if field.attrs.builder {
            builder_fields.push(field.def());
            builder_new_fields.push(field.name.clone());
            builder_methods.push(field.slot_method());
            if field.attrs.getter {
                getters.push(field.accessor("get_"));
            }
            if field.attrs.setter {
                setters.push(field.accessor("set_"));
            }
        }
        i += 1;
    }
    assert(all.take(n as int) =~= all);
    Expansion {
        struct_name: record.name.clone(),
        visibility: record.visibility.clone(),
        generics: record.generics.clone(),
        fields,
        builder_name: joined(record.name.as_str(), "Builder"),
        builder_fields,
        builder_new_fields,
        builder_methods,
        build_fields,
        build_with_defaults_fields,
        getters,
        setters,
    }
}

} // verus!
