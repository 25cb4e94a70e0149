//! What holds of every field's configuration, however it was annotated.

use vstd::prelude::*;
use crate::decl::Attribute;
use crate::error::SynthesisErrorView;
use crate::field_attributes::{
    builder_metas,
    declared_default,
    field_config,
    field_level,
    first_default,
    grants_getter,
    grants_of,
    grants_setter,
    has_key,
    merged,
    struct_level,
    DefaultStrategyView,
    FieldAttributesView,
    FieldConfigView,
};
use crate::meta::{metas_of, Meta};
use crate::model::entries;
use crate::strategy::{resolution, Finalization, StrategyView};

verus! {

/// A field without `builder` annotations, on a type without them, takes part
/// in the builder, is required, and has no accessors.
pub proof fn lemma_unannotated_field(name: Seq<char>)
    ensures
        field_config(name, Seq::empty(), Seq::empty()) == Ok::<
            FieldAttributesView,
            SynthesisErrorView,
        >(
            FieldAttributesView {
                getter: false,
                setter: false,
                builder: true,
                required: true,
                default: DefaultStrategyView::Unset,
            },
        ),
{
    let none = Seq::<Attribute>::empty();
    let keys = Seq::<Meta>::empty();
    assert(builder_metas(none) == Some(keys));
    assert(field_level(keys) is Some);
    assert(grants_of(keys) == Some(Seq::<FieldConfigView>::empty()));
}

/// What the attribute model yields is consistent: a required field has no
/// default.
pub proof fn lemma_config_is_consistent(
    name: Seq<char>,
    struct_attrs: Seq<Attribute>,
    field_attrs: Seq<Attribute>,
)
    ensures
        field_config(name, struct_attrs, field_attrs) matches Ok(attrs) ==> attrs.consistent(),
{
}

/// A list none of whose entries declares a default has none.
pub proof fn lemma_no_default_declared(metas: Seq<Meta>)
    requires
        forall|j: int| 0 <= j < metas.len() ==> declared_default(#[trigger] metas[j]) is Unset,
    ensures
        first_default(metas) is Unset,
    decreases metas.len(),
{
    if metas.len() > 0 {
        let earlier = metas.drop_last();
        assert forall|j: int| 0 <= j < earlier.len() implies declared_default(
            #[trigger] earlier[j],
        ) is Unset by {
            assert(earlier[j] == metas[j]);
        }
        lemma_no_default_declared(earlier);
        assert(metas.last() == metas[metas.len() - 1]);
    }
}

/// The default of a list is the one that its earliest declaring entry
/// declares; entries behind it do not change it.
pub proof fn lemma_earliest_default_stands(metas: Seq<Meta>, i: int)
    requires
        0 <= i < metas.len(),
        !(declared_default(metas[i]) is Unset),
        forall|j: int| 0 <= j < i ==> declared_default(#[trigger] metas[j]) is Unset,
    ensures
        first_default(metas) == declared_default(metas[i]),
    decreases metas.len(),
{
    let earlier = metas.drop_last();
    if i < metas.len() - 1 {
        assert(earlier[i] == metas[i]);
        assert forall|j: int| 0 <= j < i implies declared_default(#[trigger] earlier[j]) is Unset by {
            assert(earlier[j] == metas[j]);
        }
        lemma_earliest_default_stands(earlier, i);
    } else {
        assert forall|j: int| 0 <= j < earlier.len() implies declared_default(
            #[trigger] earlier[j],
        ) is Unset by {
            assert(earlier[j] == metas[j]);
        }
        lemma_no_default_declared(earlier);
    }
}

/// The keys of several annotations add up: reading two runs of annotations
/// one after the other gives the entries of the first followed by those of
/// the second, and is malformed exactly where one of the runs is.
pub proof fn lemma_annotations_add_up(first: Seq<Attribute>, second: Seq<Attribute>)
    ensures
        builder_metas(first + second) == match (builder_metas(first), builder_metas(second)) {
            (Some(a), Some(b)) => Some(a + b),
            _ => None::<Seq<Meta>>,
        },
    decreases second.len(),
{
    if second.len() == 0 {
        assert(first + second =~= first);
        if builder_metas(first) is Some {
            assert(builder_metas(first)->Some_0 + Seq::<Meta>::empty() =~= builder_metas(
                first,
            )->Some_0);
        }
    } else {
        assert((first + second).drop_last() =~= first + second.drop_last());
        assert((first + second).last() == second.last());
        lemma_annotations_add_up(first, second.drop_last());
        match (builder_metas(first), builder_metas(second.drop_last())) {
            (Some(a), Some(b)) => {
                let last = second.last();
                if last.names_builder() && last.args is Some {
                    match metas_of(last.args->Some_0@) {
                        Some(c) => {
                            assert((a + b) + c =~= a + (b + c));
                        },
                        None => {},
                    }
                }
            },
            _ => {},
        }
    }
}

/// Grants written on the type only add accessors to what the field's own
/// keys say; they leave everything else as it was.
pub proof fn lemma_grants_only_add(
    own: FieldAttributesView,
    grants: Seq<FieldConfigView>,
    name: Seq<char>,
)
    ensures
        merged(own, grants, name).getter == (own.getter || grants_getter(grants, name)),
        merged(own, grants, name).setter == (own.setter || grants_setter(grants, name)),
        merged(own, grants, name).builder == own.builder,
        merged(own, grants, name).required == own.required,
        merged(own, grants, name).default == own.default,
        own.getter ==> merged(own, grants, name).getter,
        own.setter ==> merged(own, grants, name).setter,
{
}

/// Grants for other fields change nothing: a name that no field bears is
/// passed over in silence.
pub proof fn lemma_foreign_grants_are_ignored(
    own: FieldAttributesView,
    grants: Seq<FieldConfigView>,
    name: Seq<char>,
)
    requires
        forall|i: int| 0 <= i < grants.len() ==> (#[trigger] grants[i]).name != name,
    ensures
        merged(own, grants, name) == own,
{
}

/// Merging is a disjunction, so the order in which grants are merged does
/// not matter, and merging them one after the other is merging them at once.
pub proof fn lemma_merge_commutes(
    own: FieldAttributesView,
    first: Seq<FieldConfigView>,
    second: Seq<FieldConfigView>,
    name: Seq<char>,
)
    ensures
        merged(merged(own, first, name), second, name) == merged(
            merged(own, second, name),
            first,
            name,
        ),
        merged(merged(own, first, name), second, name) == merged(own, first + second, name),
{
    let both = first + second;
    if grants_getter(first, name) {
        let i = choose|i: int|
            0 <= i < first.len() && (#[trigger] first[i]).name == name && first[i].getter;
        assert(both[i] == first[i]);
    }
    if grants_getter(second, name) {
        let i = choose|i: int|
            0 <= i < second.len() && (#[trigger] second[i]).name == name && second[i].getter;
        assert(both[first.len() + i] == second[i]);
    }
    if grants_getter(both, name) {
        let i = choose|i: int|
            0 <= i < both.len() && (#[trigger] both[i]).name == name && both[i].getter;
        if i < first.len() {
            assert(first[i] == both[i]);
        } else {
            assert(second[i - first.len()] == both[i]);
        }
    }
    if grants_setter(first, name) {
        let i = choose|i: int|
            0 <= i < first.len() && (#[trigger] first[i]).name == name && first[i].setter;
        assert(both[i] == first[i]);
    }
    if grants_setter(second, name) {
        let i = choose|i: int|
            0 <= i < second.len() && (#[trigger] second[i]).name == name && second[i].setter;
        assert(both[first.len() + i] == second[i]);
    }
    if grants_setter(both, name) {
        let i = choose|i: int|
            0 <= i < both.len() && (#[trigger] both[i]).name == name && both[i].setter;
        if i < first.len() {
            assert(first[i] == both[i]);
        } else {
            assert(second[i - first.len()] == both[i]);
        }
    }
}

/// A field that its own keys mark optional and that a grant on the type
/// gives a read accessor ends up both: not required, and with the accessor.
pub proof fn lemma_optional_and_granted(
    name: Seq<char>,
    struct_attrs: Seq<Attribute>,
    field_attrs: Seq<Attribute>,
)
    requires
        builder_metas(field_attrs) matches Some(keys) && field_level(keys) is Some && has_key(
            keys,
            "optional"@,
        ),
        struct_level(struct_attrs) matches Some(grants) && grants_getter(grants, name),
    ensures
        field_config(name, struct_attrs, field_attrs) matches Ok(attrs) && !attrs.required
            && attrs.getter,
{
}

/// A field whose keys mark it optional and give it a default expression
/// falls back to the expression, not to the empty optional, under both
/// finalizations.
pub proof fn lemma_optional_with_expression(keys: Seq<Meta>, source: Seq<char>, op: Finalization)
    requires
        field_level(keys) is Some,
        has_key(keys, "optional"@),
        !has_key(keys, "skip"@),
        first_default(keys) == DefaultStrategyView::Expression(source),
    ensures
        resolution(field_level(keys)->Some_0, op) == StrategyView::ExpressionIfAbsent(source),
{
}

} // verus!
