//! What the emitted builder does when it runs.
//!
//! The emitted code is ordinary Rust that the host compiler checks. This
//! module states its behaviour in a form that can be reasoned about and run:
//! a builder holds one slot for each of its fields, a setter fills the slot
//! of its name, and a finalization goes through the record's fields in
//! declaration order and takes each value from where the field's strategy
//! says.

use vstd::prelude::*;
use crate::error::{BuildError, BuildErrorView};
use crate::expansion::{Expansion, ExpansionView, FieldDef, FieldDefView, FieldInit, FieldInitView};
use crate::strategy::{Finalization, Strategy, StrategyView};
use crate::text::text_eq;

verus! {

/// The value of one field of a finished record.
#[derive(Debug, PartialEq, Eq)]
pub enum FieldValue<V> {
    /// The value that a setter of the builder put there.
    Provided(V),
    /// The default value of the field's type.
    TraitDefault,
    /// The value of the default expression whose source text is the payload.
    Evaluated(String),
    /// The empty optional.
    Empty,
}

/// The model of a [`FieldValue`].
pub enum FieldValueView<V> {
    Provided(V),
    TraitDefault,
    Evaluated(Seq<char>),
    Empty,
}

impl<V> DeepView for FieldValue<V> {
    type V = FieldValueView<V>;

    open spec fn deep_view(&self) -> FieldValueView<V> {
        match *self {
            FieldValue::Provided(v) => FieldValueView::Provided(v),
            FieldValue::TraitDefault => FieldValueView::TraitDefault,
            FieldValue::Evaluated(source) => FieldValueView::Evaluated(source@),
            FieldValue::Empty => FieldValueView::Empty,
        }
    }
}

/// Whether `i` is the first among `defs` that is named `name`.
pub open spec fn is_slot_of(defs: Seq<FieldDefView>, name: Seq<char>, i: int) -> bool {
    &&& 0 <= i < defs.len()
    &&& defs[i].name == name
    &&& forall|j: int| 0 <= j < i ==> (#[trigger] defs[j]).name != name
}

/// The index of the slot that the name stands for, if there is one.
pub open spec fn slot_of(defs: Seq<FieldDefView>, name: Seq<char>) -> Option<int> {
    if exists|i: int| is_slot_of(defs, name, i) {
        Some(choose|i: int| is_slot_of(defs, name, i))
    } else {
        None
    }
}

/// A name stands for at most one slot.
pub proof fn lemma_slot_is_unique(defs: Seq<FieldDefView>, name: Seq<char>, i: int, k: int)
    requires
        is_slot_of(defs, name, i),
        is_slot_of(defs, name, k),
    ensures
        i == k,
{
}

/// What the builder holds for the field `name`: the content of its slot, and
/// nothing where the builder has no slot of that name.
pub open spec fn held<V>(plan: ExpansionView, slots: Seq<Option<V>>, name: Seq<char>) -> Option<V> {
    match slot_of(plan.builder_fields, name) {
        Some(i) => if i < slots.len() {
            slots[i]
        } else {
            None
        },
        None => None,
    }
}

/// The value that one entry of a record literal yields, given what the
/// builder holds for the field.
pub open spec fn filled<V>(entry: FieldInitView, held: Option<V>) -> Result<
    FieldValueView<V>,
    BuildErrorView,
> {
    match entry.strategy {
        StrategyView::AlwaysTraitDefault => Ok(FieldValueView::TraitDefault),
        StrategyView::RequireOrError => match held {
            Some(v) => Ok(FieldValueView::Provided(v)),
            None => Err(BuildErrorView::MissingDependency(entry.field)),
        },
        StrategyView::TraitDefaultIfAbsent => match held {
            Some(v) => Ok(FieldValueView::Provided(v)),
            None => Ok(FieldValueView::TraitDefault),
        },
        StrategyView::ExpressionIfAbsent(source) => match held {
            Some(v) => Ok(FieldValueView::Provided(v)),
            None => Ok(FieldValueView::Evaluated(source)),
        },
        StrategyView::EmptyOptionalIfAbsent => match held {
            Some(v) => Ok(FieldValueView::Provided(v)),
            None => Ok(FieldValueView::Empty),
        },
    }
}

/// The entries of a finalization's record literal.
pub open spec fn entries(plan: ExpansionView, op: Finalization) -> Seq<FieldInitView> {
    match op {
        Finalization::Strict => plan.build_fields,
        Finalization::Defaulting => plan.build_with_defaults_fields,
    }
}

/// What the `i`-th entry of a finalization yields.
pub open spec fn yield_at<V>(
    plan: ExpansionView,
    op: Finalization,
    slots: Seq<Option<V>>,
    i: int,
) -> Result<FieldValueView<V>, BuildErrorView> {
    filled(entries(plan, op)[i], held(plan, slots, entries(plan, op)[i].field))
}

/// Whether the `i`-th entry is the first that fails.
pub open spec fn first_failure<V>(
    plan: ExpansionView,
    op: Finalization,
    slots: Seq<Option<V>>,
    i: int,
) -> bool {
    &&& 0 <= i < entries(plan, op).len()
    &&& yield_at(plan, op, slots, i) is Err
    &&& forall|j: int| 0 <= j < i ==> yield_at(plan, op, slots, j) is Ok
}

/// What a finalization returns: the error of the first entry that fails, or
/// else the values of all fields in declaration order.
pub open spec fn finalized<V>(plan: ExpansionView, op: Finalization, slots: Seq<Option<V>>) -> Result<
    Seq<FieldValueView<V>>,
    BuildErrorView,
> {
    if exists|i: int| first_failure(plan, op, slots, i) {
        let i = choose|i: int| first_failure(plan, op, slots, i);
        Err(yield_at(plan, op, slots, i)->Err_0)
    } else {
        Ok(Seq::new(entries(plan, op).len(), |i: int| yield_at(plan, op, slots, i)->Ok_0))
    }
}

/// The slots of a builder on which no setter was called.
pub open spec fn fresh<V>(plan: ExpansionView) -> Seq<Option<V>> {
    Seq::new(plan.builder_fields.len(), |i: int| None::<V>)
}

/// The slots after the setter `name` was called with `value`. A name that no
/// setter has leaves them as they were.
pub open spec fn after_set<V>(
    plan: ExpansionView,
    slots: Seq<Option<V>>,
    name: Seq<char>,
    value: V,
) -> Seq<Option<V>> {
    match slot_of(plan.builder_fields, name) {
        Some(i) => if i < slots.len() {
            slots.update(i, Some(value))
        } else {
            slots
        },
        None => slots,
    }
}

/// Finds the slot that a name stands for.
pub fn find_slot(defs: &Vec<FieldDef>, name: &str) -> (found: Option<usize>)
    ensures
        match found {
            Some(i) => slot_of(defs.deep_view(), name@) == Some(i as int),
            None => slot_of(defs.deep_view(), name@) is None,
        },
{
    let n = defs.len();
    let mut i: usize = 0;
    while i < n
        invariant
            n == defs@.len(),
            i <= n,
            forall|j: int| 0 <= j < i ==> (#[trigger] defs.deep_view()[j]).name != name@,
        decreases n - i,
    {
        if text_eq(defs[i].name.as_str(), name) {
            proof {
                let k = choose|k: int| is_slot_of(defs.deep_view(), name@, k);
                lemma_slot_is_unique(defs.deep_view(), name@, i as int, k);
            }
            return Some(i);
        }
        i += 1;
    }
    proof {
        lemma_no_slot(defs.deep_view(), name@);
    }
    None
}

/// Where no slot has the name, the name stands for none.
proof fn lemma_no_slot(defs: Seq<FieldDefView>, name: Seq<char>)
    requires
        forall|j: int| 0 <= j < defs.len() ==> (#[trigger] defs[j]).name != name,
    ensures
        slot_of(defs, name) is None,
{
}

/// A builder as it is at run time: the plan it was emitted from, and what
/// its slots hold. `V` stands for the values of the fields.
pub struct BuilderModel<'a, V: Copy> {
    plan: &'a Expansion,
    slots: Vec<Option<V>>,
}

impl<'a, V: Copy> BuilderModel<'a, V> {
    #[verifier::type_invariant]
    spec fn well_formed(self) -> bool {
        self.slots@.len() == self.plan.builder_fields@.len()
    }

    /// The plan that the builder was emitted from.
    pub closed spec fn plan(self) -> ExpansionView {
        self.plan.deep_view()
    }

    /// What the slots hold, in the order of the plan's builder fields.
    pub closed spec fn slots(self) -> Seq<Option<V>> {
        self.slots@
    }

    /// The builder as its constructor leaves it: every slot absent.
    pub fn new(plan: &'a Expansion) -> (builder: Self)
        ensures
            builder.plan() == plan.deep_view(),
            builder.slots() == fresh::<V>(plan.deep_view()),
    {
        let n = plan.builder_fields.len();
        let mut slots: Vec<Option<V>> = Vec::new();
        let mut i: usize = 0;
        while i < n
            invariant
                n == plan.builder_fields@.len(),
                i <= n,
                slots@.len() == i,
                forall|j: int| 0 <= j < i ==> slots@[j] == None::<V>,
            decreases n - i,
        {
            slots.push(None);
            i += 1;
        }
        BuilderModel { plan, slots }
    }

    /// The chainable setter of the field `name`: stores the value in the
    /// field's slot, in place of whatever was there, and hands the builder
    /// back. The builder has no setter for a name without a slot; such a
    /// call changes nothing.
    pub fn set(self, name: &str, value: V) -> (builder: Self)
        ensures
            builder.plan() == self.plan(),
            builder.slots() == after_set(self.plan(), self.slots(), name@, value),
            builder.slots().len() == self.slots().len(),
    {
        proof {
            use_type_invariant(&self);
        }
        let BuilderModel { plan, mut slots } = self;
        match find_slot(&plan.builder_fields, name) {
            Some(i) => {
                slots.set(i, Some(value));
            },
            None => {},
        }
        BuilderModel { plan, slots }
    }

    /// What the builder holds for the field `name`.
    pub fn held(&self, name: &str) -> (value: Option<V>)
        ensures
            value == held(self.plan(), self.slots(), name@),
    {
        proof {
            use_type_invariant(self);
        }
        match find_slot(&self.plan.builder_fields, name) {
            Some(i) => self.slots[i],
            None => None,
        }
    }

    /// Evaluates one entry of a record literal.
    fn fill(&self, entry: &FieldInit) -> (value: Result<FieldValue<V>, BuildError>)
        ensures
            match value {
                Ok(v) => filled(
                    entry.deep_view(),
                    held(self.plan(), self.slots(), entry.field@),
                ) == Ok::<FieldValueView<V>, BuildErrorView>(v.deep_view()),
                Err(e) => filled(
                    entry.deep_view(),
                    held(self.plan(), self.slots(), entry.field@),
                ) == Err::<FieldValueView<V>, BuildErrorView>(e.deep_view()),
            },
    {
        match &entry.strategy {
            Strategy::AlwaysTraitDefault => Ok(FieldValue::TraitDefault),
            Strategy::RequireOrError => match self.held(entry.field.as_str()) {
                Some(v) => Ok(FieldValue::Provided(v)),
                None => Err(BuildError::MissingDependency(entry.field.clone())),
            },
            Strategy::TraitDefaultIfAbsent => match self.held(entry.field.as_str()) {
                Some(v) => Ok(FieldValue::Provided(v)),
                None => Ok(FieldValue::TraitDefault),
            },
            Strategy::ExpressionIfAbsent(source) => match self.held(entry.field.as_str()) {
                Some(v) => Ok(FieldValue::Provided(v)),
                None => Ok(FieldValue::Evaluated(source.clone())),
            },
            Strategy::EmptyOptionalIfAbsent => match self.held(entry.field.as_str()) {
                Some(v) => Ok(FieldValue::Provided(v)),
                None => Ok(FieldValue::Empty),
            },
        }
    }

    /// Runs one of the two finalizations.
    pub fn finalize(self, op: Finalization) -> (outcome: Result<Vec<FieldValue<V>>, BuildError>)
        ensures
            match outcome {
                Ok(values) => finalized(self.plan(), op, self.slots()) == Ok::<
                    Seq<FieldValueView<V>>,
                    BuildErrorView,
                >(values.deep_view()),
                Err(e) => finalized(self.plan(), op, self.slots()) == Err::<
                    Seq<FieldValueView<V>>,
                    BuildErrorView,
                >(e.deep_view()),
            },
    {
        let inits = match op {
            Finalization::Strict => &self.plan.build_fields,
            Finalization::Defaulting => &self.plan.build_with_defaults_fields,
        };
        let ghost plan = self.plan();
        let ghost slots = self.slots();
        let n = inits.len();
        let mut values: Vec<FieldValue<V>> = Vec::new();
        let mut i: usize = 0;
        while i < n
            invariant
                n == inits@.len(),
                plan == self.plan(),
                slots == self.slots(),
                inits.deep_view() == entries(plan, op),
                i <= n,
                values@.len() == i,
                forall|j: int| 0 <= j < i ==> yield_at(plan, op, slots, j) is Ok,
                forall|j: int|
                    0 <= j < i ==> (#[trigger] values@[j]).deep_view() == yield_at(
                        plan,
                        op,
                        slots,
                        j,
                    )->Ok_0,
            decreases n - i,
        {
            match self.fill(&inits[i]) {
                Ok(value) => {
                    values.push(value);
                },
                Err(e) => {
                    proof {
                        // every entry before this one succeeds, so every
                        // first failure is this one
                        assert(first_failure(plan, op, slots, i as int));
                        let k = choose|k: int| first_failure(plan, op, slots, k);
                        assert(k == i);
                    }
                    return Err(e);
                },
            }
            i += 1;
        }
        assert(values.deep_view() =~= Seq::new(
            entries(plan, op).len(),
            |i: int| yield_at(plan, op, slots, i)->Ok_0,
        ));
        Ok(values)
    }

    /// The strict finalization.
    pub fn build(self) -> (outcome: Result<Vec<FieldValue<V>>, BuildError>)
        ensures
            match outcome {
                Ok(values) => finalized(self.plan(), Finalization::Strict, self.slots()) == Ok::<
                    Seq<FieldValueView<V>>,
                    BuildErrorView,
                >(values.deep_view()),
                Err(e) => finalized(self.plan(), Finalization::Strict, self.slots()) == Err::<
                    Seq<FieldValueView<V>>,
                    BuildErrorView,
                >(e.deep_view()),
            },
    {
        self.finalize(Finalization::Strict)
    }

    /// The defaulting finalization.
    pub fn build_with_defaults(self) -> (outcome: Result<Vec<FieldValue<V>>, BuildError>)
        ensures
            match outcome {
                Ok(values) => finalized(self.plan(), Finalization::Defaulting, self.slots())
                    == Ok::<Seq<FieldValueView<V>>, BuildErrorView>(values.deep_view()),
                Err(e) => finalized(self.plan(), Finalization::Defaulting, self.slots()) == Err::<
                    Seq<FieldValueView<V>>,
                    BuildErrorView,
                >(e.deep_view()),
            },
    {
        self.finalize(Finalization::Defaulting)
    }
}

} // verus!
