//! The attribute model: from annotations to one normalized configuration per
//! field.
//!
//! Field-level keys are read first. The grants written on the type itself are
//! read independently and then merged in; a grant can switch an accessor on,
//! never off.

use vstd::prelude::*;
use crate::decl::{Attribute, FieldDecl};
use crate::error::{SynthesisError, SynthesisErrorView};
use crate::meta::{meta_views, metas_of, parse_meta_list, Meta, MetaRef};
use crate::text::text_eq;

verus! {

/// How an absent field gets its value.
#[derive(Debug, PartialEq, Eq)]
pub enum DefaultStrategy {
    /// No default was declared.
    Unset,
    /// `default`: the field type's own default value.
    TraitDefault,
    /// `default = "<expression>"`: the expression, as source text.
    Expression(String),
}

/// The model of a [`DefaultStrategy`].
pub enum DefaultStrategyView {
    Unset,
    TraitDefault,
    Expression(Seq<char>),
}

impl DeepView for DefaultStrategy {
    type V = DefaultStrategyView;

    open spec fn deep_view(&self) -> DefaultStrategyView {
        match self {
            DefaultStrategy::Unset => DefaultStrategyView::Unset,
            DefaultStrategy::TraitDefault => DefaultStrategyView::TraitDefault,
            DefaultStrategy::Expression(source) => DefaultStrategyView::Expression(source@),
        }
    }
}

/// The normalized configuration of one field.
#[derive(Debug, PartialEq, Eq)]
pub struct FieldAttributes {
    /// A read accessor is wanted.
    pub getter: bool,
    /// A write accessor is wanted.
    pub setter: bool,
    /// The field takes part in the builder. Where it does not, every other
    /// flag is without effect.
    pub builder: bool,
    /// Finalization fails when the field was never set.
    pub required: bool,
    /// Where the value comes from when the field was never set.
    pub default: DefaultStrategy,
}

/// The model of a [`FieldAttributes`].
pub struct FieldAttributesView {
    pub getter: bool,
    pub setter: bool,
    pub builder: bool,
    pub required: bool,
    pub default: DefaultStrategyView,
}

impl DeepView for FieldAttributes {
    type V = FieldAttributesView;

    open spec fn deep_view(&self) -> FieldAttributesView {
        FieldAttributesView {
            getter: self.getter,
            setter: self.setter,
            builder: self.builder,
            required: self.required,
            default: self.default.deep_view(),
        }
    }
}

impl Default for DefaultStrategy {
    /// No default.
    fn default() -> (strategy: DefaultStrategy)
        ensures
            strategy == DefaultStrategy::Unset,
    {
        DefaultStrategy::Unset
    }
}

impl Default for FieldAttributes {
    /// Every flag off and no default.
    fn default() -> (attrs: FieldAttributes)
        ensures
            attrs == (FieldAttributes {
                getter: false,
                setter: false,
                builder: false,
                required: false,
                default: DefaultStrategy::Unset,
            }),
    {
        FieldAttributes {
            getter: false,
            setter: false,
            builder: false,
            required: false,
            default: DefaultStrategy::Unset,
        }
    }
}

impl FieldAttributesView {
    /// A field is required only while it has no default and was not marked
    /// optional; so a required field never carries a default.
    pub open spec fn consistent(self) -> bool {
        self.required ==> self.default is Unset
    }
}

/// One grant written on the type: `name(getter, setter)`.
#[derive(Debug, PartialEq, Eq)]
pub struct FieldConfig {
    /// The field the grant is for.
    pub name: String,
    /// The grant asks for a read accessor.
    pub getter: bool,
    /// The grant asks for a write accessor.
    pub setter: bool,
}

/// The model of a [`FieldConfig`].
pub struct FieldConfigView {
    pub name: Seq<char>,
    pub getter: bool,
    pub setter: bool,
}

impl DeepView for FieldConfig {
    type V = FieldConfigView;

    open spec fn deep_view(&self) -> FieldConfigView {
        FieldConfigView { name: self.name@, getter: self.getter, setter: self.setter }
    }
}

/// All grants written on a type, in source order.
#[derive(Debug, PartialEq, Eq)]
pub struct FieldConfigs(pub Vec<FieldConfig>);

impl DeepView for FieldConfigs {
    type V = Seq<FieldConfigView>;

    open spec fn deep_view(&self) -> Seq<FieldConfigView> {
        self.0.deep_view()
    }
}

/// Whether the bare key `key` occurs among `metas`.
pub open spec fn has_key(metas: Seq<Meta>, key: Seq<char>) -> bool {
    metas.contains(Meta::Path(key))
}

/// The entries of all `builder` annotations among `attrs`, in source order.
/// `None` where one of them has no parenthesized arguments or a malformed
/// list. Annotations of other names are passed over.
pub open spec fn builder_metas(attrs: Seq<Attribute>) -> Option<Seq<Meta>>
    decreases attrs.len(),
{
    if attrs.len() == 0 {
        Some(Seq::empty())
    } else {
        let last = attrs.last();
        match builder_metas(attrs.drop_last()) {
            None => None,
            Some(before) => {
                if !last.names_builder() {
                    Some(before)
                } else {
                    match last.args {
                        None => None,
                        Some(toks) => match metas_of(toks@) {
                            None => None,
                            Some(entries) => Some(before + entries),
                        },
                    }
                }
            },
        }
    }
}

/// Whether an entry may stand in a field-level list: any bare key, or
/// `default` with a value.
pub open spec fn field_key_ok(m: Meta) -> bool {
    match m {
        Meta::Path(_) => true,
        Meta::NameValue(key, _) => key == "default"@,
        Meta::List(_, _) => false,
    }
}

/// The default that a single entry declares.
pub open spec fn declared_default(m: Meta) -> DefaultStrategyView {
    match m {
        Meta::Path(key) => if key == "default"@ {
            DefaultStrategyView::TraitDefault
        } else {
            DefaultStrategyView::Unset
        },
        Meta::NameValue(key, source) => if key == "default"@ {
            DefaultStrategyView::Expression(source)
        } else {
            DefaultStrategyView::Unset
        },
        Meta::List(_, _) => DefaultStrategyView::Unset,
    }
}

/// The default that a list declares: that of its first entry that declares
/// one. A later `default` does not replace an earlier one.
pub open spec fn first_default(metas: Seq<Meta>) -> DefaultStrategyView
    decreases metas.len(),
{
    if metas.len() == 0 {
        DefaultStrategyView::Unset
    } else {
        let earlier = first_default(metas.drop_last());
        if earlier is Unset {
            declared_default(metas.last())
        } else {
            earlier
        }
    }
}

/// The configuration that a field's own keys give it, before any grant is
/// merged in. `None` where an entry may not stand in a field-level list.
///
/// Without keys a field takes part in the builder and is required. Keys only
/// add to one another; unknown bare keys say nothing.
pub open spec fn field_level(metas: Seq<Meta>) -> Option<FieldAttributesView> {
    if forall|i: int| 0 <= i < metas.len() ==> field_key_ok(#[trigger] metas[i]) {
        let default = first_default(metas);
        Some(
            FieldAttributesView {
                getter: has_key(metas, "getter"@),
                setter: has_key(metas, "setter"@),
                builder: !has_key(metas, "skip"@),
                required: !has_key(metas, "optional"@) && default is Unset,
                default,
            },
        )
    } else {
        None
    }
}

/// The grant that one type-level entry spells: `name(keys)`, where the keys
/// form a well-formed list. Of the keys only the bare `getter` and `setter`
/// count.
pub open spec fn grant_of(m: Meta) -> Option<FieldConfigView> {
    match m {
        Meta::List(name, inner) => match metas_of(inner) {
            Some(keys) => Some(
                FieldConfigView {
                    name,
                    getter: has_key(keys, "getter"@),
                    setter: has_key(keys, "setter"@),
                },
            ),
            None => None,
        },
        _ => None,
    }
}

/// The grants that a list of type-level entries spells; `None` where one of
/// the entries is no grant.
pub open spec fn grants_of(metas: Seq<Meta>) -> Option<Seq<FieldConfigView>> {
    if forall|i: int| 0 <= i < metas.len() ==> (#[trigger] grant_of(metas[i])) is Some {
        Some(Seq::new(metas.len(), |i: int| grant_of(metas[i]).unwrap()))
    } else {
        None
    }
}

/// The grants written on a type; `None` where one of its `builder`
/// annotations is malformed.
pub open spec fn struct_level(attrs: Seq<Attribute>) -> Option<Seq<FieldConfigView>> {
    match builder_metas(attrs) {
        Some(metas) => grants_of(metas),
        None => None,
    }
}

/// Whether some grant for `name` asks for a read accessor.
pub open spec fn grants_getter(grants: Seq<FieldConfigView>, name: Seq<char>) -> bool {
    exists|i: int| 0 <= i < grants.len() && (#[trigger] grants[i]).name == name && grants[i].getter
}

/// Whether some grant for `name` asks for a write accessor.
pub open spec fn grants_setter(grants: Seq<FieldConfigView>, name: Seq<char>) -> bool {
    exists|i: int| 0 <= i < grants.len() && (#[trigger] grants[i]).name == name && grants[i].setter
}

/// A field-level configuration with the type-level grants for `name` merged
/// in: each accessor flag is the field's own or a grant's; nothing else
/// changes. Grants for other names have no effect.
pub open spec fn merged(
    own: FieldAttributesView,
    grants: Seq<FieldConfigView>,
    name: Seq<char>,
) -> FieldAttributesView {
    FieldAttributesView {
        getter: own.getter || grants_getter(grants, name),
        setter: own.setter || grants_setter(grants, name),
        ..own
    }
}

/// The configuration of the field `name`: its own keys, then the grants.
/// The error is the field's where its own annotations are malformed, and the
/// type's where they are sound and the type's are not.
pub open spec fn field_config(
    name: Seq<char>,
    struct_attrs: Seq<Attribute>,
    field_attrs: Seq<Attribute>,
) -> Result<FieldAttributesView, SynthesisErrorView> {
    match builder_metas(field_attrs) {
        None => Err(SynthesisErrorView::MalformedFieldAttribute(name)),
        Some(metas) => match field_level(metas) {
            None => Err(SynthesisErrorView::MalformedFieldAttribute(name)),
            Some(own) => match struct_level(struct_attrs) {
                None => Err(SynthesisErrorView::MalformedStructAttribute),
                Some(grants) => Ok(merged(own, grants, name)),
            },
        },
    }
}

/// A malformed annotation among the first `k` stays malformed however the
/// list goes on.
proof fn lemma_builder_metas_prefix(attrs: Seq<Attribute>, k: int)
    requires
        0 <= k <= attrs.len(),
        builder_metas(attrs.take(k)) is None,
    ensures
        builder_metas(attrs) is None,
    decreases attrs.len() - k,
{
    if k < attrs.len() {
        assert(attrs.take(k + 1).drop_last() =~= attrs.take(k));
        lemma_builder_metas_prefix(attrs, k + 1);
    } else {
        assert(attrs.take(k) =~= attrs);
    }
}

/// Reads the entries of all `builder` annotations among `attrs`.
pub fn collect_builder_metas<'a>(attrs: &'a [Attribute]) -> (found: Option<Vec<MetaRef<'a>>>)
    ensures
        match found {
            Some(items) => builder_metas(attrs@) == Some(meta_views(items@)),
            None => builder_metas(attrs@) is None,
        },
{
    let n = attrs.len();
    let mut items: Vec<MetaRef<'a>> = Vec::new();
    let mut i: usize = 0;
    while i < n
        invariant
            n == attrs@.len(),
            i <= n,
            builder_metas(attrs@.take(i as int)) == Some(meta_views(items@)),
        decreases n - i,
    {
        let attr = &attrs[i];
        assert(attrs@.take(i + 1).drop_last() =~= attrs@.take(i as int));
        if attr.is_builder() {
            match &attr.args {
                None => {
                    proof {
                        lemma_builder_metas_prefix(attrs@, i + 1);
                    }
                    return None;
                },
                Some(toks) => match parse_meta_list(toks) {
                    None => {
                        proof {
                            lemma_builder_metas_prefix(attrs@, i + 1);
                        }
                        return None;
                    },
                    Some(mut entries) => {
                        items.append(&mut entries);
                    },
                },
            }
        }
        i += 1;
    }
    assert(attrs@.take(n as int) =~= attrs@);
    Some(items)
}

/// Whether the bare key `key` occurs among `items`.
pub fn has_bare_key(items: &Vec<MetaRef<'_>>, key: &str) -> (found: bool)
    ensures
        found == has_key(meta_views(items@), key@),
{
    let n = items.len();
    let mut i: usize = 0;
    while i < n
        invariant
            n == items@.len(),
            i <= n,
            forall|j: int| 0 <= j < i ==> meta_views(items@)[j] != Meta::Path(key@),
        decreases n - i,
    {
        match &items[i] {
            MetaRef::Path(k) => {
                if text_eq(k.as_str(), key) {
                    assert(meta_views(items@)[i as int] == Meta::Path(key@));
                    return true;
                }
            },
            _ => {},
        }
        i += 1;
    }
    false
}

impl DefaultStrategy {
    /// The default that a single entry declares.
    pub fn declared_by(entry: &MetaRef<'_>) -> (strategy: DefaultStrategy)
        ensures
            strategy.deep_view() == declared_default(entry@),
    {
        match entry {
            MetaRef::Path(key) => {
                if text_eq(key.as_str(), "default") {
                    DefaultStrategy::TraitDefault
                } else {
                    DefaultStrategy::Unset
                }
            },
            MetaRef::NameValue(key, source) => {
                if text_eq(key.as_str(), "default") {
                    DefaultStrategy::Expression((*source).clone())
                } else {
                    DefaultStrategy::Unset
                }
            },
            MetaRef::List(_, _) => DefaultStrategy::Unset,
        }
    }

    /// The default that a list declares: that of its first entry that
    /// declares one.
    pub fn first_declared(items: &Vec<MetaRef<'_>>) -> (strategy: DefaultStrategy)
        ensures
            strategy.deep_view() == first_default(meta_views(items@)),
    {
        let n = items.len();
        let mut i: usize = 0;
        let ghost metas = meta_views(items@);
        while i < n
            invariant
                n == items@.len(),
                metas == meta_views(items@),
                i <= n,
                first_default(metas.take(i as int)) is Unset,
            decreases n - i,
        {
            let declared = DefaultStrategy::declared_by(&items[i]);
            assert(metas.take(i + 1).drop_last() =~= metas.take(i as int));
            match declared {
                DefaultStrategy::Unset => {},
                _ => {
                    proof {
                        lemma_first_default_stays(metas, i + 1);
                    }
                    return declared;
                },
            }
            i += 1;
        }
        assert(metas.take(n as int) =~= metas);
        DefaultStrategy::Unset
    }
}

/// Once a prefix has declared a default, the rest of the list does not
/// change it.
proof fn lemma_first_default_stays(metas: Seq<Meta>, k: int)
    requires
        0 <= k <= metas.len(),
        !(first_default(metas.take(k)) is Unset),
    ensures
        first_default(metas) == first_default(metas.take(k)),
    decreases metas.len() - k,
{
    if k < metas.len() {
        assert(metas.take(k + 1).drop_last() =~= metas.take(k));
        lemma_first_default_stays(metas, k + 1);
    } else {
        assert(metas.take(k) =~= metas);
    }
}

/// Whether every entry of `items` may stand in a field-level list.
fn all_field_keys(items: &Vec<MetaRef<'_>>) -> (ok: bool)
    ensures
        ok == (forall|i: int|
            0 <= i < items@.len() ==> field_key_ok(#[trigger] meta_views(items@)[i])),
{
    let n = items.len();
    let mut i: usize = 0;
    while i < n
        invariant
            n == items@.len(),
            i <= n,
            forall|j: int| 0 <= j < i ==> field_key_ok(#[trigger] meta_views(items@)[j]),
        decreases n - i,
    {
        let ok = match &items[i] {
            MetaRef::Path(_) => true,
            MetaRef::NameValue(key, _) => text_eq(key.as_str(), "default"),
            MetaRef::List(_, _) => false,
        };
        if !ok {
            assert(!field_key_ok(meta_views(items@)[i as int]));
            return false;
        }
        i += 1;
    }
    true
}

impl FieldConfig {
    /// Reads one type-level entry, `name(getter, setter)`.
    ///
    /// Fails where the entry is no key with a parenthesized list, or where
    /// that list is malformed. Keys other than `getter` and `setter` are
    /// passed over.
    pub fn parse(entry: &MetaRef<'_>) -> (grant: Option<FieldConfig>)
        ensures
            grant.deep_view() == grant_of(entry@),
    {
        match entry {
            MetaRef::List(name, inner) => match parse_meta_list(inner) {
                Some(keys) => Some(
                    FieldConfig {
                        name: (*name).clone(),
                        getter: has_bare_key(&keys, "getter"),
                        setter: has_bare_key(&keys, "setter"),
                    },
                ),
                None => None,
            },
            _ => None,
        }
    }
}

impl FieldConfigs {
    /// Reads the grants written on a type.
    ///
    /// Fails where one of the type's `builder` annotations is malformed.
    pub fn parse(struct_attrs: &[Attribute]) -> (grants: Option<FieldConfigs>)
        ensures
            grants.deep_view() == struct_level(struct_attrs@),
    {
        let items = match collect_builder_metas(struct_attrs) {
            Some(items) => items,
            None => {
                return None;
            },
        };
        let ghost metas = meta_views(items@);
        let n = items.len();
        let mut grants: Vec<FieldConfig> = Vec::new();
        let mut i: usize = 0;
        while i < n
            invariant
                n == items@.len(),
                metas == meta_views(items@),
                builder_metas(struct_attrs@) == Some(metas),
                i <= n,
                grants@.len() == i,
                forall|j: int| 0 <= j < i ==> (#[trigger] grant_of(metas[j])) is Some,
                forall|j: int|
                    0 <= j < i ==> (#[trigger] grants@[j]).deep_view() == grant_of(
                        metas[j],
                    ).unwrap(),
            decreases n - i,
        {
            match FieldConfig::parse(&items[i]) {
                Some(grant) => {
                    grants.push(grant);
                },
                None => {
                    assert(grant_of(metas[i as int]) is None);
                    return None;
                },
            }
            i += 1;
        }
        Some(FieldConfigs(grants))
    }

    /// Whether some grant for `name` asks for a read accessor.
    pub fn grants_getter(&self, name: &str) -> (yes: bool)
        ensures
            yes == grants_getter(self.deep_view(), name@),
    {
        let n = self.0.len();
        let mut i: usize = 0;
        while i < n
            invariant
                n == self.0@.len(),
                i <= n,
                forall|j: int|
                    0 <= j < i ==> !((#[trigger] self.deep_view()[j]).name == name@
                        && self.deep_view()[j].getter),
            decreases n - i,
        {
            if self.0[i].getter && text_eq(self.0[i].name.as_str(), name) {
                assert(self.deep_view()[i as int].name == name@ && self.deep_view()[i as int].getter);
                return true;
            }
            i += 1;
        }
        false
    }

    /// Whether some grant for `name` asks for a write accessor.
    pub fn grants_setter(&self, name: &str) -> (yes: bool)
        ensures
            yes == grants_setter(self.deep_view(), name@),
    {
        let n = self.0.len();
        let mut i: usize = 0;
        while i < n
            invariant
                n == self.0@.len(),
                i <= n,
                forall|j: int|
                    0 <= j < i ==> !((#[trigger] self.deep_view()[j]).name == name@
                        && self.deep_view()[j].setter),
            decreases n - i,
        {
            if self.0[i].setter && text_eq(self.0[i].name.as_str(), name) {
                assert(self.deep_view()[i as int].name == name@ && self.deep_view()[i as int].setter);
                return true;
            }
            i += 1;
        }
        false
    }
}

impl FieldAttributes {
    /// The configuration that a field's own keys give it.
    ///
    /// Fails where an entry may not stand in a field-level list: a key with a
    /// value other than `default`, or a key with a list.
    pub fn from_metas(items: &Vec<MetaRef<'_>>) -> (own: Option<FieldAttributes>)
        ensures
            own.deep_view() == field_level(meta_views(items@)),
    {
        if !all_field_keys(items) {
            return None;
        }
        let default = DefaultStrategy::first_declared(items);
        let unset = match &default {
            DefaultStrategy::Unset => true,
            _ => false,
        };
        Some(
            FieldAttributes {
                getter: has_bare_key(items, "getter"),
                setter: has_bare_key(items, "setter"),
                builder: !has_bare_key(items, "skip"),
                required: !has_bare_key(items, "optional") && unset,
                default,
            },
        )
    }

    /// Merges the type-level grants for the field `name` into its own
    /// configuration. A grant adds an accessor; nothing is ever taken away.
    pub fn merge(self, grants: &FieldConfigs, name: &str) -> (both: FieldAttributes)
        ensures
            both.deep_view() == merged(self.deep_view(), grants.deep_view(), name@),
    {
        FieldAttributes {
            getter: self.getter || grants.grants_getter(name),
            setter: self.setter || grants.grants_setter(name),
            builder: self.builder,
            required: self.required,
            default: self.default,
        }
    }

    /// The configuration of one field, from its own annotations and those of
    /// the type.
    ///
    /// A field without annotations takes part in the builder and is
    /// required. Malformed annotations are reported, the field's own first.
    pub fn from_field(
        field: &FieldDecl,
        struct_attrs: &[Attribute],
        field_attrs: &[Attribute],
    ) -> (config: Result<FieldAttributes, SynthesisError>)
        ensures
            match config {
                Ok(attrs) => field_config(field.name@, struct_attrs@, field_attrs@) == Ok::<
                    FieldAttributesView,
                    SynthesisErrorView,
                >(attrs.deep_view()),
                Err(e) => field_config(field.name@, struct_attrs@, field_attrs@) == Err::<
                    FieldAttributesView,
                    SynthesisErrorView,
                >(e.deep_view()),
            },
    {
        let own = match collect_builder_metas(field_attrs) {
            Some(items) => FieldAttributes::from_metas(&items),
            None => None,
        };
        match own {
            None => Err(SynthesisError::MalformedFieldAttribute(field.name.clone())),
            Some(own) => match FieldConfigs::parse(struct_attrs) {
                None => Err(SynthesisError::MalformedStructAttribute),
                Some(grants) => Ok(own.merge(&grants, field.name.as_str())),
            },
        }
    }
}

} // verus!
