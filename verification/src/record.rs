//! A record type with its fields' normalized configurations.

use vstd::prelude::*;
use crate::decl::{RecordDecl, Shape};
use crate::error::{SynthesisError, SynthesisErrorView};
use crate::field_attributes::{
    collect_builder_metas,
    field_config,
    struct_level,
    FieldAttributes,
    FieldAttributesView,
    FieldConfigs,
};

verus! {

/// One field of a record, configured.
#[derive(Debug, PartialEq, Eq)]
pub struct FieldSpec {
    /// The field's identifier.
    pub name: String,
    /// The field's declared type, passed through untouched.
    pub ty: String,
    /// The field's normalized configuration.
    pub attrs: FieldAttributes,
}

/// The model of a [`FieldSpec`].
pub struct FieldSpecView {
    pub name: Seq<char>,
    pub ty: Seq<char>,
    pub attrs: FieldAttributesView,
}

impl DeepView for FieldSpec {
    type V = FieldSpecView;

    open spec fn deep_view(&self) -> FieldSpecView {
        FieldSpecView { name: self.name@, ty: self.ty@, attrs: self.attrs.deep_view() }
    }
}

/// A whole record, configured. The order of the fields is that of the
/// declaration; it fixes the order of everything that is emitted.
#[derive(Debug, PartialEq, Eq)]
pub struct RecordSpec {
    /// The type's identifier.
    pub name: String,
    /// The type's visibility, passed through untouched.
    pub visibility: String,
    /// The type's generic parameters and bounds, passed through untouched.
    pub generics: String,
    /// The fields in declaration order.
    pub fields: Vec<FieldSpec>,
}

/// The model of a [`RecordSpec`].
pub struct RecordSpecView {
    pub name: Seq<char>,
    pub visibility: Seq<char>,
    pub generics: Seq<char>,
    pub fields: Seq<FieldSpecView>,
}

impl DeepView for RecordSpec {
    type V = RecordSpecView;

    open spec fn deep_view(&self) -> RecordSpecView {
        RecordSpecView {
            name: self.name@,
            visibility: self.visibility@,
            generics: self.generics@,
            fields: self.fields.deep_view(),
        }
    }
}

impl RecordSpecView {
    /// No two fields share a name, as the host language demands of a
    /// record.
    pub open spec fn names_distinct(self) -> bool {
        forall|i: int, j: int|
            0 <= i < j < self.fields.len() ==> (#[trigger] self.fields[i]).name
                != (#[trigger] self.fields[j]).name
    }

    /// Every field's configuration is consistent.
    pub open spec fn consistent(self) -> bool {
        forall|i: int|
            0 <= i < self.fields.len() ==> (#[trigger] self.fields[i]).attrs.consistent()
    }
}

impl RecordDecl {
    /// The configuration of the `i`-th declared field.
    pub open spec fn config_of(self, i: int) -> Result<FieldAttributesView, SynthesisErrorView> {
        field_config(self.fields@[i].name@, self.attrs@, self.fields@[i].attrs@)
    }

    /// Whether the annotations of the `i`-th declared field are sound.
    pub open spec fn field_ok(self, i: int) -> bool {
        self.config_of(i) is Ok
    }

    /// The `i`-th declared field, configured.
    pub open spec fn field_spec(self, i: int) -> FieldSpecView {
        FieldSpecView {
            name: self.fields@[i].name@,
            ty: self.fields@[i].ty@,
            attrs: self.config_of(i)->Ok_0,
        }
    }

    /// Whether `i` is the first declared field with unsound annotations.
    pub open spec fn first_unsound(self, i: int) -> bool {
        &&& 0 <= i < self.fields@.len()
        &&& !self.field_ok(i)
        &&& forall|j: int| 0 <= j < i ==> self.field_ok(j)
    }

    /// What the attribute model makes of the declaration.
    ///
    /// The shape is looked at first, then the annotations on the type, then
    /// those on the fields in declaration order; the first thing found wrong
    /// is the error.
    pub open spec fn analysis(self) -> Result<RecordSpecView, SynthesisErrorView> {
        if self.shape == Shape::Enum || self.shape == Shape::Union {
            Err(SynthesisErrorView::NotAStruct)
        } else if self.shape != Shape::NamedStruct {
            Err(SynthesisErrorView::UnnamedFields)
        } else if struct_level(self.attrs@) is None {
            Err(SynthesisErrorView::MalformedStructAttribute)
        } else if exists|i: int| self.first_unsound(i) {
            let i = choose|i: int| self.first_unsound(i);
            Err(SynthesisErrorView::MalformedFieldAttribute(self.fields@[i].name@))
        } else {
            Ok(
                RecordSpecView {
                    name: self.name@,
                    visibility: self.visibility@,
                    generics: self.generics@,
                    fields: Seq::new(self.fields@.len(), |i: int| self.field_spec(i)),
                },
            )
        }
    }
}

impl RecordSpec {
    /// Reads a declaration into a configured record.
    ///
    /// Succeeds on every braced struct whose `builder` annotations are
    /// well-formed; the fields keep their order, names and types.
    pub fn from_decl(decl: &RecordDecl) -> (outcome: Result<RecordSpec, SynthesisError>)
        ensures
            match outcome {
                Ok(spec) => decl.analysis() == Ok::<RecordSpecView, SynthesisErrorView>(
                    spec.deep_view(),
                ),
                Err(e) => decl.analysis() == Err::<RecordSpecView, SynthesisErrorView>(
                    e.deep_view(),
                ),
            },
    {
        match decl.shape {
            Shape::Enum | Shape::Union => {
                return Err(SynthesisError::NotAStruct);
            },
            Shape::TupleStruct | Shape::UnitStruct => {
                return Err(SynthesisError::UnnamedFields);
            },
            Shape::NamedStruct => {},
        }
        let grants = match FieldConfigs::parse(decl.attrs.as_slice()) {
            Some(grants) => grants,
            None => {
                return Err(SynthesisError::MalformedStructAttribute);
            },
        };
        let n = decl.fields.len();
        let mut fields: Vec<FieldSpec> = Vec::new();
        let mut i: usize = 0;
        while i < n
            invariant
                n == decl.fields@.len(),
                i <= n,
                decl.shape == Shape::NamedStruct,
                struct_level(decl.attrs@) == Some(grants.deep_view()),
                fields@.len() == i,
                forall|j: int| 0 <= j < i ==> decl.field_ok(j),
                forall|j: int|
                    0 <= j < i ==> (#[trigger] fields@[j]).deep_view() == decl.field_spec(j),
            decreases n - i,
        {
            let field = &decl.fields[i];
            let own = match collect_builder_metas(field.attrs.as_slice()) {
                Some(items) => FieldAttributes::from_metas(&items),
                None => None,
            };
            match own {
                None => {
                    proof {
                        // every field before this one is sound, so every
                        // first unsound one is this one
                        assert(decl.first_unsound(i as int));
                        let k = choose|k: int| decl.first_unsound(k);
                        assert(k == i);
                    }
                    return Err(SynthesisError::MalformedFieldAttribute(field.name.clone()));
                },
                Some(own) => {
                    let attrs = own.merge(&grants, field.name.as_str());
                    fields.push(
                        FieldSpec { name: field.name.clone(), ty: field.ty.clone(), attrs },
                    );
                },
            }
            i += 1;
        }
        let spec = RecordSpec {
            name: decl.name.clone(),
            visibility: decl.visibility.clone(),
            generics: decl.generics.clone(),
            fields,
        };
        assert(spec.deep_view().fields =~= Seq::new(
            decl.fields@.len(),
            |i: int| decl.field_spec(i),
        ));
        Ok(spec)
    }
}

} // verus!
