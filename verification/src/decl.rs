//! A record type's declaration, as far as synthesis reads it.

use vstd::prelude::*;
use vstd::string::StringExecFns;
use crate::token::Token;

verus! {

/// One annotation, `#[path]` or `#[path(args)]`.
#[derive(Debug, PartialEq, Eq)]
pub struct Attribute {
    /// The annotation's name as written, such as `builder` or `derive`.
    pub path: String,
    /// The tokens between the parentheses; `None` for an annotation that has
    /// no parenthesized arguments.
    pub args: Option<Vec<Token>>,
}

/// One named field of a record.
#[derive(Debug, PartialEq, Eq)]
pub struct FieldDecl {
    /// The field's identifier.
    pub name: String,
    /// The field's declared type, as source text. It is never inspected.
    pub ty: String,
    /// The annotations on the field, in source order.
    pub attrs: Vec<Attribute>,
}

/// What kind of item was annotated.
#[derive(Clone, Copy, Debug, PartialEq, Eq, Structural)]
pub enum Shape {
    /// `struct S { a: A, .. }`, including `struct S {}`.
    NamedStruct,
    /// `struct S(A, ..);`
    TupleStruct,
    /// `struct S;`
    UnitStruct,
    /// `enum E { .. }`
    Enum,
    /// `union U { .. }`
    Union,
}

/// The annotated item.
#[derive(Debug, PartialEq, Eq)]
pub struct RecordDecl {
    /// The type's identifier.
    pub name: String,
    /// The type's visibility, as source text. It is never inspected.
    pub visibility: String,
    /// The type's generic parameters and bounds, as source text. It is never
    /// inspected.
    pub generics: String,
    /// The kind of item.
    pub shape: Shape,
    /// The annotations on the type itself, in source order.
    pub attrs: Vec<Attribute>,
    /// The named fields in declaration order; empty unless the shape is
    /// [`Shape::NamedStruct`].
    pub fields: Vec<FieldDecl>,
}

impl Attribute {
    /// Whether this is a `builder` annotation.
    pub open spec fn names_builder(self) -> bool {
        self.path@ == "builder"@
    }

    /// The annotation `#[builder(args)]`.
    pub fn builder(args: Vec<Token>) -> (attr: Attribute)
        ensures
            attr.names_builder(),
            attr.args == Some(args),
    {
        Attribute { path: String::from_str("builder"), args: Some(args) }
    }

    /// Tests for a `builder` annotation.
    pub fn is_builder(&self) -> (yes: bool)
        ensures
            yes == self.names_builder(),
    {
        crate::text::text_eq(self.path.as_str(), "builder")
    }
}

impl FieldDecl {
    /// The field `name: ty` with the annotations `attrs`.
    pub fn new(name: &str, ty: &str, attrs: Vec<Attribute>) -> (field: FieldDecl)
        ensures
            field.name@ == name@,
            field.ty@ == ty@,
            field.attrs == attrs,
    {
        FieldDecl { name: String::from_str(name), ty: String::from_str(ty), attrs }
    }
}

impl RecordDecl {
    /// The private, non-generic struct `name` with the annotations `attrs`
    /// and the named fields `fields`.
    pub fn named_struct(name: &str, attrs: Vec<Attribute>, fields: Vec<FieldDecl>) -> (decl:
        RecordDecl)
        ensures
            decl.name@ == name@,
            decl.visibility@ == Seq::<char>::empty(),
            decl.generics@ == Seq::<char>::empty(),
            decl.shape == Shape::NamedStruct,
            decl.attrs == attrs,
            decl.fields == fields,
    {
        RecordDecl {
            name: String::from_str(name),
            visibility: String::new(),
            generics: String::new(),
            shape: Shape::NamedStruct,
            attrs,
            fields,
        }
    }
}

} // verus!
