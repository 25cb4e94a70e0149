//! What holds of every declaration that the attribute model reads.

use vstd::prelude::*;
use crate::decl::{RecordDecl, Shape};
use crate::field_attributes::struct_level;
use crate::record::RecordSpecView;
use crate::theorems::attributes::lemma_config_is_consistent;

verus! {

/// Where some field's annotations are unsound, some field is the first
/// such.
pub proof fn lemma_some_field_is_first_unsound(decl: RecordDecl, i: int)
    requires
        0 <= i < decl.fields@.len(),
        !decl.field_ok(i),
    ensures
        exists|k: int| decl.first_unsound(k),
    decreases i,
{
    if exists|j: int| 0 <= j < i && !decl.field_ok(j) {
        let j = choose|j: int| 0 <= j < i && !decl.field_ok(j);
        lemma_some_field_is_first_unsound(decl, j);
    } else {
        assert(decl.first_unsound(i));
    }
}

/// A pass gets past the attribute model exactly on the braced structs whose
/// `builder` annotations, on the type and on every field, are well-formed.
pub proof fn lemma_analysis_succeeds_iff_sound(decl: RecordDecl)
    ensures
        decl.analysis() is Ok <==> {
            &&& decl.shape == Shape::NamedStruct
            &&& struct_level(decl.attrs@) is Some
            &&& forall|i: int| 0 <= i < decl.fields@.len() ==> decl.field_ok(i)
        },
{
    if exists|i: int| 0 <= i < decl.fields@.len() && !decl.field_ok(i) {
        let i = choose|i: int| 0 <= i < decl.fields@.len() && !decl.field_ok(i);
        lemma_some_field_is_first_unsound(decl, i);
    }
    if exists|k: int| decl.first_unsound(k) {
        let k = choose|k: int| decl.first_unsound(k);
        assert(!decl.field_ok(k));
    }
}

/// What the attribute model makes of a declaration keeps the fields in
/// their order, with their names and types, and gives each a consistent
/// configuration.
pub proof fn lemma_analysis_keeps_fields(decl: RecordDecl)
    requires
        decl.analysis() is Ok,
    ensures
        decl.analysis()->Ok_0.consistent(),
        decl.analysis()->Ok_0.fields.len() == decl.fields@.len(),
        forall|i: int|
            0 <= i < decl.fields@.len() ==> {
                &&& (#[trigger] decl.analysis()->Ok_0.fields[i]).name == decl.fields@[i].name@
                &&& decl.analysis()->Ok_0.fields[i].ty == decl.fields@[i].ty@
            },
{
    let record = decl.analysis()->Ok_0;
    assert forall|i: int| 0 <= i < record.fields.len() implies (
    #[trigger] record.fields[i]).attrs.consistent() by {
        if !decl.field_ok(i) {
            lemma_some_field_is_first_unsound(decl, i);
        }
        lemma_config_is_consistent(decl.fields@[i].name@, decl.attrs@, decl.fields@[i].attrs@);
    }
}

} // verus!
