//! The shape of a call's fields: none, all named, or positional.

use crate::artifact::{
    FieldShape, FieldShapeModel, NamedField, NamedFieldModel, UnnamedField, UnnamedFieldModel,
};
use crate::schema::{views, FieldDef, FieldModel};
use vstd::prelude::*;

verus! {

/// Every field of `fields` has a name.
pub open spec fn all_named(fields: Seq<FieldModel>) -> bool {
    forall|i: int| 0 <= i < fields.len() ==> (#[trigger] fields[i]).name is Some
}

/// The fields of `fields` as named fields, in order. It is meant for lists of
/// which [`all_named`] holds.
pub open spec fn named_fields(fields: Seq<FieldModel>) -> Seq<NamedFieldModel> {
    Seq::new(
        fields.len(),
        |i: int|
            NamedFieldModel {
                name: fields[i].name->0,
                type_path: fields[i].type_path,
                boxed: fields[i].boxed,
            },
    )
}

/// The fields of `fields` as positional fields, in order.
pub open spec fn unnamed_fields(fields: Seq<FieldModel>) -> Seq<UnnamedFieldModel> {
    Seq::new(
        fields.len(),
        |i: int| UnnamedFieldModel { type_path: fields[i].type_path, boxed: fields[i].boxed },
    )
}

/// The shape of a field list. An empty list has no fields; a list in which
/// every field has a name is named; a list with a field that has none is
/// positional as a whole.
pub open spec fn shape_of(fields: Seq<FieldModel>) -> FieldShapeModel {
    if fields.len() == 0 {
        FieldShapeModel::NoFields
    } else if all_named(fields) {
        FieldShapeModel::Named(named_fields(fields))
    } else {
        FieldShapeModel::Unnamed(unnamed_fields(fields))
    }
}

/// Whether every field of `fields` has a name.
fn every_field_named(fields: &Vec<FieldDef>) -> (named: bool)
    ensures
        named == all_named(views(fields@)),
{
    let mut i: usize = 0;
    while i < fields.len()
        invariant
            i <= fields.len(),
            forall|k: int| 0 <= k < i ==> (#[trigger] fields[k]).name is Some,
        decreases fields.len() - i,
    {
        if fields[i].name.is_none() {
            assert(views(fields@)[i as int].name is None);
            return false;
        }
        i = i + 1;
    }
    assert forall|k: int| 0 <= k < views(fields@).len() implies (#[trigger] views(
        fields@,
    )[k]).name is Some by {
        assert(fields[k].name is Some);
    }
    true
}

/// The fields of a list in which every field has a name.
fn collect_named(fields: &Vec<FieldDef>) -> (out: Vec<NamedField>)
    requires
        all_named(views(fields@)),
    ensures
        views(out@) == named_fields(views(fields@)),
{
    let mut out: Vec<NamedField> = Vec::new();
    let mut i: usize = 0;
    while i < fields.len()
        invariant
            i <= fields.len(),
            out.len() == i,
            all_named(views(fields@)),
            forall|k: int| 0 <= k < i ==> (#[trigger] out[k])@ == named_fields(views(fields@))[k],
        decreases fields.len() - i,
    {
        let field = &fields[i];
        assert(views(fields@)[i as int].name is Some);
        match &field.name {
            Some(name) => {
                out.push(
                    NamedField {
                        name: name.clone(),
                        type_path: field.type_path.clone(),
                        boxed: field.boxed,
                    },
                );
            },
            None => {},
        }
        i = i + 1;
    }
    assert(views(out@) =~= named_fields(views(fields@)));
    out
}

/// The fields of a list, taken as positional.
fn collect_unnamed(fields: &Vec<FieldDef>) -> (out: Vec<UnnamedField>)
    ensures
        views(out@) == unnamed_fields(views(fields@)),
{
    let mut out: Vec<UnnamedField> = Vec::new();
    let mut i: usize = 0;
    while i < fields.len()
        invariant
            i <= fields.len(),
            out.len() == i,
            forall|k: int|
                0 <= k < i ==> (#[trigger] out[k])@ == unnamed_fields(views(fields@))[k],
        decreases fields.len() - i,
    {
        let field = &fields[i];
        out.push(UnnamedField { type_path: field.type_path.clone(), boxed: field.boxed });
        i = i + 1;
    }
    assert(views(out@) =~= unnamed_fields(views(fields@)));
    out
}

/// Decides the shape of a call's field list.
pub fn resolve_field_shape(fields: &Vec<FieldDef>) -> (shape: FieldShape)
    ensures
        shape@ == shape_of(views(fields@)),
{
    if fields.len() == 0 {
        FieldShape::NoFields
    } else if every_field_named(fields) {
        FieldShape::Named(collect_named(fields))
    } else {
        FieldShape::Unnamed(collect_unnamed(fields))
    }
}

} // verus!
