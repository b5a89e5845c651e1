//! The struct definition that stands for one call variant.

use crate::artifact::{GeneratedStruct, GeneratedStructModel};
use crate::names::{to_type_name, upper_camel_case};
use crate::schema::{copy_lines, CallDef, CallModel};
use crate::shape::{resolve_field_shape, shape_of};
use vstd::prelude::*;

verus! {

/// The struct that stands for `call` under the name `struct_name`: its fields
/// have the shape of the call's fields, and it keeps the call's documentation.
pub open spec fn synthesized(call: CallModel, struct_name: Seq<char>) -> GeneratedStructModel {
    GeneratedStructModel { name: struct_name, fields: shape_of(call.fields), docs: call.docs }
}

/// Derives the struct for `call` under a name that was derived before.
pub fn synthesize_named(call: &CallDef, struct_name: String) -> (def: GeneratedStruct)
    ensures
        def@ == synthesized(call@, struct_name@),
{
    GeneratedStruct {
        name: struct_name,
        fields: resolve_field_shape(&call.fields),
        docs: copy_lines(&call.docs),
    }
}

/// Derives the struct for `call`. Its name is the call's name in upper camel
/// case.
pub fn synthesize(call: &CallDef) -> (def: GeneratedStruct)
    ensures
        def@ == synthesized(call@, upper_camel_case(call.name@)),
{
    let struct_name: String = to_type_name(call.name.as_str());
    synthesize_named(call, struct_name)
}

} // verus!
