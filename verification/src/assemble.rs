//! The `calls` module of one pallet: a payload struct and an accessor for each
//! call, in declaration order.

use crate::artifact::{
    Accessor, AccessorModel, CallHash, CallIdentity, CallIdentityModel, CallStruct,
    CallStructModel, CallsModule, CallsModuleModel, CheckMode, FieldShape, FieldShapeModel,
    GeneratedCall, GeneratedCallModel, GeneratedStruct, GeneratedStructModel, GenerationError,
    GenerationErrorModel, NamedField, NamedFieldModel,
};
use crate::hash::{
    call_hash_in_closed, found_view, hash_in, references_closed, registry_closed, type_references,
};
use crate::names::{snake_case, to_accessor_name, to_type_name, upper_camel_case};
use crate::schema::{copy_lines, views, CallDef, CallGroup, CallModel, PalletDef, PalletModel};
use crate::shape::shape_of;
use crate::synth::synthesize_named;
use frame_metadata::v14::RuntimeMetadataV14;
use vstd::prelude::*;

verus! {

/// The parameters of the accessor for a call whose fields have the shape
/// `shape`: the named fields, in order.
pub open spec fn params_of(shape: FieldShapeModel) -> Seq<NamedFieldModel> {
    match shape {
        FieldShapeModel::Named(fields) => fields,
        _ => Seq::empty(),
    }
}

/// What is generated for one call of the pallet named `pallet`, given the two
/// names derived from the call's name and the outcome of looking its hash up.
///
/// A call with positional fields is refused. So is a call without a hash. For
/// any other call the payload struct carries no documentation: the call's
/// documentation goes to the accessor.
pub open spec fn assembled(
    pallet: Seq<char>,
    call: CallModel,
    struct_name: Seq<char>,
    accessor_name: Seq<char>,
    found: Option<Seq<u8>>,
    mode: CheckMode,
) -> Result<GeneratedCallModel, GenerationErrorModel> {
    if shape_of(call.fields) is Unnamed {
        Err(GenerationErrorModel::UnnamedFields { pallet, call: call.name })
    } else if found is None {
        Err(GenerationErrorModel::MissingCallHash { pallet, call: call.name })
    } else {
        Ok(
            GeneratedCallModel {
                payload: CallStructModel {
                    def: GeneratedStructModel {
                        name: struct_name,
                        fields: shape_of(call.fields),
                        docs: Seq::empty(),
                    },
                    identity: CallIdentityModel { pallet, call: call.name },
                },
                accessor: AccessorModel {
                    name: accessor_name,
                    docs: call.docs,
                    params: params_of(shape_of(call.fields)),
                    payload_type: struct_name,
                    embedded_hash: found->0,
                    mode,
                },
            },
        )
    }
}

/// The view of the outcome of assembling one call.
pub open spec fn call_outcome_view(outcome: Result<GeneratedCall, GenerationError>) -> Result<
    GeneratedCallModel,
    GenerationErrorModel,
> {
    match outcome {
        Ok(generated) => Ok(generated@),
        Err(error) => Err(error@),
    }
}

/// A copy of `fields`.
fn copy_named_fields(fields: &Vec<NamedField>) -> (out: Vec<NamedField>)
    ensures
        views(out@) == views(fields@),
{
    let mut out: Vec<NamedField> = Vec::new();
    let mut i: usize = 0;
    while i < fields.len()
        invariant
            i <= fields.len(),
            out.len() == i,
            forall|k: int| 0 <= k < i ==> (#[trigger] out[k])@ == fields[k]@,
        decreases fields.len() - i,
    {
        let field = &fields[i];
        out.push(
            NamedField {
                name: field.name.clone(),
                type_path: field.type_path.clone(),
                boxed: field.boxed,
            },
        );
        i = i + 1;
    }
    assert(views(out@) =~= views(fields@));
    out
}

/// Assembles the payload struct and the accessor of one call from the call's
/// definition, the two names derived from its name, and the outcome of looking
/// its hash up.
pub fn assemble_call(
    pallet: &str,
    call: &CallDef,
    struct_name: String,
    accessor_name: String,
    found: Option<CallHash>,
    mode: CheckMode,
) -> (outcome: Result<GeneratedCall, GenerationError>)
    ensures
        call_outcome_view(outcome) == assembled(
            pallet@,
            call@,
            struct_name@,
            accessor_name@,
            found_view(found),
            mode,
        ),
{
    let payload_type: String = struct_name.clone();
    let def: GeneratedStruct = synthesize_named(call, struct_name);
    let GeneratedStruct { name, fields, docs } = def;
    let params: Vec<NamedField> = match &fields {
        FieldShape::Named(named) => copy_named_fields(named),
        FieldShape::NoFields => Vec::new(),
        FieldShape::Unnamed(_) => {
            return Err(
                GenerationError::UnnamedFields {
                    pallet: pallet.to_owned(),
                    call: call.name.clone(),
                },
            );
        },
    };
    let embedded_hash: CallHash = match found {
        Some(hash) => hash,
        None => {
            return Err(
                GenerationError::MissingCallHash {
                    pallet: pallet.to_owned(),
                    call: call.name.clone(),
                },
            );
        },
    };
    let stripped: Vec<String> = Vec::new();
    assert(views(stripped@) =~= Seq::<Seq<char>>::empty());
    assert(views(params@) =~= params_of(fields@));
    Ok(
        GeneratedCall {
            payload: CallStruct {
                def: GeneratedStruct { name, fields, docs: stripped },
                identity: CallIdentity { pallet: pallet.to_owned(), call: call.name.clone() },
            },
            accessor: Accessor {
                name: accessor_name,
                docs,
                params,
                payload_type,
                embedded_hash,
                mode,
            },
        },
    )
}

/// What is generated for one call of a pallet from `metadata`: the struct is
/// named in upper camel case, the accessor in snake case, and the hash is the
/// one that `metadata` holds for the call.
pub open spec fn generated_call(
    metadata: RuntimeMetadataV14,
    pallet: Seq<char>,
    call: CallModel,
    mode: CheckMode,
) -> Result<GeneratedCallModel, GenerationErrorModel> {
    assembled(
        pallet,
        call,
        upper_camel_case(call.name),
        snake_case(call.name),
        hash_in(metadata, pallet, call.name),
        mode,
    )
}

/// The outcomes of generating each call of `calls`, in order.
pub open spec fn call_outcomes(
    metadata: RuntimeMetadataV14,
    pallet: Seq<char>,
    calls: Seq<CallModel>,
    mode: CheckMode,
) -> Seq<Result<GeneratedCallModel, GenerationErrorModel>> {
    Seq::new(calls.len(), |i: int| generated_call(metadata, pallet, calls[i], mode))
}

/// The outcomes of a list of calls taken together: what was generated for
/// each, in order, where every call succeeded, and else the error of the first
/// call that failed.
pub open spec fn collected(
    outcomes: Seq<Result<GeneratedCallModel, GenerationErrorModel>>,
) -> Result<Seq<GeneratedCallModel>, GenerationErrorModel>
    decreases outcomes.len(),
{
    if outcomes.len() == 0 {
        Ok(Seq::empty())
    } else {
        match collected(outcomes.drop_last()) {
            Err(error) => Err(error),
            Ok(calls) => match outcomes.last() {
                Ok(generated) => Ok(calls.push(generated)),
                Err(error) => Err(error),
            },
        }
    }
}

/// The payload structs of `calls`, in order.
pub open spec fn payloads_of(calls: Seq<GeneratedCallModel>) -> Seq<CallStructModel> {
    Seq::new(calls.len(), |i: int| calls[i].payload)
}

/// The accessors of `calls`, in order.
pub open spec fn accessors_of(calls: Seq<GeneratedCallModel>) -> Seq<AccessorModel> {
    Seq::new(calls.len(), |i: int| calls[i].accessor)
}

/// What is generated for a pallet from `metadata`: nothing where the pallet
/// declares no calls; else the module with the structs and accessors of all
/// its calls, documented as the call type is, or the error of the first call
/// that cannot be generated.
pub open spec fn generated_module(
    metadata: RuntimeMetadataV14,
    pallet: PalletModel,
    types_mod: Seq<char>,
    mode: CheckMode,
) -> Result<Option<CallsModuleModel>, GenerationErrorModel> {
    match pallet.calls {
        None => Ok(None),
        Some(group) => match collected(call_outcomes(metadata, pallet.name, group.calls, mode)) {
            Err(error) => Err(error),
            Ok(calls) => Ok(
                Some(
                    CallsModuleModel {
                        docs: group.docs,
                        types_mod,
                        structs: payloads_of(calls),
                        accessors: accessors_of(calls),
                    },
                ),
            ),
        },
    }
}

/// The view of the outcome of generating a pallet's calls.
pub open spec fn module_outcome_view(outcome: Result<Option<CallsModule>, GenerationError>)
    -> Result<Option<CallsModuleModel>, GenerationErrorModel> {
    match outcome {
        Ok(Some(module)) => Ok(Some(module@)),
        Ok(None) => Ok(None),
        Err(error) => Err(error@),
    }
}

/// An error among the first `n` outcomes decides the whole list.
proof fn lemma_collected_prefix_error(
    outcomes: Seq<Result<GeneratedCallModel, GenerationErrorModel>>,
    n: int,
)
    requires
        0 <= n <= outcomes.len(),
        collected(outcomes.take(n)) is Err,
    ensures
        collected(outcomes) == collected(outcomes.take(n)),
    decreases outcomes.len() - n,
{
    if n == outcomes.len() {
        assert(outcomes.take(n) =~= outcomes);
    } else {
        assert(outcomes.drop_last().take(n) =~= outcomes.take(n));
        lemma_collected_prefix_error(outcomes.drop_last(), n);
    }
}

/// Generates one call against a registry whose closure was decided before.
fn generate_call_with(
    metadata: &RuntimeMetadataV14,
    closed: bool,
    pallet: &str,
    call: &CallDef,
    mode: CheckMode,
) -> (outcome: Result<GeneratedCall, GenerationError>)
    requires
        closed == references_closed(type_references(*metadata)),
    ensures
        call_outcome_view(outcome) == generated_call(*metadata, pallet@, call@, mode),
        outcome matches Ok(generated) ==> generated.accessor.embedded_hash@.len() == 32,
{
    let struct_name: String = to_type_name(call.name.as_str());
    let accessor_name: String = to_accessor_name(call.name.as_str());
    let found: Option<CallHash> = if closed {
        call_hash_in_closed(metadata, pallet, call.name.as_str())
    } else {
        None
    };
    assemble_call(pallet, call, struct_name, accessor_name, found, mode)
}

/// Generates the payload struct and the accessor of one call of the pallet
/// named `pallet`.
pub fn generate_call(metadata: &RuntimeMetadataV14, pallet: &str, call: &CallDef, mode: CheckMode)
    -> (outcome: Result<GeneratedCall, GenerationError>)
    ensures
        call_outcome_view(outcome) == generated_call(*metadata, pallet@, call@, mode),
        outcome matches Ok(generated) ==> generated.accessor.embedded_hash@.len() == 32,
{
    let closed: bool = registry_closed(metadata);
    generate_call_with(metadata, closed, pallet, call, mode)
}

/// Generates the `calls` module of `pallet`.
///
/// A pallet without calls gives `Ok(None)`. Otherwise every call of the pallet
/// becomes a payload struct and an accessor, in declaration order; the first
/// call that has a field without a name, or for which `metadata` holds no
/// hash, ends the generation with the error that names it.
pub fn generate_calls(
    metadata: &RuntimeMetadataV14,
    pallet: &PalletDef,
    types_mod_ident: &str,
    mode: CheckMode,
) -> (outcome: Result<Option<CallsModule>, GenerationError>)
    ensures
        module_outcome_view(outcome) == generated_module(
            *metadata,
            pallet@,
            types_mod_ident@,
            mode,
        ),
        outcome matches Ok(Some(module)) ==> forall|i: int|
            0 <= i < module.accessors.len() ==> (#[trigger] module.accessors[i]).embedded_hash@.len()
                == 32,
{
    let group: &CallGroup = match &pallet.calls {
        Some(group) => group,
        None => {
            return Ok(None);
        },
    };
    let closed: bool = registry_closed(metadata);
    let ghost outcomes = call_outcomes(*metadata, pallet.name@, views(group.calls@), mode);
    let ghost mut done: Seq<GeneratedCallModel> = Seq::empty();
    let mut structs: Vec<CallStruct> = Vec::new();
    let mut accessors: Vec<Accessor> = Vec::new();
    let mut i: usize = 0;
    assert(outcomes.take(0) =~= Seq::empty());
    while i < group.calls.len()
        invariant
            i <= group.calls.len(),
            closed == references_closed(type_references(*metadata)),
            forall|k: int|
                0 <= k < accessors.len() ==> (#[trigger] accessors[k]).embedded_hash@.len() == 32,
            pallet@.calls == Some(group@),
            outcomes == call_outcomes(*metadata, pallet.name@, views(group.calls@), mode),
            collected(outcomes.take(i as int)) == Ok::<
                Seq<GeneratedCallModel>,
                GenerationErrorModel,
            >(done),
            views(structs@) == payloads_of(done),
            views(accessors@) == accessors_of(done),
            done.len() == i,
            structs.len() == i,
            accessors.len() == i,
        decreases group.calls.len() - i,
    {
        let call: &CallDef = &group.calls[i];
        assert(outcomes.take(i + 1).drop_last() =~= outcomes.take(i as int));
        assert(outcomes.take(i + 1).last() == outcomes[i as int]);
        assert(views(group.calls@)[i as int] == call@);
        match generate_call_with(metadata, closed, pallet.name.as_str(), call, mode) {
            Ok(generated) => {
                let ghost before = done;
                let ghost structs_before = structs@;
                let ghost accessors_before = accessors@;
                proof {
                    done = done.push(generated@);
                }
                let GeneratedCall { payload, accessor } = generated;
                structs.push(payload);
                accessors.push(accessor);
                assert forall|k: int| 0 <= k < structs.len() implies views(structs@)[k]
                    == payloads_of(done)[k] by {
                    if k < i {
                        assert(views(structs_before)[k] == payloads_of(before)[k]);
                    }
                }
                assert forall|k: int| 0 <= k < accessors.len() implies views(accessors@)[k]
                    == accessors_of(done)[k] by {
                    if k < i {
                        assert(views(accessors_before)[k] == accessors_of(before)[k]);
                    }
                }
                assert(views(structs@) =~= payloads_of(done));
                assert(views(accessors@) =~= accessors_of(done));
            },
            Err(error) => {
                proof {
                    lemma_collected_prefix_error(outcomes, i + 1);
                }
                return Err(error);
            },
        }
        i = i + 1;
    }
    assert(outcomes.take(i as int) =~= outcomes);
    Ok(
        Some(
            CallsModule {
                docs: copy_lines(&group.docs),
                types_mod: types_mod_ident.to_owned(),
                structs,
                accessors,
            },
        ),
    )
}

} // verus!
