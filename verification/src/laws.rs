//! What holds of every generated call and of every call of an accessor.

use crate::artifact::{
    AccessorModel, CallsModuleModel, CheckMode, FieldShapeModel, GeneratedCallModel,
    GenerationErrorModel,
};
use crate::assemble::{
    accessors_of, assembled, call_outcomes, collected, generated_call, generated_module,
    payloads_of,
};
use crate::dispatch::{
    compatibility, dispatched, payload_of, CallError, DispatchHandleModel, PayloadValue,
};
use crate::schema::{CallModel, PalletModel};
use crate::shape::{all_named, shape_of};
use crate::synth::synthesized;
use frame_metadata::v14::RuntimeMetadataV14;
use vstd::prelude::*;

verus! {

/// A call without fields gives a struct without fields, standing alone or in
/// a module, and an accessor without parameters; it is generated whenever its
/// hash was found.
pub proof fn lemma_no_fields_no_params(
    pallet: Seq<char>,
    call: CallModel,
    struct_name: Seq<char>,
    accessor_name: Seq<char>,
    found: Option<Seq<u8>>,
    mode: CheckMode,
)
    requires
        call.fields.len() == 0,
    ensures
        synthesized(call, struct_name).fields is NoFields,
        found is Some <==> assembled(pallet, call, struct_name, accessor_name, found, mode) is Ok,
        assembled(pallet, call, struct_name, accessor_name, found, mode) matches Ok(generated)
            ==> generated.payload.def.fields is NoFields && generated.accessor.params.len() == 0,
{
}

/// A call whose fields are all positional is refused, whatever its hash, with
/// the error that names the pallet and the call.
pub proof fn lemma_positional_fields_refused(
    pallet: Seq<char>,
    call: CallModel,
    struct_name: Seq<char>,
    accessor_name: Seq<char>,
    found: Option<Seq<u8>>,
    mode: CheckMode,
)
    requires
        call.fields.len() > 0,
        forall|i: int| 0 <= i < call.fields.len() ==> (#[trigger] call.fields[i]).name is None,
    ensures
        assembled(pallet, call, struct_name, accessor_name, found, mode) == Err::<
            GeneratedCallModel,
            GenerationErrorModel,
        >(GenerationErrorModel::UnnamedFields { pallet, call: call.name }),
{
    assert(call.fields[0].name is None);
    assert(!all_named(call.fields));
}

/// A call whose fields all have names is generated whenever its hash was
/// found. Its accessor takes one parameter for each field, in the order of the
/// fields and under their names, types and box marks. The payload it builds
/// holds, under each field's name, the argument at the field's position:
/// behind one `Box` where the field is boxed, and as it was passed where it is
/// not.
pub proof fn lemma_named_fields_preserved<T>(
    pallet: Seq<char>,
    call: CallModel,
    struct_name: Seq<char>,
    accessor_name: Seq<char>,
    found: Option<Seq<u8>>,
    mode: CheckMode,
    args: Seq<T>,
)
    requires
        call.fields.len() > 0,
        all_named(call.fields),
        args.len() == call.fields.len(),
    ensures
        found is Some <==> assembled(pallet, call, struct_name, accessor_name, found, mode) is Ok,
        assembled(pallet, call, struct_name, accessor_name, found, mode) matches Ok(generated)
            ==> {
            let params = generated.accessor.params;
            let built = payload_of(generated.accessor, args);
            &&& generated.payload.def.fields == FieldShapeModel::Named(params)
            &&& params.len() == call.fields.len()
            &&& built.payload_type == generated.payload.def.name
            &&& built.fields.len() == call.fields.len()
            &&& forall|i: int|
                #![trigger call.fields[i]]
                0 <= i < call.fields.len() ==> {
                    &&& call.fields[i].name == Some(params[i].name)
                    &&& params[i].type_path == call.fields[i].type_path
                    &&& params[i].boxed == call.fields[i].boxed
                    &&& built.fields[i].name == params[i].name
                    &&& built.fields[i].value == if call.fields[i].boxed {
                        PayloadValue::Boxed(Box::new(args[i]))
                    } else {
                        PayloadValue::Direct(args[i])
                    }
                }
        },
{
    assert(shape_of(call.fields) is Named);
}

/// Where the live hash is the embedded one, a checked accessor builds a
/// payload, and it is the payload that the same accessor builds unchecked,
/// whatever the live metadata reports then.
pub proof fn lemma_matching_hash_dispatches<T>(
    accessor: AccessorModel,
    live: Option<Seq<u8>>,
    args: Seq<T>,
)
    requires
        accessor.mode == CheckMode::Checked,
    ensures
        dispatched(accessor, Some(accessor.embedded_hash), args) is Ok,
        dispatched(accessor, Some(accessor.embedded_hash), args).unwrap().fields == dispatched(
            AccessorModel { mode: CheckMode::Unchecked, ..accessor },
            live,
            args,
        ).unwrap().fields,
        dispatched(accessor, Some(accessor.embedded_hash), args) == dispatched(
            AccessorModel { mode: CheckMode::Unchecked, ..accessor },
            live,
            args,
        ),
{
}

/// Where the live hash is not the embedded one, a checked accessor returns
/// the incompatibility error, and so no payload.
pub proof fn lemma_differing_hash_refused<T>(
    accessor: AccessorModel,
    live: Seq<u8>,
    args: Seq<T>,
)
    requires
        accessor.mode == CheckMode::Checked,
        live != accessor.embedded_hash,
    ensures
        dispatched(accessor, Some(live), args) == Err::<DispatchHandleModel<T>, CallError>(
            CallError::IncompatibleMetadata,
        ),
{
}

/// Two hashes of which one byte differs are different hashes.
pub proof fn lemma_one_byte_differs(embedded: Seq<u8>, live: Seq<u8>, at: int)
    requires
        0 <= at < embedded.len(),
        at < live.len(),
        embedded[at] != live[at],
    ensures
        live != embedded,
{
}

/// A checked accessor that finds no live hash returns the resolution error;
/// an unchecked accessor never returns an error.
pub proof fn lemma_dispatch_errors<T>(accessor: AccessorModel, live: Option<Seq<u8>>, args: Seq<T>)
    ensures
        accessor.mode == CheckMode::Unchecked ==> dispatched(accessor, live, args) is Ok,
        accessor.mode == CheckMode::Checked && live is None ==> dispatched(accessor, live, args)
            == Err::<DispatchHandleModel<T>, CallError>(CallError::MetadataResolution),
        dispatched(accessor, live, args) is Ok <==> compatibility(accessor, live) is Ok,
{
}

/// A struct derived on its own keeps the documentation of its call. A struct
/// generated as part of a module carries none: the documentation of the call
/// is on the accessor.
pub proof fn lemma_documentation_moves_to_accessor(
    pallet: Seq<char>,
    call: CallModel,
    struct_name: Seq<char>,
    accessor_name: Seq<char>,
    found: Option<Seq<u8>>,
    mode: CheckMode,
)
    ensures
        synthesized(call, struct_name).docs == call.docs,
        assembled(pallet, call, struct_name, accessor_name, found, mode) matches Ok(generated)
            ==> generated.payload.def.docs.len() == 0 && generated.accessor.docs == call.docs,
{
}

/// A list of outcomes succeeds as a whole exactly where each of them does, and
/// then holds what each call gave, in order. Where it fails, its error is that
/// of the first outcome that is an error.
pub proof fn lemma_collected_is_first_error(
    outcomes: Seq<Result<GeneratedCallModel, GenerationErrorModel>>,
)
    ensures
        collected(outcomes) is Ok <==> forall|i: int|
            0 <= i < outcomes.len() ==> (#[trigger] outcomes[i]) is Ok,
        collected(outcomes) matches Ok(calls) ==> calls.len() == outcomes.len() && forall|i: int|
            0 <= i < outcomes.len() ==> (#[trigger] outcomes[i]) == Ok::<
                GeneratedCallModel,
                GenerationErrorModel,
            >(calls[i]),
        collected(outcomes) matches Err(error) ==> exists|i: int|
            {
                &&& 0 <= i < outcomes.len()
                &&& #[trigger] outcomes[i] == Err::<GeneratedCallModel, GenerationErrorModel>(error)
                &&& forall|j: int| 0 <= j < i ==> (#[trigger] outcomes[j]) is Ok
            },
    decreases outcomes.len(),
{
    if outcomes.len() > 0 {
        let front = outcomes.drop_last();
        lemma_collected_is_first_error(front);
        assert forall|i: int| 0 <= i < front.len() implies front[i] == outcomes[i] by {}
        match collected(front) {
            Err(error) => {
                let i = choose|i: int|
                    {
                        &&& 0 <= i < front.len()
                        &&& #[trigger] front[i] == Err::<GeneratedCallModel, GenerationErrorModel>(
                            error,
                        )
                        &&& forall|j: int| 0 <= j < i ==> (#[trigger] front[j]) is Ok
                    };
                assert(outcomes[i] == front[i]);
                assert forall|j: int| 0 <= j < i implies (#[trigger] outcomes[j]) is Ok by {
                    assert(front[j] is Ok);
                }
            },
            Ok(calls) => {
                assert forall|j: int| 0 <= j < front.len() implies (#[trigger] outcomes[j])
                    is Ok by {
                    assert(front[j] is Ok);
                }
                match outcomes.last() {
                    Ok(generated) => {
                        assert forall|i: int| 0 <= i < outcomes.len() implies (
                        #[trigger] outcomes[i]) == Ok::<GeneratedCallModel, GenerationErrorModel>(
                            calls.push(generated)[i],
                        ) by {
                            if i < front.len() {
                                assert(front[i] == Ok::<GeneratedCallModel, GenerationErrorModel>(
                                    calls[i],
                                ));
                            }
                        }
                    },
                    Err(error) => {
                        assert(outcomes[outcomes.len() - 1] == Err::<
                            GeneratedCallModel,
                            GenerationErrorModel,
                        >(error));
                    },
                }
            },
        }
    }
}

/// A pallet without calls gives no module, and only such a pallet does. A
/// module holds one struct and one accessor for each call of its pallet, in
/// the order of the calls, and carries the documentation of the call type.
pub proof fn lemma_module_mirrors_pallet(
    metadata: RuntimeMetadataV14,
    pallet: PalletModel,
    types_mod: Seq<char>,
    mode: CheckMode,
)
    ensures
        pallet.calls is None <==> generated_module(metadata, pallet, types_mod, mode) == Ok::<
            Option<CallsModuleModel>,
            GenerationErrorModel,
        >(None),
        generated_module(metadata, pallet, types_mod, mode) matches Ok(Some(module)) ==> {
            let group = pallet.calls->0;
            &&& pallet.calls is Some
            &&& module.docs == group.docs
            &&& module.types_mod == types_mod
            &&& module.structs.len() == group.calls.len()
            &&& module.accessors.len() == group.calls.len()
            &&& forall|i: int|
                #![trigger group.calls[i]]
                0 <= i < group.calls.len() ==> {
                    &&& generated_call(metadata, pallet.name, group.calls[i], mode) matches Ok(
                        generated,
                    )
                    &&& module.structs[i] == generated.payload
                    &&& module.accessors[i] == generated.accessor
                }
        },
{
    if pallet.calls is Some {
        let group = pallet.calls->0;
        let outcomes = call_outcomes(metadata, pallet.name, group.calls, mode);
        lemma_collected_is_first_error(outcomes);
        if collected(outcomes) is Ok {
            let calls = collected(outcomes)->Ok_0;
            assert forall|i: int|
                #![trigger group.calls[i]]
                0 <= i < group.calls.len() implies {
                &&& generated_call(metadata, pallet.name, group.calls[i], mode) matches Ok(
                    generated,
                )
                &&& payloads_of(calls)[i] == generated.payload
                &&& accessors_of(calls)[i] == generated.accessor
            } by {
                assert(outcomes[i] == Ok::<GeneratedCallModel, GenerationErrorModel>(calls[i]));
            }
        }
    }
}

/// A pallet with a call whose fields are all positional, or with a call for
/// which the metadata holds no hash, gives no module: its generation ends
/// with an error.
pub proof fn lemma_defective_call_fails_module(
    metadata: RuntimeMetadataV14,
    pallet: PalletModel,
    types_mod: Seq<char>,
    mode: CheckMode,
    at: int,
)
    requires
        pallet.calls is Some,
        0 <= at < pallet.calls->0.calls.len(),
        generated_call(metadata, pallet.name, pallet.calls->0.calls[at], mode) is Err,
    ensures
        generated_module(metadata, pallet, types_mod, mode) is Err,
{
    let group = pallet.calls->0;
    let outcomes = call_outcomes(metadata, pallet.name, group.calls, mode);
    lemma_collected_is_first_error(outcomes);
    assert(outcomes[at] is Err);
}

} // verus!
