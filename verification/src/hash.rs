//! Call hashes, as the runtime metadata gives them.
//!
//! The hash of a call is computed by `subxt_metadata` from the call's variant
//! and from every type that the variant's fields reach in the metadata's type
//! registry. The computation stops on a registry that refers to a type it does
//! not hold, so the registry is checked first: a registry that is not closed
//! under its own references gives no hash.

use crate::artifact::{CallHash, GenerationError, GenerationErrorModel};
use frame_metadata::v14::RuntimeMetadataV14;
use scale_info::TypeDef::{
    Array, BitSequence, Compact, Composite, Primitive, Sequence, Tuple, Variant,
};
use subxt_metadata::NotFound;
use vstd::prelude::*;

verus! {

/// `frame_metadata::v14::RuntimeMetadataV14`, of which Verus sees nothing.
#[verifier::external_type_specification]
#[verifier::external_body]
pub struct ExRuntimeMetadataV14(RuntimeMetadataV14);

/// `subxt_metadata::NotFound`, of which Verus sees nothing.
#[verifier::external_type_specification]
#[verifier::external_body]
pub struct ExNotFound(NotFound);

/// What the type registry of `metadata` holds: each type id that the registry
/// resolves, with the type ids that the definition of that type refers to.
pub uninterp spec fn type_references(metadata: RuntimeMetadataV14) -> Map<u32, Seq<u32>>;

/// What `subxt_metadata::get_call_hash` finds for a pallet and a call in
/// `metadata`: the hash, or `None` where it reports that there is none.
pub uninterp spec fn call_hash(metadata: RuntimeMetadataV14, pallet: Seq<char>, call: Seq<char>)
    -> Option<Seq<u8>>;

/// Every type id that a type of the registry refers to is resolved by the
/// registry.
pub open spec fn references_closed(references: Map<u32, Seq<u32>>) -> bool {
    forall|id: u32, k: int|
        #![trigger references[id][k]]
        references.dom().contains(id) && 0 <= k < references[id].len()
            ==> references.dom().contains(references[id][k])
}

/// The hash of a call in `metadata`: what `subxt_metadata` finds where the
/// registry is closed under its references, and nothing where it is not.
pub open spec fn hash_in(metadata: RuntimeMetadataV14, pallet: Seq<char>, call: Seq<char>)
    -> Option<Seq<u8>> {
    if references_closed(type_references(metadata)) {
        call_hash(metadata, pallet, call)
    } else {
        None
    }
}

/// Reads the number of types in the registry of `metadata`
/// (`scale_info::PortableRegistry`, field `types`).
///
/// `PortableRegistry::resolve` looks a type id up as an index into that list,
/// so the registry resolves exactly the ids below its length.
#[verifier::external_body]
fn registry_len(metadata: &RuntimeMetadataV14) -> (len: usize)
    ensures
        forall|id: u32| #[trigger]
            type_references(*metadata).dom().contains(id) <==> (id as int) < (len as int),
{
    metadata.types.types.len()
}

/// Reads the type ids that the definition of type `id` refers to
/// (`scale_info::TypeDef` and the structs of its variants).
///
/// These are the ids of the field types of a composite, of the field types of
/// every variant of a variant type, of the element type of a sequence, an
/// array or a compact, of the member types of a tuple, and of the order and
/// store types of a bit sequence; a primitive refers to none.
#[verifier::external_body]
fn referenced_types(metadata: &RuntimeMetadataV14, id: u32) -> (refs: Vec<u32>)
    requires
        type_references(*metadata).dom().contains(id),
    ensures
        refs@ == type_references(*metadata)[id],
{
    match &metadata.types.types[id as usize].ty.type_def {
        Composite(def) => def.fields.iter().map(|f| f.ty.id).collect(),
        Variant(def) => def.variants.iter().flat_map(|v| &v.fields).map(|f| f.ty.id).collect(),
        Sequence(def) => vec![def.type_param.id],
        Array(def) => vec![def.type_param.id],
        Tuple(def) => def.fields.iter().map(|t| t.id).collect(),
        Primitive(_) => Vec::new(),
        Compact(def) => vec![def.type_param.id],
        BitSequence(def) => vec![def.bit_order_type.id, def.bit_store_type.id],
    }
}

/// `subxt_metadata::get_call_hash` looks the pallet and the call up by name
/// and hashes the call's variant together with the types it reaches. The hash
/// depends on the three arguments alone, so it is named by [`call_hash`]. The
/// function unwraps every type id it meets on the way, which is why it is
/// called only on a registry that is closed under its references.
pub assume_specification[ subxt_metadata::get_call_hash ](
    metadata: &RuntimeMetadataV14,
    pallet_name: &str,
    call_name: &str,
) -> (found: Result<[u8; 32], NotFound>)
    requires
        references_closed(type_references(*metadata)),
    ensures
        found matches Ok(hash) ==> call_hash(*metadata, pallet_name@, call_name@) == Some(hash@),
        found is Err ==> call_hash(*metadata, pallet_name@, call_name@) is None,
;

/// Whether every id of `refs` is below `len`.
fn all_below(refs: &Vec<u32>, len: usize) -> (ok: bool)
    ensures
        ok == forall|k: int| 0 <= k < refs.len() ==> (#[trigger] refs[k] as int) < (len as int),
{
    let mut k: usize = 0;
    while k < refs.len()
        invariant
            k <= refs.len(),
            forall|j: int| 0 <= j < k ==> (#[trigger] refs[j] as int) < (len as int),
        decreases refs.len() - k,
    {
        if refs[k] as usize >= len {
            return false;
        }
        k = k + 1;
    }
    true
}

/// Whether the type registry of `metadata` is closed under its references.
pub fn registry_closed(metadata: &RuntimeMetadataV14) -> (closed: bool)
    ensures
        closed == references_closed(type_references(*metadata)),
{
    let len: usize = registry_len(metadata);
    let ghost references = type_references(*metadata);
    let mut i: usize = 0;
    while i < len && i <= 0xffff_ffff
        invariant
            i <= len,
            references == type_references(*metadata),
            forall|id: u32| #[trigger]
                references.dom().contains(id) <==> (id as int) < (len as int),
            forall|id: u32, k: int|
                #![trigger references[id][k]]
                (id as int) < (i as int) && 0 <= k < references[id].len()
                    ==> references.dom().contains(references[id][k]),
        decreases len - i,
    {
        let id: u32 = i as u32;
        let refs: Vec<u32> = referenced_types(metadata, id);
        if !all_below(&refs, len) {
            proof {
                let k = choose|k: int| 0 <= k < refs.len() && !((#[trigger] refs[k] as int) < (len as int));
                assert(!references.dom().contains(references[id][k]));
            }
            return false;
        }
        i = i + 1;
    }
    true
}

/// The view of a hash that may be missing.
pub open spec fn found_view(found: Option<CallHash>) -> Option<Seq<u8>> {
    match found {
        Some(hash) => Some(hash@),
        None => None,
    }
}

/// What resolving a call's hash gives for each outcome of the lookup: the
/// hash where there is one, and else the error that names the pallet and the
/// call.
pub open spec fn required_hash(found: Option<Seq<u8>>, pallet: Seq<char>, call: Seq<char>)
    -> Result<Seq<u8>, GenerationErrorModel> {
    match found {
        Some(hash) => Ok(hash),
        None => Err(GenerationErrorModel::MissingCallHash { pallet, call }),
    }
}

/// The view of the outcome of resolving a call's hash.
pub open spec fn resolved_view(resolved: Result<CallHash, GenerationError>) -> Result<
    Seq<u8>,
    GenerationErrorModel,
> {
    match resolved {
        Ok(hash) => Ok(hash@),
        Err(error) => Err(error@),
    }
}

/// The bytes of a hash as `subxt_metadata` returns it.
fn hash_from_array(bytes: &[u8; 32]) -> (hash: CallHash)
    ensures
        hash@ == bytes@,
{
    let mut out: Vec<u8> = Vec::new();
    let mut i: usize = 0;
    while i < 32
        invariant
            i <= 32,
            out.len() == i,
            forall|k: int| 0 <= k < i ==> out[k] == bytes[k],
        decreases 32 - i,
    {
        out.push(bytes[i]);
        i = i + 1;
    }
    assert(out@ =~= bytes@);
    CallHash { bytes: out }
}

/// Looks the hash of a call up in a registry that is known to be closed.
pub(crate) fn call_hash_in_closed(metadata: &RuntimeMetadataV14, pallet: &str, call: &str) -> (found:
    Option<CallHash>)
    requires
        references_closed(type_references(*metadata)),
    ensures
        found_view(found) == call_hash(*metadata, pallet@, call@),
        found matches Some(hash) ==> hash@.len() == 32,
{
    match subxt_metadata::get_call_hash(metadata, pallet, call) {
        Ok(bytes) => Some(hash_from_array(&bytes)),
        Err(_) => None,
    }
}

/// Looks the hash of a call up in `metadata`.
pub fn lookup_call_hash(metadata: &RuntimeMetadataV14, pallet: &str, call: &str) -> (found: Option<
    CallHash,
>)
    ensures
        found_view(found) == hash_in(*metadata, pallet@, call@),
        found matches Some(hash) ==> hash@.len() == 32,
{
    if registry_closed(metadata) {
        call_hash_in_closed(metadata, pallet, call)
    } else {
        None
    }
}

/// Turns the outcome of a lookup into the hash or into the error that names
/// the call for which the metadata holds none.
pub fn require_call_hash(found: Option<CallHash>, pallet: &str, call: &str) -> (resolved: Result<
    CallHash,
    GenerationError,
>)
    ensures
        resolved_view(resolved) == required_hash(found_view(found), pallet@, call@),
        found matches Some(hash) ==> resolved == Ok::<CallHash, GenerationError>(hash),
{
    match found {
        Some(hash) => Ok(hash),
        None => Err(
            GenerationError::MissingCallHash { pallet: pallet.to_owned(), call: call.to_owned() },
        ),
    }
}

/// Resolves the hash of a call: the hash that `metadata` holds for it, or the
/// error that names the call where `metadata` holds none.
pub fn resolve_call_hash(metadata: &RuntimeMetadataV14, pallet: &str, call: &str) -> (resolved:
    Result<CallHash, GenerationError>)
    ensures
        resolved_view(resolved) == required_hash(
            hash_in(*metadata, pallet@, call@),
            pallet@,
            call@,
        ),
        resolved matches Ok(hash) ==> hash@.len() == 32,
{
    require_call_hash(lookup_call_hash(metadata, pallet, call), pallet, call)
}

} // verus!
