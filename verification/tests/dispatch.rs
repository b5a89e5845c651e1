use call_codegen::artifact::{
    CallHash, CallIdentity, CheckMode, FieldShape, GenerationError, NamedField,
};
use call_codegen::assemble::assemble_call;
use call_codegen::dispatch::{CallError, DispatchHandle, PayloadField, PayloadValue};
use call_codegen::hash::require_call_hash;
use call_codegen::names::{to_accessor_name, to_type_name};
use call_codegen::schema::{CallDef, FieldDef};

#[derive(Clone, Debug, PartialEq, Eq)]
enum Arg {
    Account(&'static str),
    Amount(u128),
    Nested(Vec<u8>),
}

fn named(name: &str, type_path: &str, boxed: bool) -> FieldDef {
    FieldDef { name: Some(name.to_string()), type_path: type_path.to_string(), boxed }
}

fn hash(bytes: &[u8]) -> CallHash {
    CallHash { bytes: bytes.to_vec() }
}

fn transfer() -> CallDef {
    CallDef {
        name: "Transfer".to_string(),
        fields: vec![named("dest", "AccountId", false), named("value", "Balance", false)],
        docs: vec!["Transfer some balance.".to_string()],
    }
}

fn assemble(call: &CallDef, found: Option<CallHash>, mode: CheckMode) -> Result<call_codegen::artifact::GeneratedCall, GenerationError> {
    assemble_call(
        "Balances",
        call,
        to_type_name(&call.name),
        to_accessor_name(&call.name),
        found,
        mode,
    )
}

#[test]
fn transfer_is_generated_with_both_fields() {
    let generated = assemble(&transfer(), Some(hash(&[1, 2, 3, 4])), CheckMode::Checked).unwrap();
    assert_eq!(generated.payload.def.name, "Transfer");
    assert_eq!(
        generated.payload.identity,
        CallIdentity { pallet: "Balances".to_string(), call: "Transfer".to_string() }
    );
    let fields = vec![
        NamedField { name: "dest".to_string(), type_path: "AccountId".to_string(), boxed: false },
        NamedField { name: "value".to_string(), type_path: "Balance".to_string(), boxed: false },
    ];
    assert_eq!(generated.payload.def.fields, FieldShape::Named(fields.clone()));
    assert_eq!(generated.accessor.name, "transfer");
    assert_eq!(generated.accessor.params, fields);
    assert_eq!(generated.accessor.payload_type, "Transfer");
    assert_eq!(generated.accessor.embedded_hash, hash(&[1, 2, 3, 4]));
    assert_eq!(generated.accessor.mode, CheckMode::Checked);
}

#[test]
fn transfer_with_matching_live_hash_dispatches() {
    let generated = assemble(&transfer(), Some(hash(&[1, 2, 3, 4])), CheckMode::Checked).unwrap();
    let live = hash(&[1, 2, 3, 4]);
    let handle = generated
        .accessor
        .dispatch(Some(&live), vec![Arg::Account("X"), Arg::Amount(100)])
        .unwrap();
    assert_eq!(
        handle,
        DispatchHandle {
            payload_type: "Transfer".to_string(),
            fields: vec![
                PayloadField { name: "dest".to_string(), value: PayloadValue::Direct(Arg::Account("X")) },
                PayloadField { name: "value".to_string(), value: PayloadValue::Direct(Arg::Amount(100)) },
            ],
        }
    );
}

#[test]
fn transfer_with_other_live_hash_is_incompatible() {
    let generated = assemble(&transfer(), Some(hash(&[1, 2, 3, 4])), CheckMode::Checked).unwrap();
    let live = hash(&[9, 9, 9, 9]);
    let outcome = generated.accessor.dispatch(Some(&live), vec![Arg::Account("X"), Arg::Amount(100)]);
    assert_eq!(outcome, Err(CallError::IncompatibleMetadata));
}

#[test]
fn one_differing_byte_is_incompatible() {
    let generated = assemble(&transfer(), Some(hash(&[1, 2, 3, 4])), CheckMode::Checked).unwrap();
    for at in 0..4 {
        let mut bytes = vec![1u8, 2, 3, 4];
        bytes[at] ^= 1;
        let live = CallHash { bytes };
        assert_eq!(
            generated.accessor.check_compatibility(Some(&live)),
            Err(CallError::IncompatibleMetadata)
        );
    }
    assert_eq!(
        generated.accessor.check_compatibility(Some(&hash(&[1, 2, 3]))),
        Err(CallError::IncompatibleMetadata)
    );
    assert_eq!(
        generated.accessor.check_compatibility(Some(&hash(&[1, 2, 3, 4, 0]))),
        Err(CallError::IncompatibleMetadata)
    );
    assert_eq!(generated.accessor.check_compatibility(Some(&hash(&[1, 2, 3, 4]))), Ok(()));
}

#[test]
fn missing_live_hash_is_a_resolution_error() {
    let generated = assemble(&transfer(), Some(hash(&[1, 2, 3, 4])), CheckMode::Checked).unwrap();
    let outcome = generated.accessor.dispatch(None, vec![Arg::Account("X"), Arg::Amount(100)]);
    assert_eq!(outcome, Err(CallError::MetadataResolution));
}

#[test]
fn unchecked_accessor_ignores_the_live_hash() {
    let checked = assemble(&transfer(), Some(hash(&[1, 2, 3, 4])), CheckMode::Checked).unwrap();
    let unchecked = assemble(&transfer(), Some(hash(&[1, 2, 3, 4])), CheckMode::Unchecked).unwrap();
    let args = vec![Arg::Account("X"), Arg::Amount(100)];
    let expected = checked.accessor.dispatch(Some(&hash(&[1, 2, 3, 4])), args.clone()).unwrap();
    assert_eq!(unchecked.accessor.dispatch(Some(&hash(&[9, 9, 9, 9])), args.clone()), Ok(expected.clone()));
    assert_eq!(unchecked.accessor.dispatch(None, args.clone()), Ok(expected.clone()));
    assert_eq!(unchecked.accessor.dispatch(Some(&hash(&[1, 2, 3, 4])), args), Ok(expected));
}

#[test]
fn boxed_field_is_wrapped_once_and_others_pass_through() {
    let call = CallDef {
        name: "sudo_as".to_string(),
        fields: vec![named("who", "AccountId", false), named("call", "runtime::Call", true)],
        docs: vec![],
    };
    let generated = assemble(&call, Some(hash(&[7; 32])), CheckMode::Checked).unwrap();
    assert_eq!(generated.payload.def.name, "SudoAs");
    assert_eq!(generated.accessor.name, "sudo_as");
    assert!(!generated.accessor.params[0].boxed);
    assert!(generated.accessor.params[1].boxed);
    assert_eq!(generated.accessor.params[1].type_path, "runtime::Call");
    let handle = generated
        .accessor
        .dispatch(Some(&hash(&[7; 32])), vec![Arg::Account("X"), Arg::Nested(vec![1, 2])])
        .unwrap();
    assert_eq!(
        handle.fields,
        vec![
            PayloadField { name: "who".to_string(), value: PayloadValue::Direct(Arg::Account("X")) },
            PayloadField {
                name: "call".to_string(),
                value: PayloadValue::Boxed(Box::new(Arg::Nested(vec![1, 2]))),
            },
        ]
    );
}

#[test]
fn call_without_fields_takes_no_arguments() {
    let call = CallDef { name: "kill".to_string(), fields: vec![], docs: vec![] };
    let generated = assemble(&call, Some(hash(&[0; 32])), CheckMode::Checked).unwrap();
    assert_eq!(generated.payload.def.fields, FieldShape::NoFields);
    assert!(generated.accessor.params.is_empty());
    let handle = generated.accessor.dispatch(Some(&hash(&[0; 32])), Vec::<Arg>::new()).unwrap();
    assert_eq!(handle, DispatchHandle { payload_type: "Kill".to_string(), fields: vec![] });
    assert_eq!(generated.accessor.build_payload(Vec::<u8>::new()).fields, vec![]);
}

#[test]
fn positional_call_is_refused_by_name() {
    let call = CallDef {
        name: "batch".to_string(),
        fields: vec![
            FieldDef { name: None, type_path: "Vec<Call>".to_string(), boxed: false },
            FieldDef { name: None, type_path: "u32".to_string(), boxed: false },
        ],
        docs: vec![],
    };
    let expected =
        GenerationError::UnnamedFields { pallet: "Balances".to_string(), call: "batch".to_string() };
    assert_eq!(assemble(&call, Some(hash(&[1; 32])), CheckMode::Checked), Err(expected.clone()));
    assert_eq!(assemble(&call, None, CheckMode::Unchecked), Err(expected));
}

#[test]
fn call_without_hash_is_refused_by_name() {
    let expected = GenerationError::MissingCallHash {
        pallet: "Balances".to_string(),
        call: "Transfer".to_string(),
    };
    assert_eq!(assemble(&transfer(), None, CheckMode::Checked), Err(expected.clone()));
    assert_eq!(assemble(&transfer(), None, CheckMode::Unchecked), Err(expected.clone()));
    assert_eq!(require_call_hash(None, "Balances", "Transfer"), Err(expected));
    assert_eq!(require_call_hash(Some(hash(&[5, 6])), "Balances", "Transfer"), Ok(hash(&[5, 6])));
}

#[test]
fn documentation_moves_from_struct_to_accessor() {
    let generated = assemble(&transfer(), Some(hash(&[1, 2, 3, 4])), CheckMode::Checked).unwrap();
    assert!(generated.payload.def.docs.is_empty());
    assert_eq!(generated.accessor.docs, vec!["Transfer some balance.".to_string()]);
}

#[test]
fn hashes_match_only_byte_for_byte() {
    assert!(hash(&[]).matches(&hash(&[])));
    assert!(hash(&[1, 2, 3]).matches(&hash(&[1, 2, 3])));
    assert!(!hash(&[1, 2, 3]).matches(&hash(&[1, 2, 4])));
    assert!(!hash(&[1, 2, 3]).matches(&hash(&[1, 2])));
    assert!(!hash(&[]).matches(&hash(&[0])));
}
