use call_codegen::artifact::{FieldShape, NamedField, UnnamedField};
use call_codegen::schema::{copy_lines, CallDef, FieldDef};
use call_codegen::shape::resolve_field_shape;
use call_codegen::synth::{synthesize, synthesize_named};

fn named(name: &str, type_path: &str, boxed: bool) -> FieldDef {
    FieldDef { name: Some(name.to_string()), type_path: type_path.to_string(), boxed }
}

fn positional(type_path: &str, boxed: bool) -> FieldDef {
    FieldDef { name: None, type_path: type_path.to_string(), boxed }
}

#[test]
fn empty_field_list_has_no_fields() {
    assert_eq!(resolve_field_shape(&vec![]), FieldShape::NoFields);
}

#[test]
fn named_field_list_keeps_names_order_and_boxes() {
    let fields = vec![
        named("dest", "AccountId", false),
        named("call", "runtime::Call", true),
        named("value", "Balance", false),
    ];
    assert_eq!(
        resolve_field_shape(&fields),
        FieldShape::Named(vec![
            NamedField { name: "dest".to_string(), type_path: "AccountId".to_string(), boxed: false },
            NamedField { name: "call".to_string(), type_path: "runtime::Call".to_string(), boxed: true },
            NamedField { name: "value".to_string(), type_path: "Balance".to_string(), boxed: false },
        ])
    );
}

#[test]
fn positional_field_list_is_unnamed() {
    let fields = vec![positional("AccountId", false), positional("runtime::Call", true)];
    assert_eq!(
        resolve_field_shape(&fields),
        FieldShape::Unnamed(vec![
            UnnamedField { type_path: "AccountId".to_string(), boxed: false },
            UnnamedField { type_path: "runtime::Call".to_string(), boxed: true },
        ])
    );
}

#[test]
fn one_field_without_a_name_makes_the_list_positional() {
    let fields = vec![named("dest", "AccountId", false), positional("Balance", false)];
    assert_eq!(
        resolve_field_shape(&fields),
        FieldShape::Unnamed(vec![
            UnnamedField { type_path: "AccountId".to_string(), boxed: false },
            UnnamedField { type_path: "Balance".to_string(), boxed: false },
        ])
    );
    let fields = vec![positional("Balance", false), named("dest", "AccountId", false)];
    assert!(matches!(resolve_field_shape(&fields), FieldShape::Unnamed(_)));
}

#[test]
fn copied_lines_are_the_same_lines() {
    let lines = vec!["first".to_string(), String::new(), "third".to_string()];
    assert_eq!(copy_lines(&lines), lines);
    assert_eq!(copy_lines(&vec![]), Vec::<String>::new());
}

#[test]
fn standalone_struct_keeps_its_documentation() {
    let call = CallDef {
        name: "set_balance".to_string(),
        fields: vec![named("who", "AccountId", false)],
        docs: vec!["Set the balance.".to_string(), "Root only.".to_string()],
    };
    let def = synthesize(&call);
    assert_eq!(def.name, "SetBalance");
    assert_eq!(def.docs, vec!["Set the balance.".to_string(), "Root only.".to_string()]);
    assert_eq!(
        def.fields,
        FieldShape::Named(vec![NamedField {
            name: "who".to_string(),
            type_path: "AccountId".to_string(),
            boxed: false,
        }])
    );
}

#[test]
fn standalone_struct_takes_the_name_it_is_given() {
    let call = CallDef { name: "remark".to_string(), fields: vec![], docs: vec![] };
    let def = synthesize_named(&call, "Anything".to_string());
    assert_eq!(def.name, "Anything");
    assert_eq!(def.fields, FieldShape::NoFields);
    assert!(def.docs.is_empty());
}

#[test]
fn standalone_struct_may_have_positional_fields() {
    let call = CallDef {
        name: "batch".to_string(),
        fields: vec![positional("Vec<Call>", false)],
        docs: vec![],
    };
    let def = synthesize(&call);
    assert_eq!(def.name, "Batch");
    assert_eq!(
        def.fields,
        FieldShape::Unnamed(vec![UnnamedField { type_path: "Vec<Call>".to_string(), boxed: false }])
    );
}
