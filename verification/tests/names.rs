use call_codegen::names::{to_accessor_name, to_type_name};

#[test]
fn type_name_is_upper_camel_case() {
    assert_eq!(to_type_name("transfer"), "Transfer");
    assert_eq!(to_type_name("set_balance"), "SetBalance");
    assert_eq!(to_type_name("force_transfer"), "ForceTransfer");
    assert_eq!(to_type_name("transfer_keep_alive"), "TransferKeepAlive");
}

#[test]
fn accessor_name_is_snake_case() {
    assert_eq!(to_accessor_name("Transfer"), "transfer");
    assert_eq!(to_accessor_name("SetBalance"), "set_balance");
    assert_eq!(to_accessor_name("forceTransfer"), "force_transfer");
    assert_eq!(to_accessor_name("transfer_keep_alive"), "transfer_keep_alive");
}

#[test]
fn names_are_derived_the_same_way_every_time() {
    assert_eq!(to_type_name("remark_with_event"), to_type_name("remark_with_event"));
    assert_eq!(to_accessor_name("remark_with_event"), to_accessor_name("remark_with_event"));
    assert_eq!(to_type_name("remark_with_event"), "RemarkWithEvent");
}

#[test]
fn names_fold_repeated_boundaries() {
    assert_eq!(to_type_name("set__code"), "SetCode");
    assert_eq!(to_accessor_name("set__code"), "set_code");
    assert_eq!(to_accessor_name("XMLHttpRequest"), "xml_http_request");
}

#[test]
fn name_of_nothing_is_empty() {
    assert_eq!(to_type_name(""), "");
    assert_eq!(to_accessor_name(""), "");
}
