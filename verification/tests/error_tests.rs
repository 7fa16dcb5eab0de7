use avdan_bridge::error::{type_mismatch, ErrorKind, ValueTag};
use avdan_bridge::Value;

#[test]
fn kind_names_are_stable() {
    assert_eq!(ErrorKind::TypeMismatch.name(), "TypeMismatch");
    assert_eq!(ErrorKind::InvalidArgument.name(), "InvalidArgument");
    assert_eq!(ErrorKind::NotFound.name(), "NotFound");
    assert_eq!(ErrorKind::PermissionDenied.name(), "PermissionDenied");
    assert_eq!(ErrorKind::IoFailure.name(), "IOFailure");
    assert_eq!(ErrorKind::ClipboardUnavailable.name(), "ClipboardUnavailable");
    assert_eq!(ErrorKind::Internal.name(), "Internal");
}

#[test]
fn mismatch_errors_name_both_kinds() {
    let err = type_mismatch(ValueTag::Str, ValueTag::Number);
    assert_eq!(err.kind, ErrorKind::TypeMismatch);
    assert_eq!(err.message, "expected string, got number");
}

#[test]
fn values_report_their_tag() {
    assert_eq!(Value::Null.tag(), ValueTag::Null);
    assert_eq!(Value::Bool(true).tag(), ValueTag::Bool);
    assert_eq!(Value::Number(1).tag(), ValueTag::Number);
    assert_eq!(Value::Str(String::new()).tag(), ValueTag::Str);
    assert_eq!(Value::Bytes(vec![]).tag(), ValueTag::Bytes);
    assert_eq!(Value::Array(vec![]).tag(), ValueTag::Array);
    assert_eq!(Value::Object(vec![]).tag(), ValueTag::Object);
}
