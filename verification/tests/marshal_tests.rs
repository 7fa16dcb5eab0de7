use avdan_bridge::error::ErrorKind;
use avdan_bridge::marshal::{to_native, to_script, ScriptValue};
use avdan_bridge::Value;

fn sample_value() -> Value {
    Value::Object(vec![
        ("title".to_string(), Value::Str("hello".to_string())),
        ("flag".to_string(), Value::Bool(true)),
        ("nothing".to_string(), Value::Null),
        ("count".to_string(), Value::Number(4638564679706419200)),
        ("payload".to_string(), Value::Bytes(vec![0, 1, 2, 255])),
        (
            "items".to_string(),
            Value::Array(vec![
                Value::Str("a".to_string()),
                Value::Number(0),
                Value::Array(vec![Value::Bool(false)]),
            ]),
        ),
    ])
}

#[test]
fn round_trip_scalars() {
    for v in [
        Value::Null,
        Value::Bool(true),
        Value::Bool(false),
        Value::Number(0),
        Value::Number(u64::MAX),
        Value::Str(String::new()),
        Value::Str("text with spaces".to_string()),
        Value::Bytes(Vec::new()),
        Value::Bytes(vec![0, 255, 0]),
    ] {
        let script = to_script(&v);
        assert_eq!(to_native(&script, 10).unwrap(), v);
    }
}

#[test]
fn round_trip_nested() {
    let v = sample_value();
    let script = to_script(&v);
    assert_eq!(to_native(&script, 10).unwrap(), v);
}

#[test]
fn round_trip_preserves_number_bits_exactly() {
    let bits: u64 = 0x7ff8000000000001;
    let v = Value::Number(bits);
    let script = to_script(&v);
    match to_native(&script, 1).unwrap() {
        Value::Number(b) => assert_eq!(b, bits),
        other => panic!("expected a number, got {:?}", other),
    }
}

#[test]
fn undefined_and_null_collapse() {
    assert_eq!(to_native(&ScriptValue::Undefined, 1).unwrap(), Value::Null);
    assert_eq!(to_native(&ScriptValue::Null, 1).unwrap(), Value::Null);
}

#[test]
fn foreign_value_is_type_mismatch() {
    let err = to_native(&ScriptValue::Foreign, 10).unwrap_err();
    assert_eq!(err.kind, ErrorKind::TypeMismatch);
}

#[test]
fn foreign_inside_object_is_type_mismatch() {
    let sv = ScriptValue::Object(vec![("f".to_string(), ScriptValue::Foreign)]);
    let err = to_native(&sv, 10).unwrap_err();
    assert_eq!(err.kind, ErrorKind::TypeMismatch);
}

#[test]
fn exhausted_depth_is_internal() {
    let mut sv = ScriptValue::Array(vec![ScriptValue::Bool(true)]);
    for _ in 0..5 {
        sv = ScriptValue::Array(vec![sv]);
    }
    let err = to_native(&sv, 3).unwrap_err();
    assert_eq!(err.kind, ErrorKind::Internal);
    assert!(to_native(&sv, 10).is_ok());
}

#[test]
fn object_order_is_kept() {
    let v = Value::Object(vec![
        ("b".to_string(), Value::Number(1)),
        ("a".to_string(), Value::Number(2)),
    ]);
    let script = to_script(&v);
    match to_native(&script, 4).unwrap() {
        Value::Object(pairs) => {
            assert_eq!(pairs[0].0, "b");
            assert_eq!(pairs[1].0, "a");
        },
        other => panic!("expected an object, got {:?}", other),
    }
}
