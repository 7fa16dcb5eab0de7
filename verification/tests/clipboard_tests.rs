use avdan_bridge::clipboard::{
    decode_get_args, decode_set_args, finish_get, parse_source, ClipReadOutcome, ClipSource,
    ClipStore,
};
use avdan_bridge::error::ErrorKind;
use avdan_bridge::Value;

#[test]
fn parse_source_accepts_the_closed_set() {
    assert_eq!(parse_source("clipboard").unwrap(), ClipSource::Clipboard);
    assert_eq!(parse_source("selection").unwrap(), ClipSource::Selection);
}

#[test]
fn unknown_source_is_invalid_argument() {
    let err = parse_source("not-a-real-source").unwrap_err();
    assert_eq!(err.kind, ErrorKind::InvalidArgument);
    let err = parse_source("").unwrap_err();
    assert_eq!(err.kind, ErrorKind::InvalidArgument);
    let err = parse_source("Clipboard").unwrap_err();
    assert_eq!(err.kind, ErrorKind::InvalidArgument);
}

#[test]
fn set_then_get_default_source() {
    let mut store = ClipStore::new();
    store.set(ClipSource::Clipboard, "hello".to_string());
    assert_eq!(store.get(ClipSource::Clipboard), "hello");
}

#[test]
fn set_selection_leaves_default_untouched() {
    let mut store = ClipStore::new();
    store.set(ClipSource::Clipboard, "hello".to_string());
    store.set(ClipSource::Selection, "x".to_string());
    assert_eq!(store.get(ClipSource::Selection), "x");
    assert_eq!(store.get(ClipSource::Clipboard), "hello");
}

#[test]
fn new_store_is_empty() {
    let store = ClipStore::new();
    assert_eq!(store.get(ClipSource::Clipboard), "");
    assert_eq!(store.get(ClipSource::Selection), "");
}

#[test]
fn get_args_default_to_the_system_clipboard() {
    assert_eq!(decode_get_args(&vec![]).unwrap(), ClipSource::Clipboard);
    assert_eq!(decode_get_args(&vec![Value::Null]).unwrap(), ClipSource::Clipboard);
    assert_eq!(
        decode_get_args(&vec![Value::Str("selection".to_string())]).unwrap(),
        ClipSource::Selection
    );
}

#[test]
fn get_args_reject_a_bad_source() {
    let err = decode_get_args(&vec![Value::Str("primary?".to_string())]).unwrap_err();
    assert_eq!(err.kind, ErrorKind::InvalidArgument);
    let err = decode_get_args(&vec![Value::Number(3)]).unwrap_err();
    assert_eq!(err.kind, ErrorKind::TypeMismatch);
}

#[test]
fn set_args_take_text_and_optional_source() {
    let (text, source) = decode_set_args(&vec![Value::Str("hi".to_string())]).unwrap();
    assert_eq!(text, "hi");
    assert_eq!(source, ClipSource::Clipboard);
    let (text, source) = decode_set_args(&vec![
        Value::Str("x".to_string()),
        Value::Str("selection".to_string()),
    ])
    .unwrap();
    assert_eq!(text, "x");
    assert_eq!(source, ClipSource::Selection);
}

#[test]
fn set_args_require_a_string_text() {
    let err = decode_set_args(&vec![]).unwrap_err();
    assert_eq!(err.kind, ErrorKind::TypeMismatch);
    let err = decode_set_args(&vec![Value::Bool(true)]).unwrap_err();
    assert_eq!(err.kind, ErrorKind::TypeMismatch);
}

#[test]
fn empty_clipboard_reads_as_empty_string() {
    match finish_get(ClipReadOutcome::Empty).unwrap() {
        Value::Str(s) => assert_eq!(s, ""),
        other => panic!("expected a string, got {:?}", other),
    }
    match finish_get(ClipReadOutcome::Text("abc".to_string())).unwrap() {
        Value::Str(s) => assert_eq!(s, "abc"),
        other => panic!("expected a string, got {:?}", other),
    }
}

#[test]
fn hard_failure_is_clipboard_unavailable() {
    let err = finish_get(ClipReadOutcome::Unavailable).unwrap_err();
    assert_eq!(err.kind, ErrorKind::ClipboardUnavailable);
}
