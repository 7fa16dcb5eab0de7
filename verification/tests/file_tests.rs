use avdan_bridge::error::ErrorKind;
use avdan_bridge::file::{
    decode_path_arg, decode_write_args, finish_read, finish_stat, finish_write, io_error,
    stat_value, FileStore, HostIoError, StatInfo,
};
use avdan_bridge::Value;

#[test]
fn write_then_read_returns_the_bytes() {
    let mut store = FileStore::new();
    let path = "/tmp/data.bin".to_string();
    store.write(&path, vec![1, 2, 3]);
    assert_eq!(store.read(&path).unwrap(), vec![1, 2, 3]);
}

#[test]
fn write_then_read_empty_bytes() {
    let mut store = FileStore::new();
    let path = "empty".to_string();
    store.write(&path, Vec::new());
    assert_eq!(store.read(&path).unwrap(), Vec::<u8>::new());
}

#[test]
fn write_then_read_with_null_bytes() {
    let mut store = FileStore::new();
    let path = "nulls".to_string();
    store.write(&path, vec![0, 0, 7, 0, 255, 0]);
    assert_eq!(store.read(&path).unwrap(), vec![0, 0, 7, 0, 255, 0]);
}

#[test]
fn newest_write_wins() {
    let mut store = FileStore::new();
    let path = "p".to_string();
    store.write(&path, vec![1]);
    store.write(&path, vec![2, 2]);
    assert_eq!(store.read(&path).unwrap(), vec![2, 2]);
}

#[test]
fn writes_do_not_disturb_other_paths() {
    let mut store = FileStore::new();
    let a = "a".to_string();
    let b = "b".to_string();
    store.write(&a, vec![1]);
    store.write(&b, vec![2]);
    assert_eq!(store.read(&a).unwrap(), vec![1]);
    assert_eq!(store.read(&b).unwrap(), vec![2]);
}

#[test]
fn missing_path_reads_nothing() {
    let store = FileStore::new();
    assert!(store.read(&"/definitely/missing/path".to_string()).is_none());
}

#[test]
fn error_kinds_stay_distinguishable() {
    assert_eq!(io_error(HostIoError::NotFound).kind, ErrorKind::NotFound);
    assert_eq!(io_error(HostIoError::PermissionDenied).kind, ErrorKind::PermissionDenied);
    assert_eq!(io_error(HostIoError::Other).kind, ErrorKind::IoFailure);
    assert_ne!(
        io_error(HostIoError::NotFound).kind,
        io_error(HostIoError::PermissionDenied).kind
    );
}

#[test]
fn read_failures_keep_their_kind() {
    let err = finish_read(Err(HostIoError::NotFound)).unwrap_err();
    assert_eq!(err.kind, ErrorKind::NotFound);
    let err = finish_read(Err(HostIoError::PermissionDenied)).unwrap_err();
    assert_eq!(err.kind, ErrorKind::PermissionDenied);
    match finish_read(Ok(vec![9, 8])).unwrap() {
        Value::Bytes(b) => assert_eq!(b, vec![9, 8]),
        other => panic!("expected bytes, got {:?}", other),
    }
}

#[test]
fn successful_write_returns_null() {
    assert_eq!(finish_write(Ok(())).unwrap(), Value::Null);
    let err = finish_write(Err(HostIoError::Other)).unwrap_err();
    assert_eq!(err.kind, ErrorKind::IoFailure);
}

#[test]
fn stat_record_has_the_fixed_shape() {
    let st = StatInfo { size_bits: 77, is_directory: true, modified_bits: 123 };
    match stat_value(st) {
        Value::Object(pairs) => {
            assert_eq!(pairs.len(), 3);
            assert_eq!(pairs[0].0, "size");
            assert_eq!(pairs[0].1, Value::Number(77));
            assert_eq!(pairs[1].0, "isDirectory");
            assert_eq!(pairs[1].1, Value::Bool(true));
            assert_eq!(pairs[2].0, "modifiedTime");
            assert_eq!(pairs[2].1, Value::Number(123));
        },
        other => panic!("expected an object, got {:?}", other),
    }
}

#[test]
fn stat_failures_keep_their_kind() {
    let err = finish_stat(Err(HostIoError::NotFound)).unwrap_err();
    assert_eq!(err.kind, ErrorKind::NotFound);
    let st = StatInfo { size_bits: 1, is_directory: false, modified_bits: 2 };
    assert!(finish_stat(Ok(st)).is_ok());
}

#[test]
fn path_argument_must_be_a_string() {
    assert_eq!(decode_path_arg(&vec![Value::Str("/x".to_string())]).unwrap(), "/x");
    let err = decode_path_arg(&vec![]).unwrap_err();
    assert_eq!(err.kind, ErrorKind::TypeMismatch);
    let err = decode_path_arg(&vec![Value::Number(1)]).unwrap_err();
    assert_eq!(err.kind, ErrorKind::TypeMismatch);
}

#[test]
fn write_arguments_take_path_and_bytes() {
    let (p, b) = decode_write_args(&vec![
        Value::Str("/x".to_string()),
        Value::Bytes(vec![5, 6]),
    ])
    .unwrap();
    assert_eq!(p, "/x");
    assert_eq!(b, vec![5, 6]);
    let err = decode_write_args(&vec![Value::Str("/x".to_string())]).unwrap_err();
    assert_eq!(err.kind, ErrorKind::TypeMismatch);
    let err = decode_write_args(&vec![
        Value::Str("/x".to_string()),
        Value::Str("text".to_string()),
    ])
    .unwrap_err();
    assert_eq!(err.kind, ErrorKind::TypeMismatch);
}
