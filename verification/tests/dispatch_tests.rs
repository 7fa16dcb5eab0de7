use avdan_bridge::clipboard::ClipSource;
use avdan_bridge::dispatch::{decode_request, HostRequest};
use avdan_bridge::error::ErrorKind;
use avdan_bridge::registry::NativeCallable;
use avdan_bridge::Value;

#[test]
fn log_needs_no_decoding() {
    let req = decode_request(NativeCallable::DebugLog, &vec![]).unwrap();
    assert!(matches!(req, HostRequest::LogLine));
}

#[test]
fn read_routes_to_its_path() {
    let args = vec![Value::Str("/etc/hosts".to_string())];
    match decode_request(NativeCallable::FileRead, &args).unwrap() {
        HostRequest::ReadFile(p) => assert_eq!(p, "/etc/hosts"),
        other => panic!("wrong request: {:?}", std::mem::discriminant(&other)),
    }
}

#[test]
fn write_routes_path_and_bytes() {
    let args = vec![Value::Str("/x".to_string()), Value::Bytes(vec![1, 2])];
    match decode_request(NativeCallable::FileWrite, &args).unwrap() {
        HostRequest::WriteFile(p, b) => {
            assert_eq!(p, "/x");
            assert_eq!(b, vec![1, 2]);
        },
        _ => panic!("wrong request"),
    }
}

#[test]
fn exists_and_stat_route_their_path() {
    let args = vec![Value::Str("/d".to_string())];
    assert!(matches!(
        decode_request(NativeCallable::FileExists, &args).unwrap(),
        HostRequest::FileExists(_)
    ));
    assert!(matches!(
        decode_request(NativeCallable::FileStat, &args).unwrap(),
        HostRequest::StatFile(_)
    ));
}

#[test]
fn clipboard_calls_route_their_source() {
    match decode_request(NativeCallable::ClipboardGet, &vec![]).unwrap() {
        HostRequest::ClipboardRead(s) => assert_eq!(s, ClipSource::Clipboard),
        _ => panic!("wrong request"),
    }
    let args = vec![
        Value::Str("x".to_string()),
        Value::Str("selection".to_string()),
    ];
    match decode_request(NativeCallable::ClipboardSet, &args).unwrap() {
        HostRequest::ClipboardWrite(s, t) => {
            assert_eq!(s, ClipSource::Selection);
            assert_eq!(t, "x");
        },
        _ => panic!("wrong request"),
    }
}

#[test]
fn decoding_failures_pass_through() {
    let err = decode_request(NativeCallable::FileRead, &vec![]).unwrap_err();
    assert_eq!(err.kind, ErrorKind::TypeMismatch);
    let err = decode_request(
        NativeCallable::ClipboardGet,
        &vec![Value::Str("middle-click".to_string())],
    )
    .unwrap_err();
    assert_eq!(err.kind, ErrorKind::InvalidArgument);
}
