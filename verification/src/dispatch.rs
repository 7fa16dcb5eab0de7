use vstd::prelude::*;
use crate::clipboard::{get_source_spec, set_args_spec, ClipSource};
use crate::error::BridgeError;
use crate::file::{path_arg_spec, write_args_spec};
use crate::registry::NativeCallable;
use crate::value::{models_of_list, Value};

verus! {

/// The native operation one script call resolves to, with its
/// arguments already decoded and validated: what the host performs
/// between decoding and the matching finish step.
///
/// Logging carries no marshaled arguments: the host renders each
/// argument with the engine's own string conversion and hands the
/// parts to the renderer.
#[derive(Debug)]
pub enum HostRequest {
    LogLine,
    ReadFile(String),
    WriteFile(String, Vec<u8>),
    FileExists(String),
    StatFile(String),
    ClipboardRead(ClipSource),
    ClipboardWrite(ClipSource, String),
}

/// Routes one script call to the native operation it requests. Every
/// capability method decodes by its own rule; a decoding failure is
/// the error the script sees, and no operation is performed.
pub fn decode_request(callable: NativeCallable, args: &Vec<Value>) -> (r: Result<
    HostRequest,
    BridgeError,
>)
    ensures
        match callable {
            NativeCallable::DebugLog => r matches Ok(req) && req matches HostRequest::LogLine,
            NativeCallable::FileRead => match r {
                Ok(req) => req matches HostRequest::ReadFile(p) && path_arg_spec(
                    models_of_list(args@),
                ) == Ok::<Seq<char>, crate::error::ErrorKind>(p@),
                Err(e) => path_arg_spec(models_of_list(args@)) matches Err(k) && k == e.kind,
            },
            NativeCallable::FileExists => match r {
                Ok(req) => req matches HostRequest::FileExists(p) && path_arg_spec(
                    models_of_list(args@),
                ) == Ok::<Seq<char>, crate::error::ErrorKind>(p@),
                Err(e) => path_arg_spec(models_of_list(args@)) matches Err(k) && k == e.kind,
            },
            NativeCallable::FileStat => match r {
                Ok(req) => req matches HostRequest::StatFile(p) && path_arg_spec(
                    models_of_list(args@),
                ) == Ok::<Seq<char>, crate::error::ErrorKind>(p@),
                Err(e) => path_arg_spec(models_of_list(args@)) matches Err(k) && k == e.kind,
            },
            NativeCallable::FileWrite => match r {
                Ok(req) => req matches HostRequest::WriteFile(p, b) && write_args_spec(
                    models_of_list(args@),
                ) == Ok::<(Seq<char>, Seq<u8>), crate::error::ErrorKind>((p@, b@)),
                Err(e) => write_args_spec(models_of_list(args@)) matches Err(k) && k == e.kind,
            },
            NativeCallable::ClipboardGet => match r {
                Ok(req) => req matches HostRequest::ClipboardRead(s) && get_source_spec(
                    models_of_list(args@),
                ) == Ok::<ClipSource, crate::error::ErrorKind>(s),
                Err(e) => get_source_spec(models_of_list(args@)) matches Err(k) && k == e.kind,
            },
            NativeCallable::ClipboardSet => match r {
                Ok(req) => req matches HostRequest::ClipboardWrite(s, t) && set_args_spec(
                    models_of_list(args@),
                ) == Ok::<(Seq<char>, ClipSource), crate::error::ErrorKind>((t@, s)),
                Err(e) => set_args_spec(models_of_list(args@)) matches Err(k) && k == e.kind,
            },
        },
{
    match callable {
        NativeCallable::DebugLog => Ok(HostRequest::LogLine),
        NativeCallable::FileRead => match crate::file::decode_path_arg(args) {
            Ok(p) => Ok(HostRequest::ReadFile(p)),
            Err(e) => Err(e),
        },
        NativeCallable::FileExists => match crate::file::decode_path_arg(args) {
            Ok(p) => Ok(HostRequest::FileExists(p)),
            Err(e) => Err(e),
        },
        NativeCallable::FileStat => match crate::file::decode_path_arg(args) {
            Ok(p) => Ok(HostRequest::StatFile(p)),
            Err(e) => Err(e),
        },
        NativeCallable::FileWrite => match crate::file::decode_write_args(args) {
            Ok((p, b)) => Ok(HostRequest::WriteFile(p, b)),
            Err(e) => Err(e),
        },
        NativeCallable::ClipboardGet => match crate::clipboard::decode_get_args(args) {
            Ok(s) => Ok(HostRequest::ClipboardRead(s)),
            Err(e) => Err(e),
        },
        NativeCallable::ClipboardSet => match crate::clipboard::decode_set_args(args) {
            Ok((t, s)) => Ok(HostRequest::ClipboardWrite(s, t)),
            Err(e) => Err(e),
        },
    }
}

} // verus!
