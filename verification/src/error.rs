use vstd::prelude::*;
use crate::value::Value;

verus! {

/// The closed set of error kinds a capability call can surface to the
/// script. Every failing native call raises exactly one of these; no
/// call signals failure by returning a null value.
#[derive(Clone, Copy, PartialEq, Eq, Structural, Debug)]
pub enum ErrorKind {
    /// A value of the wrong type reached a native boundary.
    TypeMismatch,
    /// A well-typed argument outside the accepted set (for example an
    /// unknown clipboard source name).
    InvalidArgument,
    /// The named filesystem entry does not exist.
    NotFound,
    /// The host denied access to the filesystem entry.
    PermissionDenied,
    /// Any other input/output failure.
    IoFailure,
    /// The clipboard subsystem reported a hard failure.
    ClipboardUnavailable,
    /// Marshaling depth was exhausted or another internal limit hit.
    Internal,
}

/// An error raised to the script: a kind discriminator plus a
/// human-readable message. Callers distinguish errors by `kind`; the
/// message is advisory text.
#[derive(Debug)]
pub struct BridgeError {
    pub kind: ErrorKind,
    pub message: String,
}

/// The stable name of each error kind, as the script sees it.
pub open spec fn kind_name_spec(k: ErrorKind) -> Seq<char> {
    match k {
        ErrorKind::TypeMismatch => "TypeMismatch"@,
        ErrorKind::InvalidArgument => "InvalidArgument"@,
        ErrorKind::NotFound => "NotFound"@,
        ErrorKind::PermissionDenied => "PermissionDenied"@,
        ErrorKind::IoFailure => "IOFailure"@,
        ErrorKind::ClipboardUnavailable => "ClipboardUnavailable"@,
        ErrorKind::Internal => "Internal"@,
    }
}

impl ErrorKind {
    /// The `kind` discriminator string attached to the raised script error.
    pub fn name(&self) -> (r: String)
        ensures
            r@ == kind_name_spec(*self),
    {
        match self {
            ErrorKind::TypeMismatch => "TypeMismatch".to_owned(),
            ErrorKind::InvalidArgument => "InvalidArgument".to_owned(),
            ErrorKind::NotFound => "NotFound".to_owned(),
            ErrorKind::PermissionDenied => "PermissionDenied".to_owned(),
            ErrorKind::IoFailure => "IOFailure".to_owned(),
            ErrorKind::ClipboardUnavailable => "ClipboardUnavailable".to_owned(),
            ErrorKind::Internal => "Internal".to_owned(),
        }
    }
}

impl BridgeError {
    pub fn new(kind: ErrorKind, message: String) -> (r: BridgeError)
        ensures
            r.kind == kind,
            r.message@ == message@,
    {
        BridgeError { kind, message }
    }
}

/// The executable result carries the specified value on success and
/// the specified error kind on failure.
pub open spec fn result_matches<T>(r: Result<T, BridgeError>, s: Result<T, ErrorKind>) -> bool {
    match r {
        Ok(v) => s == Ok::<T, ErrorKind>(v),
        Err(e) => s == Err::<T, ErrorKind>(e.kind),
    }
}

/// The tag of a marshaled value, used to report type mismatches.
#[derive(Clone, Copy, PartialEq, Eq, Structural, Debug)]
pub enum ValueTag {
    Null,
    Bool,
    Number,
    Str,
    Bytes,
    Array,
    Object,
}

pub open spec fn tag_of(v: Value) -> ValueTag {
    match v {
        Value::Null => ValueTag::Null,
        Value::Bool(_) => ValueTag::Bool,
        Value::Number(_) => ValueTag::Number,
        Value::Str(_) => ValueTag::Str,
        Value::Bytes(_) => ValueTag::Bytes,
        Value::Array(_) => ValueTag::Array,
        Value::Object(_) => ValueTag::Object,
    }
}

pub open spec fn tag_name_spec(t: ValueTag) -> Seq<char> {
    match t {
        ValueTag::Null => "null"@,
        ValueTag::Bool => "boolean"@,
        ValueTag::Number => "number"@,
        ValueTag::Str => "string"@,
        ValueTag::Bytes => "bytes"@,
        ValueTag::Array => "array"@,
        ValueTag::Object => "object"@,
    }
}

impl ValueTag {
    pub fn name(&self) -> (r: String)
        ensures
            r@ == tag_name_spec(*self),
    {
        match self {
            ValueTag::Null => "null".to_owned(),
            ValueTag::Bool => "boolean".to_owned(),
            ValueTag::Number => "number".to_owned(),
            ValueTag::Str => "string".to_owned(),
            ValueTag::Bytes => "bytes".to_owned(),
            ValueTag::Array => "array".to_owned(),
            ValueTag::Object => "object".to_owned(),
        }
    }
}

impl Value {
    /// The type tag of this value.
    pub fn tag(&self) -> (t: ValueTag)
        ensures
            t == tag_of(*self),
    {
        match self {
            Value::Null => ValueTag::Null,
            Value::Bool(_) => ValueTag::Bool,
            Value::Number(_) => ValueTag::Number,
            Value::Str(_) => ValueTag::Str,
            Value::Bytes(_) => ValueTag::Bytes,
            Value::Array(_) => ValueTag::Array,
            Value::Object(_) => ValueTag::Object,
        }
    }
}

/// The message text reported when a value of tag `actual` arrives where
/// a value of tag `expected` was required.
pub open spec fn mismatch_message_spec(expected: ValueTag, actual: ValueTag) -> Seq<char> {
    "expected "@ + tag_name_spec(expected) + ", got "@ + tag_name_spec(actual)
}

/// Builds the `TypeMismatch` error that identifies the expected and the
/// actual kind of the offending value.
pub fn type_mismatch(expected: ValueTag, actual: ValueTag) -> (r: BridgeError)
    ensures
        r.kind == ErrorKind::TypeMismatch,
        r.message@ == mismatch_message_spec(expected, actual),
{
    let mut m = "expected ".to_owned();
    m.append(expected.name().as_str());
    m.append(", got ");
    m.append(actual.name().as_str());
    BridgeError { kind: ErrorKind::TypeMismatch, message: m }
}

} // verus!
