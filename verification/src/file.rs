use vstd::prelude::*;
use crate::error::{BridgeError, ErrorKind, ValueTag, type_mismatch};
use crate::value::{Value, ValueModel, clone_bytes, str_eq};

verus! {

broadcast use vstd::seq::group_seq_axioms;

/// What the host filesystem reported for a failed operation, reduced
/// to the distinctions the bridge surfaces.
#[derive(Clone, Copy, PartialEq, Eq, Structural, Debug)]
pub enum HostIoError {
    NotFound,
    PermissionDenied,
    /// Any other input/output failure.
    Other,
}

/// Each host filesystem failure keeps its own script-visible kind;
/// failures are never collapsed into one generic error.
pub open spec fn io_error_kind_spec(e: HostIoError) -> ErrorKind {
    match e {
        HostIoError::NotFound => ErrorKind::NotFound,
        HostIoError::PermissionDenied => ErrorKind::PermissionDenied,
        HostIoError::Other => ErrorKind::IoFailure,
    }
}

/// Builds the script-visible error for a host filesystem failure.
pub fn io_error(e: HostIoError) -> (r: BridgeError)
    ensures
        r.kind == io_error_kind_spec(e),
{
    match e {
        HostIoError::NotFound => BridgeError::new(
            ErrorKind::NotFound,
            "no such file or directory".to_owned(),
        ),
        HostIoError::PermissionDenied => BridgeError::new(
            ErrorKind::PermissionDenied,
            "permission denied".to_owned(),
        ),
        HostIoError::Other => BridgeError::new(
            ErrorKind::IoFailure,
            "input/output failure".to_owned(),
        ),
    }
}

/// The path selected by a one-path argument list: the first argument
/// must be a string.
pub open spec fn path_arg_spec(args: Seq<ValueModel>) -> Result<Seq<char>, ErrorKind> {
    if args.len() == 0 {
        Err(ErrorKind::TypeMismatch)
    } else {
        match args[0] {
            ValueModel::Str(p) => Ok(p),
            _ => Err(ErrorKind::TypeMismatch),
        }
    }
}

/// Decodes the arguments of `File.read`, `File.exists` and
/// `File.stat`: one string path.
pub fn decode_path_arg(args: &Vec<Value>) -> (r: Result<String, BridgeError>)
    ensures
        match r {
            Ok(p) => path_arg_spec(crate::value::models_of_list(args@)) == Ok::<
                Seq<char>,
                ErrorKind,
            >(p@),
            Err(e) => path_arg_spec(crate::value::models_of_list(args@)) == Err::<
                Seq<char>,
                ErrorKind,
            >(e.kind),
        },
{
    proof {
        crate::value::lemma_models_of_list_index(args@);
    }
    if args.len() == 0 {
        return Err(type_mismatch(ValueTag::Str, ValueTag::Null));
    }
    match &args[0] {
        Value::Str(p) => Ok(p.clone()),
        other => Err(type_mismatch(ValueTag::Str, other.tag())),
    }
}

/// The path and bytes selected by a `write(path, data)` argument list:
/// a string path, then a byte buffer.
pub open spec fn write_args_spec(args: Seq<ValueModel>) -> Result<
    (Seq<char>, Seq<u8>),
    ErrorKind,
> {
    if args.len() < 2 {
        Err(ErrorKind::TypeMismatch)
    } else {
        match (args[0], args[1]) {
            (ValueModel::Str(p), ValueModel::Bytes(b)) => Ok((p, b)),
            (ValueModel::Str(_), _) => Err(ErrorKind::TypeMismatch),
            _ => Err(ErrorKind::TypeMismatch),
        }
    }
}

/// Decodes the arguments of `File.write`.
pub fn decode_write_args(args: &Vec<Value>) -> (r: Result<(String, Vec<u8>), BridgeError>)
    ensures
        match r {
            Ok((p, b)) => write_args_spec(crate::value::models_of_list(args@)) == Ok::<
                (Seq<char>, Seq<u8>),
                ErrorKind,
            >((p@, b@)),
            Err(e) => write_args_spec(crate::value::models_of_list(args@)) == Err::<
                (Seq<char>, Seq<u8>),
                ErrorKind,
            >(e.kind),
        },
{
    proof {
        crate::value::lemma_models_of_list_index(args@);
    }
    if args.len() < 2 {
        return Err(type_mismatch(ValueTag::Str, ValueTag::Null));
    }
    let path = match &args[0] {
        Value::Str(p) => p.clone(),
        other => {
            return Err(type_mismatch(ValueTag::Str, other.tag()));
        },
    };
    match &args[1] {
        Value::Bytes(b) => Ok((path, clone_bytes(b))),
        other => Err(type_mismatch(ValueTag::Bytes, other.tag())),
    }
}

/// Turns the host's report for a `read` into the script-visible
/// result: the bytes on success, the failure's own kind otherwise.
pub fn finish_read(outcome: Result<Vec<u8>, HostIoError>) -> (r: Result<Value, BridgeError>)
    ensures
        match outcome {
            Ok(b) => r matches Ok(v) && v@ == ValueModel::Bytes(b@),
            Err(e) => r matches Err(err) && err.kind == io_error_kind_spec(e),
        },
{
    match outcome {
        Ok(b) => Ok(Value::Bytes(b)),
        Err(e) => Err(io_error(e)),
    }
}

/// Turns the host's report for a `write` into the script-visible
/// result: null on success (the script sees `undefined`), the
/// failure's own kind otherwise.
pub fn finish_write(outcome: Result<(), HostIoError>) -> (r: Result<Value, BridgeError>)
    ensures
        match outcome {
            Ok(_) => r matches Ok(v) && v@ == ValueModel::Null,
            Err(e) => r matches Err(err) && err.kind == io_error_kind_spec(e),
        },
{
    match outcome {
        Ok(_) => Ok(Value::Null),
        Err(e) => Err(io_error(e)),
    }
}

/// The host's report for a `stat`, with the numeric fields already in
/// the engine's number representation (its 64-bit floating bit
/// pattern), produced at the host boundary.
pub struct StatInfo {
    pub size_bits: u64,
    pub is_directory: bool,
    pub modified_bits: u64,
}

/// The stable shape of a `stat` result: exactly the fields `size`,
/// `isDirectory` and `modifiedTime`, in that order.
pub open spec fn stat_value_spec(st: StatInfo) -> ValueModel {
    ValueModel::Object(
        seq![
            ("size"@, ValueModel::Number(st.size_bits)),
            ("isDirectory"@, ValueModel::Bool(st.is_directory)),
            ("modifiedTime"@, ValueModel::Number(st.modified_bits)),
        ],
    )
}

/// Builds the object a successful `stat` returns to the script.
pub fn stat_value(st: StatInfo) -> (r: Value)
    ensures
        r@ == stat_value_spec(st),
{
    let mut pairs: Vec<(String, Value)> = Vec::new();
    pairs.push(("size".to_owned(), Value::Number(st.size_bits)));
    pairs.push(("isDirectory".to_owned(), Value::Bool(st.is_directory)));
    pairs.push(("modifiedTime".to_owned(), Value::Number(st.modified_bits)));
    proof {
        crate::value::lemma_models_of_pairs_index(pairs@);
        assert(crate::value::models_of_pairs(pairs@) =~= stat_value_spec(st)->Object_0);
    }
    Value::Object(pairs)
}

/// Turns the host's report for a `stat` into the script-visible
/// result.
pub fn finish_stat(outcome: Result<StatInfo, HostIoError>) -> (r: Result<Value, BridgeError>)
    ensures
        match outcome {
            Ok(st) => r matches Ok(v) && v@ == stat_value_spec(st),
            Err(e) => r matches Err(err) && err.kind == io_error_kind_spec(e),
        },
{
    match outcome {
        Ok(st) => Ok(stat_value(st)),
        Err(e) => Err(io_error(e)),
    }
}

/// The reference model of the filesystem the File capability assumes:
/// a mapping from path to content, where a write replaces the whole
/// content under its path and a read returns exactly the newest
/// content written there. The store keeps every write and reads the
/// newest, so its view is a plain map.
pub struct FileStore {
    entries: Vec<(String, Vec<u8>)>,
}

pub open spec fn store_map_of(entries: Seq<(String, Vec<u8>)>) -> Map<Seq<char>, Seq<u8>>
    decreases entries,
{
    if entries.len() == 0 {
        Map::empty()
    } else {
        store_map_of(entries.drop_last()).insert(entries.last().0@, entries.last().1@)
    }
}

impl View for FileStore {
    type V = Map<Seq<char>, Seq<u8>>;

    closed spec fn view(&self) -> Map<Seq<char>, Seq<u8>> {
        store_map_of(self.entries@)
    }
}

/// A key with a match whose later entries all miss resolves to that
/// match.
proof fn lemma_store_map_last_match(entries: Seq<(String, Vec<u8>)>, k: Seq<char>, j: int)
    requires
        0 <= j < entries.len(),
        entries[j].0@ == k,
        forall|idx: int| j < idx < entries.len() ==> (#[trigger] entries[idx]).0@ != k,
    ensures
        store_map_of(entries).contains_key(k),
        store_map_of(entries)[k] == entries[j].1@,
    decreases entries.len(),
{
    if j == entries.len() - 1 {
    } else {
        assert(entries.last().0@ != k);
        lemma_store_map_last_match(entries.drop_last(), k, j);
    }
}

/// A key that no entry carries is absent from the map.
proof fn lemma_store_map_no_match(entries: Seq<(String, Vec<u8>)>, k: Seq<char>)
    requires
        forall|idx: int| 0 <= idx < entries.len() ==> (#[trigger] entries[idx]).0@ != k,
    ensures
        !store_map_of(entries).contains_key(k),
    decreases entries.len(),
{
    if entries.len() > 0 {
        lemma_store_map_no_match(entries.drop_last(), k);
    }
}

impl FileStore {
    /// An empty filesystem model.
    pub fn new() -> (r: FileStore)
        ensures
            r@ == Map::<Seq<char>, Seq<u8>>::empty(),
    {
        FileStore { entries: Vec::new() }
    }

    /// Stores `data` under `path`, replacing whatever the path held.
    pub fn write(&mut self, path: &String, data: Vec<u8>)
        ensures
            final(self)@ == old(self)@.insert(path@, data@),
    {
        let entry = (path.clone(), data);
        self.entries.push(entry);
        proof {
            assert(self.entries@.drop_last() =~= old(self).entries@);
        }
    }

    /// Reads the content under `path`: exactly the newest bytes
    /// written there, or nothing when the path was never written.
    pub fn read(&self, path: &String) -> (r: Option<Vec<u8>>)
        ensures
            match r {
                Some(b) => self@.contains_key(path@) && b@ == self@[path@],
                None => !self@.contains_key(path@),
            },
    {
        let mut j: usize = self.entries.len();
        while j > 0
            invariant
                j <= self.entries.len(),
                forall|idx: int|
                    j <= idx < self.entries.len() ==> (#[trigger] self.entries@[idx]).0@ != path@,
            decreases j,
        {
            j = j - 1;
            if str_eq(self.entries[j].0.as_str(), path.as_str()) {
                proof {
                    lemma_store_map_last_match(self.entries@, path@, j as int);
                }
                return Some(clone_bytes(&self.entries[j].1));
            }
        }
        proof {
            lemma_store_map_no_match(self.entries@, path@);
        }
        None
    }
}

/// Writing bytes under a path and then reading that path yields
/// exactly the bytes written, whatever was stored before and whatever
/// the bytes are; every other path keeps its content.
pub proof fn lemma_write_then_read(fs: Map<Seq<char>, Seq<u8>>, p: Seq<char>, b: Seq<u8>)
    ensures
        fs.insert(p, b).contains_key(p),
        fs.insert(p, b)[p] == b,
        forall|q: Seq<char>|
            q != p ==> (fs.insert(p, b).contains_key(q) == fs.contains_key(q)),
        forall|q: Seq<char>|
            q != p && fs.contains_key(q) ==> fs.insert(p, b)[q] == fs[q],
{
}

} // verus!
