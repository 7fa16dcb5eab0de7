use vstd::prelude::*;
use crate::error::{BridgeError, ErrorKind, ValueTag, type_mismatch};
use crate::value::{Value, str_eq};

verus! {

/// The closed set of clipboard sources a call may target.
#[derive(Clone, Copy, PartialEq, Eq, Structural, Debug)]
pub enum ClipSource {
    /// The system clipboard; the default when a call names no source.
    Clipboard,
    /// The primary selection.
    Selection,
}

/// The name under which each source is selected at the script boundary.
pub open spec fn source_name_spec(s: ClipSource) -> Seq<char> {
    match s {
        ClipSource::Clipboard => "clipboard"@,
        ClipSource::Selection => "selection"@,
    }
}

pub open spec fn is_source_name(s: Seq<char>) -> bool {
    s == "clipboard"@ || s == "selection"@
}

/// What parsing a source name yields: the first matching name of the
/// closed set, otherwise `InvalidArgument`.
pub open spec fn parse_source_spec(s: Seq<char>) -> Result<ClipSource, ErrorKind> {
    if s == "clipboard"@ {
        Ok(ClipSource::Clipboard)
    } else if s == "selection"@ {
        Ok(ClipSource::Selection)
    } else {
        Err(ErrorKind::InvalidArgument)
    }
}

/// Parses a script-supplied source name. Exactly the names of the
/// closed set are accepted; any other text is `InvalidArgument`, never
/// a silent fallback to the default.
pub fn parse_source(name: &str) -> (r: Result<ClipSource, BridgeError>)
    ensures
        crate::error::result_matches(r, parse_source_spec(name@)),
        match r {
            Ok(s) => source_name_spec(s) == name@,
            Err(e) => e.kind == ErrorKind::InvalidArgument && !is_source_name(name@),
        },
        is_source_name(name@) ==> r is Ok,
{
    proof {
        reveal_strlit("clipboard");
        reveal_strlit("selection");
    }
    if str_eq(name, "clipboard") {
        Ok(ClipSource::Clipboard)
    } else if str_eq(name, "selection") {
        Ok(ClipSource::Selection)
    } else {
        Err(BridgeError::new(ErrorKind::InvalidArgument, "unknown clipboard source".to_owned()))
    }
}

/// How a marshaled argument selects a source: absent arguments are
/// handled by the callers, a null selects the default, a string is
/// parsed against the closed set, and any other tag is a type error.
pub open spec fn source_from_value_spec(v: crate::value::ValueModel) -> Result<
    ClipSource,
    ErrorKind,
> {
    match v {
        crate::value::ValueModel::Null => Ok(ClipSource::Clipboard),
        crate::value::ValueModel::Str(s) => parse_source_spec(s),
        _ => Err(ErrorKind::TypeMismatch),
    }
}

/// The source selected by a `get(source?)` argument list: no argument
/// means the default source.
pub open spec fn get_source_spec(args: Seq<crate::value::ValueModel>) -> Result<
    ClipSource,
    ErrorKind,
> {
    if args.len() == 0 {
        Ok(ClipSource::Clipboard)
    } else {
        source_from_value_spec(args[0])
    }
}

/// Decodes the arguments of `Clipboard.get`.
pub fn decode_get_args(args: &Vec<Value>) -> (r: Result<ClipSource, BridgeError>)
    ensures
        crate::error::result_matches(r, get_source_spec(crate::value::models_of_list(args@))),
{
    proof {
        crate::value::lemma_models_of_list_index(args@);
    }
    if args.len() == 0 {
        Ok(ClipSource::Clipboard)
    } else {
        source_from_arg(&args[0])
    }
}

/// Decodes the arguments of `Clipboard.set`: the text to place, then
/// an optional source.
pub fn decode_set_args(args: &Vec<Value>) -> (r: Result<(String, ClipSource), BridgeError>)
    ensures
        match r {
            Ok((text, source)) => set_args_spec(crate::value::models_of_list(args@)) == Ok::<
                (Seq<char>, ClipSource),
                ErrorKind,
            >((text@, source)),
            Err(e) => set_args_spec(crate::value::models_of_list(args@)) == Err::<
                (Seq<char>, ClipSource),
                ErrorKind,
            >(e.kind),
        },
{
    proof {
        crate::value::lemma_models_of_list_index(args@);
    }
    if args.len() == 0 {
        return Err(type_mismatch(ValueTag::Str, ValueTag::Null));
    }
    let text = match &args[0] {
        Value::Str(s) => s.clone(),
        other => {
            return Err(type_mismatch(ValueTag::Str, other.tag()));
        },
    };
    let source = if args.len() >= 2 {
        match source_from_arg(&args[1]) {
            Ok(s) => s,
            Err(e) => {
                return Err(e);
            },
        }
    } else {
        ClipSource::Clipboard
    };
    Ok((text, source))
}

/// The text and source selected by a `set(text, source?)` argument
/// list: the text must be a string, a missing source means the default.
pub open spec fn set_args_spec(args: Seq<crate::value::ValueModel>) -> Result<
    (Seq<char>, ClipSource),
    ErrorKind,
> {
    if args.len() == 0 {
        Err(ErrorKind::TypeMismatch)
    } else {
        match args[0] {
            crate::value::ValueModel::Str(text) => if args.len() >= 2 {
                match source_from_value_spec(args[1]) {
                    Ok(s) => Ok((text, s)),
                    Err(k) => Err(k),
                }
            } else {
                Ok((text, ClipSource::Clipboard))
            },
            _ => Err(ErrorKind::TypeMismatch),
        }
    }
}

fn source_from_arg(v: &Value) -> (r: Result<ClipSource, BridgeError>)
    ensures
        crate::error::result_matches(r, source_from_value_spec(v@)),
{
    match v {
        Value::Null => Ok(ClipSource::Clipboard),
        Value::Str(s) => parse_source(s.as_str()),
        other => Err(type_mismatch(ValueTag::Str, other.tag())),
    }
}

/// What the host clipboard reported for a `get` call.
pub enum ClipReadOutcome {
    /// Text content.
    Text(String),
    /// The clipboard was empty or held no text.
    Empty,
    /// The clipboard subsystem reported a hard failure.
    Unavailable,
}

/// Turns the host's report into the script-visible result: text as a
/// string, an empty or non-text clipboard as the empty string, and a
/// hard failure as `ClipboardUnavailable`.
pub fn finish_get(outcome: ClipReadOutcome) -> (r: Result<Value, BridgeError>)
    ensures
        match outcome {
            ClipReadOutcome::Text(s) => r matches Ok(v) && v@ == crate::value::ValueModel::Str(s@),
            ClipReadOutcome::Empty => r matches Ok(v) && v@ == crate::value::ValueModel::Str(
                Seq::<char>::empty(),
            ),
            ClipReadOutcome::Unavailable => r matches Err(e) && e.kind
                == ErrorKind::ClipboardUnavailable,
        },
{
    match outcome {
        ClipReadOutcome::Text(s) => Ok(Value::Str(s)),
        ClipReadOutcome::Empty => Ok(Value::Str(String::new())),
        ClipReadOutcome::Unavailable => Err(
            BridgeError::new(ErrorKind::ClipboardUnavailable, "clipboard unavailable".to_owned()),
        ),
    }
}

/// The mathematical state of the host clipboard: the text each source
/// holds.
pub ghost struct ClipModel {
    pub clipboard: Seq<char>,
    pub selection: Seq<char>,
}

/// The text a source holds in a clipboard state.
pub open spec fn content_of(m: ClipModel, s: ClipSource) -> Seq<char> {
    match s {
        ClipSource::Clipboard => m.clipboard,
        ClipSource::Selection => m.selection,
    }
}

/// The clipboard state after one source's content is replaced.
pub open spec fn set_spec(m: ClipModel, s: ClipSource, text: Seq<char>) -> ClipModel {
    match s {
        ClipSource::Clipboard => ClipModel { clipboard: text, ..m },
        ClipSource::Selection => ClipModel { selection: text, ..m },
    }
}

/// Setting a source and then reading it yields exactly the text set,
/// while every other source keeps the content it held before.
pub proof fn lemma_set_then_get(m: ClipModel, s: ClipSource, text: Seq<char>)
    ensures
        content_of(set_spec(m, s, text), s) == text,
        forall|o: ClipSource| o != s ==> content_of(set_spec(m, s, text), o) == content_of(m, o),
{
}

/// The reference model of the host clipboard the bridge relies on: one
/// text slot per source. `set` replaces exactly the addressed slot and
/// `get` reads it, so setting one source never disturbs the other.
pub struct ClipStore {
    pub clipboard: String,
    pub selection: String,
}

impl View for ClipStore {
    type V = ClipModel;

    open spec fn view(&self) -> ClipModel {
        ClipModel { clipboard: self.clipboard@, selection: self.selection@ }
    }
}

impl ClipStore {
    /// A clipboard whose sources are all empty.
    pub fn new() -> (r: ClipStore)
        ensures
            forall|s: ClipSource| content_of(r@, s) == Seq::<char>::empty(),
    {
        ClipStore { clipboard: String::new(), selection: String::new() }
    }

    /// Replaces the addressed source's content with `text`, exactly as
    /// `set_spec` describes.
    pub fn set(&mut self, source: ClipSource, text: String)
        ensures
            final(self)@ == set_spec(old(self)@, source, text@),
    {
        match source {
            ClipSource::Clipboard => {
                self.clipboard = text;
            },
            ClipSource::Selection => {
                self.selection = text;
            },
        }
    }

    /// Reads the addressed source's content.
    pub fn get(&self, source: ClipSource) -> (r: String)
        ensures
            r@ == content_of(self@, source),
    {
        match source {
            ClipSource::Clipboard => self.clipboard.clone(),
            ClipSource::Selection => self.selection.clone(),
        }
    }
}

} // verus!
