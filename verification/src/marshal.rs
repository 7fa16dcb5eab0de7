use vstd::prelude::*;
use crate::value::{
    Value, ValueModel, model_of, models_of_list, models_of_pairs, depth_of, depth_of_list,
    depth_of_pairs, lemma_depth_of_list_bound, lemma_depth_of_pairs_bound,
    lemma_models_of_list_index, lemma_models_of_pairs_index, clone_bytes,
};
use crate::error::{BridgeError, ErrorKind};

verus! {

broadcast use vstd::seq::group_seq_axioms;

/// A script-engine value as the host sees it at the marshaling
/// boundary: the engine kinds the bridge can represent, plus `Foreign`
/// for everything it cannot (functions, symbols, external handles).
///
/// The host process extracts one of these trees from the live engine
/// value before handing it to the marshaler; strings arrive already
/// decoded (the engine's lossy extraction is the documented edge case),
/// and numbers arrive as their 64-bit floating bit pattern.
#[derive(Debug, PartialEq)]
pub enum ScriptValue {
    Undefined,
    Null,
    Bool(bool),
    /// The bit pattern of the engine's 64-bit floating-point number.
    Number(u64),
    Str(String),
    Bytes(Vec<u8>),
    Array(Vec<ScriptValue>),
    Object(Vec<(String, ScriptValue)>),
    /// An engine value with no host representation.
    Foreign,
}

/// The mathematical model of a script-engine value.
pub ghost enum ScriptModel {
    Undefined,
    Null,
    Bool(bool),
    Number(u64),
    Str(Seq<char>),
    Bytes(Seq<u8>),
    Array(Seq<ScriptModel>),
    Object(Seq<(Seq<char>, ScriptModel)>),
    Foreign,
}

pub open spec fn script_model_of(sv: ScriptValue) -> ScriptModel
    decreases sv,
{
    match sv {
        ScriptValue::Undefined => ScriptModel::Undefined,
        ScriptValue::Null => ScriptModel::Null,
        ScriptValue::Bool(b) => ScriptModel::Bool(b),
        ScriptValue::Number(n) => ScriptModel::Number(n),
        ScriptValue::Str(s) => ScriptModel::Str(s@),
        ScriptValue::Bytes(b) => ScriptModel::Bytes(b@),
        ScriptValue::Array(items) => ScriptModel::Array(script_models_of_list(items@)),
        ScriptValue::Object(pairs) => ScriptModel::Object(script_models_of_pairs(pairs@)),
        ScriptValue::Foreign => ScriptModel::Foreign,
    }
}

pub open spec fn script_models_of_list(items: Seq<ScriptValue>) -> Seq<ScriptModel>
    decreases items,
{
    if items.len() == 0 {
        Seq::empty()
    } else {
        seq![script_model_of(items[0])] + script_models_of_list(items.drop_first())
    }
}

pub open spec fn script_models_of_pairs(pairs: Seq<(String, ScriptValue)>) -> Seq<
    (Seq<char>, ScriptModel),
>
    decreases pairs,
{
    if pairs.len() == 0 {
        Seq::empty()
    } else {
        seq![(pairs[0].0@, script_model_of(pairs[0].1))] + script_models_of_pairs(
            pairs.drop_first(),
        )
    }
}

impl View for ScriptValue {
    type V = ScriptModel;

    open spec fn view(&self) -> ScriptModel {
        script_model_of(*self)
    }
}

pub proof fn lemma_script_models_of_list_index(items: Seq<ScriptValue>)
    ensures
        script_models_of_list(items).len() == items.len(),
        forall|i: int|
            0 <= i < items.len() ==> #[trigger] script_models_of_list(items)[i]
                == script_model_of(items[i]),
    decreases items,
{
    if items.len() > 0 {
        lemma_script_models_of_list_index(items.drop_first());
    }
}

/// How the bridge presents a host value to the engine: every tag maps
/// to the engine kind of the same shape, and the collapsed null tag
/// surfaces as the engine's `null`.
pub open spec fn to_script_spec(a: ValueModel) -> ScriptModel
    decreases a,
{
    match a {
        ValueModel::Null => ScriptModel::Null,
        ValueModel::Bool(b) => ScriptModel::Bool(b),
        ValueModel::Number(n) => ScriptModel::Number(n),
        ValueModel::Str(s) => ScriptModel::Str(s),
        ValueModel::Bytes(b) => ScriptModel::Bytes(b),
        ValueModel::Array(items) => ScriptModel::Array(to_script_list_spec(items)),
        ValueModel::Object(pairs) => ScriptModel::Object(to_script_pairs_spec(pairs)),
    }
}

pub open spec fn to_script_list_spec(items: Seq<ValueModel>) -> Seq<ScriptModel>
    decreases items,
{
    if items.len() == 0 {
        Seq::empty()
    } else {
        seq![to_script_spec(items[0])] + to_script_list_spec(items.drop_first())
    }
}

pub open spec fn to_script_pairs_spec(pairs: Seq<(Seq<char>, ValueModel)>) -> Seq<
    (Seq<char>, ScriptModel),
>
    decreases pairs,
{
    if pairs.len() == 0 {
        Seq::empty()
    } else {
        seq![(pairs[0].0, to_script_spec(pairs[0].1))] + to_script_pairs_spec(pairs.drop_first())
    }
}

pub proof fn lemma_to_script_list_index(items: Seq<ValueModel>)
    ensures
        to_script_list_spec(items).len() == items.len(),
        forall|i: int|
            0 <= i < items.len() ==> #[trigger] to_script_list_spec(items)[i] == to_script_spec(
                items[i],
            ),
    decreases items,
{
    if items.len() > 0 {
        lemma_to_script_list_index(items.drop_first());
    }
}

pub proof fn lemma_to_script_pairs_index(pairs: Seq<(Seq<char>, ValueModel)>)
    ensures
        to_script_pairs_spec(pairs).len() == pairs.len(),
        forall|i: int|
            0 <= i < pairs.len() ==> #[trigger] to_script_pairs_spec(pairs)[i] == (
            pairs[i].0,
            to_script_spec(pairs[i].1),
            ),
    decreases pairs,
{
    if pairs.len() > 0 {
        lemma_to_script_pairs_index(pairs.drop_first());
    }
}

/// Presents a host value to the engine, as `to_script_spec` describes.
pub fn to_script(v: &Value) -> (r: ScriptValue)
    ensures
        r@ == to_script_spec(v@),
    decreases v,
{
    match v {
        Value::Null => ScriptValue::Null,
        Value::Bool(b) => ScriptValue::Bool(*b),
        Value::Number(n) => ScriptValue::Number(*n),
        Value::Str(s) => ScriptValue::Str(s.clone()),
        Value::Bytes(b) => ScriptValue::Bytes(clone_bytes(b)),
        Value::Array(items) => {
            let mut out: Vec<ScriptValue> = Vec::new();
            let mut i: usize = 0;
            while i < items.len()
                invariant
                    *v == Value::Array(*items),
                    i <= items.len(),
                    out@.len() == i,
                    forall|j: int|
                        0 <= j < i ==> script_model_of(#[trigger] out@[j]) == to_script_spec(
                            model_of(items@[j]),
                        ),
                decreases items.len() - i,
            {
                proof {
                    assert(v->Array_0 == *items);
                    assert(i < v->Array_0@.len());
                    assert(decreases_to!(*v => v->Array_0));
                    assert(decreases_to!(v->Array_0 => v->Array_0@));
                    assert(decreases_to!(v->Array_0@ => v->Array_0@[i as int]));
                }
                let y = to_script(&items[i]);
                out.push(y);
                i += 1;
            }
            proof {
                lemma_models_of_list_index(items@);
                lemma_script_models_of_list_index(out@);
                lemma_to_script_list_index(models_of_list(items@));
                assert(script_models_of_list(out@) =~= to_script_list_spec(
                    models_of_list(items@),
                ));
            }
            ScriptValue::Array(out)
        },
        Value::Object(pairs) => {
            let mut out: Vec<(String, ScriptValue)> = Vec::new();
            let mut i: usize = 0;
            while i < pairs.len()
                invariant
                    *v == Value::Object(*pairs),
                    i <= pairs.len(),
                    out@.len() == i,
                    forall|j: int|
                        0 <= j < i ==> (#[trigger] out@[j]).0@ == pairs@[j].0@
                            && script_model_of(out@[j].1) == to_script_spec(model_of(pairs@[j].1)),
                decreases pairs.len() - i,
            {
                proof {
                    assert(v->Object_0 == *pairs);
                    assert(i < v->Object_0@.len());
                    assert(decreases_to!(*v => v->Object_0));
                    assert(decreases_to!(v->Object_0 => v->Object_0@));
                    assert(decreases_to!(v->Object_0@ => v->Object_0@[i as int]));
                    assert(decreases_to!(v->Object_0@[i as int] => v->Object_0@[i as int].1));
                }
                let name = pairs[i].0.clone();
                let y = to_script(&pairs[i].1);
                out.push((name, y));
                i += 1;
            }
            proof {
                lemma_models_of_pairs_index(pairs@);
                lemma_script_models_of_pairs_index(out@);
                lemma_to_script_pairs_index(models_of_pairs(pairs@));
                assert(script_models_of_pairs(out@) =~= to_script_pairs_spec(
                    models_of_pairs(pairs@),
                ));
            }
            ScriptValue::Object(out)
        },
    }
}

/// How the bridge reads an engine value back into a host value.
///
/// `fuel` bounds the nesting the conversion will follow: each container
/// level consumes one unit, and exhausting the budget yields
/// `Internal`, so a self-referential engine object ends in an error
/// instead of endless descent. A `Foreign` value yields `TypeMismatch`.
/// Both `null` and `undefined` read back as the single null tag.
pub open spec fn to_native_spec(sm: ScriptModel, fuel: nat) -> Result<ValueModel, ErrorKind>
    decreases fuel, 0nat,
{
    match sm {
        ScriptModel::Undefined => Ok(ValueModel::Null),
        ScriptModel::Null => Ok(ValueModel::Null),
        ScriptModel::Bool(b) => Ok(ValueModel::Bool(b)),
        ScriptModel::Number(n) => Ok(ValueModel::Number(n)),
        ScriptModel::Str(s) => Ok(ValueModel::Str(s)),
        ScriptModel::Bytes(b) => Ok(ValueModel::Bytes(b)),
        ScriptModel::Array(items) => if fuel == 0 {
            Err(ErrorKind::Internal)
        } else {
            match to_native_list_spec(items, (fuel - 1) as nat) {
                Ok(vs) => Ok(ValueModel::Array(vs)),
                Err(k) => Err(k),
            }
        },
        ScriptModel::Object(pairs) => if fuel == 0 {
            Err(ErrorKind::Internal)
        } else {
            match to_native_pairs_spec(pairs, (fuel - 1) as nat) {
                Ok(ps) => Ok(ValueModel::Object(ps)),
                Err(k) => Err(k),
            }
        },
        ScriptModel::Foreign => Err(ErrorKind::TypeMismatch),
    }
}

/// Elementwise conversion of an array's items; the first failing item
/// decides the error.
pub open spec fn to_native_list_spec(items: Seq<ScriptModel>, fuel: nat) -> Result<
    Seq<ValueModel>,
    ErrorKind,
>
    decreases fuel, items.len() + 1,
{
    if items.len() == 0 {
        Ok(Seq::empty())
    } else {
        match to_native_spec(items[0], fuel) {
            Err(k) => Err(k),
            Ok(v) => match to_native_list_spec(items.drop_first(), fuel) {
                Err(k) => Err(k),
                Ok(rest) => Ok(seq![v] + rest),
            },
        }
    }
}

/// Elementwise conversion of an object's properties; names pass through
/// unchanged and the first failing property value decides the error.
pub open spec fn to_native_pairs_spec(pairs: Seq<(Seq<char>, ScriptModel)>, fuel: nat) -> Result<
    Seq<(Seq<char>, ValueModel)>,
    ErrorKind,
>
    decreases fuel, pairs.len() + 1,
{
    if pairs.len() == 0 {
        Ok(Seq::empty())
    } else {
        match to_native_spec(pairs[0].1, fuel) {
            Err(k) => Err(k),
            Ok(v) => match to_native_pairs_spec(pairs.drop_first(), fuel) {
                Err(k) => Err(k),
                Ok(rest) => Ok(seq![(pairs[0].0, v)] + rest),
            },
        }
    }
}

/// Splits the elementwise conversion of a list at position `i`, given
/// that every element before `i` converts successfully.
pub proof fn lemma_to_native_list_split(items: Seq<ScriptModel>, fuel: nat, i: int, pre: Seq<ValueModel>)
    requires
        0 <= i <= items.len(),
        pre.len() == i,
        forall|j: int|
            0 <= j < i ==> to_native_spec(#[trigger] items[j], fuel) == Ok::<
                ValueModel,
                ErrorKind,
            >(pre[j]),
    ensures
        to_native_list_spec(items, fuel) == match to_native_list_spec(items.skip(i), fuel) {
            Ok(rest) => Ok::<Seq<ValueModel>, ErrorKind>(pre + rest),
            Err(k) => Err::<Seq<ValueModel>, ErrorKind>(k),
        },
    decreases i,
{
    if i == 0 {
        assert(items.skip(0) =~= items);
        match to_native_list_spec(items, fuel) {
            Ok(rest) => {
                assert(pre + rest =~= rest);
            },
            Err(_) => {},
        }
    } else {
        lemma_to_native_list_split(items.drop_first(), fuel, i - 1, pre.drop_first());
        assert(items.drop_first().skip(i - 1) =~= items.skip(i));
        assert(to_native_spec(items[0], fuel) == Ok::<ValueModel, ErrorKind>(pre[0]));
        match to_native_list_spec(items.skip(i), fuel) {
            Ok(rest) => {
                assert(seq![pre[0]] + (pre.drop_first() + rest) =~= pre + rest);
            },
            Err(_) => {},
        }
    }
}

/// Splits the elementwise conversion of a property list at position
/// `i`, given that every property before `i` converts successfully.
pub proof fn lemma_to_native_pairs_split(
    pairs: Seq<(Seq<char>, ScriptModel)>,
    fuel: nat,
    i: int,
    pre: Seq<(Seq<char>, ValueModel)>,
)
    requires
        0 <= i <= pairs.len(),
        pre.len() == i,
        forall|j: int|
            0 <= j < i ==> #[trigger] pre[j].0 == pairs[j].0 && to_native_spec(pairs[j].1, fuel)
                == Ok::<ValueModel, ErrorKind>(pre[j].1),
    ensures
        to_native_pairs_spec(pairs, fuel) == match to_native_pairs_spec(pairs.skip(i), fuel) {
            Ok(rest) => Ok::<Seq<(Seq<char>, ValueModel)>, ErrorKind>(pre + rest),
            Err(k) => Err::<Seq<(Seq<char>, ValueModel)>, ErrorKind>(k),
        },
    decreases i,
{
    if i == 0 {
        assert(pairs.skip(0) =~= pairs);
        match to_native_pairs_spec(pairs, fuel) {
            Ok(rest) => {
                assert(pre + rest =~= rest);
            },
            Err(_) => {},
        }
    } else {
        lemma_to_native_pairs_split(pairs.drop_first(), fuel, i - 1, pre.drop_first());
        assert(pairs.drop_first().skip(i - 1) =~= pairs.skip(i));
        assert(pre[0].0 == pairs[0].0);
        assert(to_native_spec(pairs[0].1, fuel) == Ok::<ValueModel, ErrorKind>(pre[0].1));
        match to_native_pairs_spec(pairs.skip(i), fuel) {
            Ok(rest) => {
                assert(seq![(pairs[0].0, pre[0].1)] =~= seq![pre[0]]);
                assert(seq![pre[0]] + (pre.drop_first() + rest) =~= pre + rest);
            },
            Err(_) => {},
        }
    }
}

/// The executable result matches the specified one: the same value
/// model on success, the same error kind on failure.
pub open spec fn to_native_matches(
    r: Result<Value, BridgeError>,
    s: Result<ValueModel, ErrorKind>,
) -> bool {
    match r {
        Ok(v) => s == Ok::<ValueModel, ErrorKind>(v@),
        Err(e) => s == Err::<ValueModel, ErrorKind>(e.kind),
    }
}

/// Reads an engine value into a host value, as `to_native_spec`
/// describes: `fuel` bounds the nesting followed before the conversion
/// fails with `Internal`, and a `Foreign` value fails with
/// `TypeMismatch`.
pub fn to_native(sv: &ScriptValue, fuel: u32) -> (r: Result<Value, BridgeError>)
    ensures
        to_native_matches(r, to_native_spec(sv@, fuel as nat)),
    decreases fuel,
{
    match sv {
        ScriptValue::Undefined => Ok(Value::Null),
        ScriptValue::Null => Ok(Value::Null),
        ScriptValue::Bool(b) => Ok(Value::Bool(*b)),
        ScriptValue::Number(n) => Ok(Value::Number(*n)),
        ScriptValue::Str(s) => Ok(Value::Str(s.clone())),
        ScriptValue::Bytes(b) => Ok(Value::Bytes(clone_bytes(b))),
        ScriptValue::Foreign => Err(
            BridgeError::new(
                ErrorKind::TypeMismatch,
                "value has no host representation".to_owned(),
            ),
        ),
        ScriptValue::Array(items) => {
            if fuel == 0 {
                return Err(
                    BridgeError::new(ErrorKind::Internal, "marshaling depth exceeded".to_owned()),
                );
            }
            let ghost sms = script_models_of_list(items@);
            let mut out: Vec<Value> = Vec::new();
            let mut i: usize = 0;
            proof {
                lemma_script_models_of_list_index(items@);
            }
            while i < items.len()
                invariant
                    *sv == ScriptValue::Array(*items),
                    sms == script_models_of_list(items@),
                    sms.len() == items@.len(),
                    forall|j: int|
                        0 <= j < items@.len() ==> #[trigger] sms[j] == script_model_of(items@[j]),
                    fuel >= 1,
                    i <= items.len(),
                    out@.len() == i,
                    forall|j: int|
                        0 <= j < i ==> to_native_spec(#[trigger] sms[j], (fuel - 1) as nat) == Ok::<
                            ValueModel,
                            ErrorKind,
                        >(model_of(out@[j])),
                decreases items.len() - i,
            {
                match to_native(&items[i], fuel - 1) {
                    Ok(v) => {
                        out.push(v);
                        i += 1;
                    },
                    Err(e) => {
                        proof {
                            lemma_models_of_list_index(out@);
                            lemma_to_native_list_split(
                                sms,
                                (fuel - 1) as nat,
                                i as int,
                                models_of_list(out@),
                            );
                            assert(sms.skip(i as int).len() > 0);
                            assert(sms.skip(i as int)[0] == sms[i as int]);
                        }
                        return Err(e);
                    },
                }
            }
            proof {
                lemma_models_of_list_index(out@);
                lemma_to_native_list_split(sms, (fuel - 1) as nat, i as int, models_of_list(out@));
                assert(sms.skip(i as int) =~= Seq::<ScriptModel>::empty());
                assert(models_of_list(out@) + Seq::<ValueModel>::empty() =~= models_of_list(out@));
            }
            Ok(Value::Array(out))
        },
        ScriptValue::Object(pairs) => {
            if fuel == 0 {
                return Err(
                    BridgeError::new(ErrorKind::Internal, "marshaling depth exceeded".to_owned()),
                );
            }
            let ghost sms = script_models_of_pairs(pairs@);
            let mut out: Vec<(String, Value)> = Vec::new();
            let mut i: usize = 0;
            proof {
                lemma_script_models_of_pairs_index(pairs@);
            }
            while i < pairs.len()
                invariant
                    *sv == ScriptValue::Object(*pairs),
                    sms == script_models_of_pairs(pairs@),
                    sms.len() == pairs@.len(),
                    forall|j: int|
                        0 <= j < pairs@.len() ==> #[trigger] sms[j] == (
                        pairs@[j].0@,
                        script_model_of(pairs@[j].1),
                        ),
                    fuel >= 1,
                    i <= pairs.len(),
                    out@.len() == i,
                    forall|j: int|
                        0 <= j < i ==> (#[trigger] out@[j]).0@ == sms[j].0 && to_native_spec(
                            sms[j].1,
                            (fuel - 1) as nat,
                        ) == Ok::<ValueModel, ErrorKind>(model_of(out@[j].1)),
                decreases pairs.len() - i,
            {
                match to_native(&pairs[i].1, fuel - 1) {
                    Ok(v) => {
                        let name = pairs[i].0.clone();
                        out.push((name, v));
                        i += 1;
                    },
                    Err(e) => {
                        proof {
                            lemma_models_of_pairs_index(out@);
                            lemma_to_native_pairs_split(
                                sms,
                                (fuel - 1) as nat,
                                i as int,
                                models_of_pairs(out@),
                            );
                            assert(sms.skip(i as int).len() > 0);
                            assert(sms.skip(i as int)[0] == sms[i as int]);
                        }
                        return Err(e);
                    },
                }
            }
            proof {
                lemma_models_of_pairs_index(out@);
                lemma_to_native_pairs_split(sms, (fuel - 1) as nat, i as int, models_of_pairs(out@));
                assert(sms.skip(i as int) =~= Seq::<(Seq<char>, ScriptModel)>::empty());
                assert(models_of_pairs(out@) + Seq::<(Seq<char>, ValueModel)>::empty()
                    =~= models_of_pairs(out@));
            }
            Ok(Value::Object(out))
        },
    }
}

/// Marshaling a host value out to the engine and back recovers the
/// value exactly, whenever the reading budget covers the value's
/// nesting depth. Numbers are carried as opaque bit patterns and
/// strings as already-decoded text, so no precision or encoding is lost
/// inside the bridge itself.
pub proof fn lemma_round_trip(a: ValueModel, fuel: nat)
    requires
        depth_of(a) <= fuel,
    ensures
        to_native_spec(to_script_spec(a), fuel) == Ok::<ValueModel, ErrorKind>(a),
    decreases a,
{
    match a {
        ValueModel::Array(items) => {
            assert(fuel >= 1);
            lemma_round_trip_list(items, (fuel - 1) as nat);
        },
        ValueModel::Object(pairs) => {
            assert(fuel >= 1);
            lemma_round_trip_pairs(pairs, (fuel - 1) as nat);
        },
        _ => {},
    }
}

pub proof fn lemma_round_trip_list(items: Seq<ValueModel>, fuel: nat)
    requires
        depth_of_list(items) <= fuel,
    ensures
        to_native_list_spec(to_script_list_spec(items), fuel) == Ok::<
            Seq<ValueModel>,
            ErrorKind,
        >(items),
    decreases items,
{
    if items.len() == 0 {
        assert(items =~= Seq::<ValueModel>::empty());
    } else {
        let s = to_script_list_spec(items);
        let tail = to_script_list_spec(items.drop_first());
        assert(s == seq![to_script_spec(items[0])] + tail);
        assert(s.len() == 1 + tail.len());
        assert(s[0] == to_script_spec(items[0]));
        assert(s.drop_first() =~= tail);
        lemma_depth_of_list_bound(items, 0);
        lemma_round_trip(items[0], fuel);
        lemma_round_trip_list(items.drop_first(), fuel);
        assert(to_native_spec(s[0], fuel) == Ok::<ValueModel, ErrorKind>(items[0]));
        assert(to_native_list_spec(s.drop_first(), fuel) == Ok::<Seq<ValueModel>, ErrorKind>(
            items.drop_first(),
        ));
        assert(seq![items[0]] + items.drop_first() =~= items);
    }
}

pub proof fn lemma_round_trip_pairs(pairs: Seq<(Seq<char>, ValueModel)>, fuel: nat)
    requires
        depth_of_pairs(pairs) <= fuel,
    ensures
        to_native_pairs_spec(to_script_pairs_spec(pairs), fuel) == Ok::<
            Seq<(Seq<char>, ValueModel)>,
            ErrorKind,
        >(pairs),
    decreases pairs,
{
    if pairs.len() == 0 {
        assert(pairs =~= Seq::<(Seq<char>, ValueModel)>::empty());
    } else {
        let s = to_script_pairs_spec(pairs);
        let tail = to_script_pairs_spec(pairs.drop_first());
        assert(s == seq![(pairs[0].0, to_script_spec(pairs[0].1))] + tail);
        assert(s.len() == 1 + tail.len());
        assert(s[0] == (pairs[0].0, to_script_spec(pairs[0].1)));
        assert(s.drop_first() =~= tail);
        lemma_depth_of_pairs_bound(pairs, 0);
        lemma_round_trip(pairs[0].1, fuel);
        lemma_round_trip_pairs(pairs.drop_first(), fuel);
        assert(to_native_spec(s[0].1, fuel) == Ok::<ValueModel, ErrorKind>(pairs[0].1));
        assert(to_native_pairs_spec(s.drop_first(), fuel) == Ok::<
            Seq<(Seq<char>, ValueModel)>,
            ErrorKind,
        >(pairs.drop_first()));
        assert(seq![pairs[0]] + pairs.drop_first() =~= pairs);
    }
}

pub proof fn lemma_script_models_of_pairs_index(pairs: Seq<(String, ScriptValue)>)
    ensures
        script_models_of_pairs(pairs).len() == pairs.len(),
        forall|i: int|
            0 <= i < pairs.len() ==> #[trigger] script_models_of_pairs(pairs)[i] == (
            pairs[i].0@,
            script_model_of(pairs[i].1),
            ),
    decreases pairs,
{
    if pairs.len() > 0 {
        lemma_script_models_of_pairs_index(pairs.drop_first());
    }
}

} // verus!
