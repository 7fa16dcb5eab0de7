use vstd::prelude::*;

verus! {

/// A value marshaled across the host/script boundary.
///
/// Numbers travel as the engine's 64-bit floating representation; the
/// library carries that representation as its raw bit pattern and treats
/// it as opaque, so marshaling preserves every number exactly. Objects
/// keep their own enumerable properties as an ordered list of name/value
/// pairs, in the enumeration order the engine reported.
#[derive(Debug, PartialEq)]
pub enum Value {
    /// The engine's `null` and `undefined`, collapsed to one host tag.
    Null,
    Bool(bool),
    /// The bit pattern of the engine's 64-bit floating-point number.
    Number(u64),
    Str(String),
    Bytes(Vec<u8>),
    Array(Vec<Value>),
    Object(Vec<(String, Value)>),
}

/// The mathematical model of a marshaled value: the same tree, with
/// every string read as a sequence of characters and every container as
/// a sequence. Contracts in this crate speak of values through this
/// model.
pub ghost enum ValueModel {
    Null,
    Bool(bool),
    Number(u64),
    Str(Seq<char>),
    Bytes(Seq<u8>),
    Array(Seq<ValueModel>),
    Object(Seq<(Seq<char>, ValueModel)>),
}

pub open spec fn model_of(v: Value) -> ValueModel
    decreases v,
{
    match v {
        Value::Null => ValueModel::Null,
        Value::Bool(b) => ValueModel::Bool(b),
        Value::Number(n) => ValueModel::Number(n),
        Value::Str(s) => ValueModel::Str(s@),
        Value::Bytes(b) => ValueModel::Bytes(b@),
        Value::Array(items) => ValueModel::Array(models_of_list(items@)),
        Value::Object(pairs) => ValueModel::Object(models_of_pairs(pairs@)),
    }
}

pub open spec fn models_of_list(items: Seq<Value>) -> Seq<ValueModel>
    decreases items,
{
    if items.len() == 0 {
        Seq::empty()
    } else {
        seq![model_of(items[0])] + models_of_list(items.drop_first())
    }
}

pub open spec fn models_of_pairs(pairs: Seq<(String, Value)>) -> Seq<(Seq<char>, ValueModel)>
    decreases pairs,
{
    if pairs.len() == 0 {
        Seq::empty()
    } else {
        seq![(pairs[0].0@, model_of(pairs[0].1))] + models_of_pairs(pairs.drop_first())
    }
}

/// The model of a value list is the pointwise model of its elements.
pub proof fn lemma_models_of_list_index(items: Seq<Value>)
    ensures
        models_of_list(items).len() == items.len(),
        forall|i: int|
            0 <= i < items.len() ==> #[trigger] models_of_list(items)[i] == model_of(items[i]),
    decreases items,
{
    if items.len() > 0 {
        lemma_models_of_list_index(items.drop_first());
    }
}

/// The model of a pair list is the pointwise model of its pairs.
pub proof fn lemma_models_of_pairs_index(pairs: Seq<(String, Value)>)
    ensures
        models_of_pairs(pairs).len() == pairs.len(),
        forall|i: int|
            0 <= i < pairs.len() ==> #[trigger] models_of_pairs(pairs)[i] == (
            pairs[i].0@,
            model_of(pairs[i].1),
            ),
    decreases pairs,
{
    if pairs.len() > 0 {
        lemma_models_of_pairs_index(pairs.drop_first());
    }
}

impl View for Value {
    type V = ValueModel;

    open spec fn view(&self) -> ValueModel {
        model_of(*self)
    }
}

/// Nesting depth of a marshaled value: scalars have depth zero, and a
/// container is one deeper than its deepest element.
pub open spec fn depth_of(a: ValueModel) -> nat
    decreases a,
{
    match a {
        ValueModel::Array(items) => 1 + depth_of_list(items),
        ValueModel::Object(pairs) => 1 + depth_of_pairs(pairs),
        _ => 0,
    }
}

pub open spec fn depth_of_list(items: Seq<ValueModel>) -> nat
    decreases items,
{
    if items.len() == 0 {
        0
    } else {
        let head = depth_of(items[0]);
        let rest = depth_of_list(items.drop_first());
        if head > rest {
            head
        } else {
            rest
        }
    }
}

pub open spec fn depth_of_pairs(pairs: Seq<(Seq<char>, ValueModel)>) -> nat
    decreases pairs,
{
    if pairs.len() == 0 {
        0
    } else {
        let head = depth_of(pairs[0].1);
        let rest = depth_of_pairs(pairs.drop_first());
        if head > rest {
            head
        } else {
            rest
        }
    }
}

/// Text equality on string slices, decided through owned strings.
pub fn str_eq(a: &str, b: &str) -> (r: bool)
    ensures
        r == (a@ == b@),
{
    let x = a.to_owned();
    let y = b.to_owned();
    x == y
}

/// Byte-for-byte copy of a byte buffer.
pub fn clone_bytes(b: &Vec<u8>) -> (r: Vec<u8>)
    ensures
        r@ == b@,
{
    let mut out: Vec<u8> = Vec::new();
    let mut i: usize = 0;
    while i < b.len()
        invariant
            i <= b.len(),
            out@ == b@.take(i as int),
        decreases b.len() - i,
    {
        out.push(b[i]);
        proof {
            assert(out@ =~= b@.take(i + 1));
        }
        i += 1;
    }
    proof {
        assert(b@.take(b@.len() as int) =~= b@);
    }
    out
}

/// Every element of a list sits within the list's depth bound.
pub proof fn lemma_depth_of_list_bound(items: Seq<ValueModel>, i: int)
    requires
        0 <= i < items.len(),
    ensures
        depth_of(items[i]) <= depth_of_list(items),
    decreases items,
{
    if i == 0 {
    } else {
        lemma_depth_of_list_bound(items.drop_first(), i - 1);
    }
}

/// Every pair's value sits within the pair list's depth bound.
pub proof fn lemma_depth_of_pairs_bound(pairs: Seq<(Seq<char>, ValueModel)>, i: int)
    requires
        0 <= i < pairs.len(),
    ensures
        depth_of(pairs[i].1) <= depth_of_pairs(pairs),
    decreases pairs,
{
    if i == 0 {
    } else {
        lemma_depth_of_pairs_bound(pairs.drop_first(), i - 1);
    }
}

} // verus!
