//! The dynamic value model: a closed tagged union covering every shape the
//! row-oriented format can encode, together with its mathematical model.
//!
//! Floating-point payloads are carried as their IEEE-754 bit patterns
//! (`u32` for the 32-bit kind, `u64` for the 64-bit kind), so equality on
//! values is exact bit-for-bit equality.
//!
//! The mapping variant keeps its entries as a list of key/value pairs; the
//! builder that produces mappings keeps keys unique, and entry order is an
//! artifact of construction that carries no meaning.
use vstd::prelude::*;

verus! {

/// A dynamically tagged value ready for the wire encoder.
#[derive(Debug, PartialEq)]
pub enum Value {
    /// The absent value.
    Null,
    /// A boolean.
    Boolean(bool),
    /// A 32-bit signed integer.
    Int(i32),
    /// A 64-bit signed integer.
    Long(i64),
    /// A 32-bit IEEE-754 number, carried as its bit pattern.
    Float(u32),
    /// A 64-bit IEEE-754 number, carried as its bit pattern.
    Double(u64),
    /// A variable-length byte sequence.
    Bytes(Vec<u8>),
    /// A fixed-length byte sequence: declared length plus the bytes.
    Fixed(usize, Vec<u8>),
    /// A text value.
    String(String),
    /// A tagged choice: the zero-based branch index plus the inner value.
    Union(u32, Box<Value>),
    /// An enumerated symbol: its zero-based index plus its name.
    Enum(u32, String),
    /// An ordered sequence of values.
    Array(Vec<Value>),
    /// A text-keyed mapping; keys unique, entry order meaningless.
    Mapping(Vec<(String, Value)>),
    /// An ordered list of named fields.
    Record(Vec<(String, Value)>),
}

/// The mathematical model of a [`Value`]: byte and text payloads become
/// sequences, field lists become sequences of pairs.
pub enum ValModel {
    Null,
    Boolean(bool),
    Int(i32),
    Long(i64),
    Float(u32),
    Double(u64),
    Bytes(Seq<u8>),
    Fixed(nat, Seq<u8>),
    String(Seq<char>),
    Union(u32, Box<ValModel>),
    Enum(u32, Seq<char>),
    Array(Seq<ValModel>),
    Mapping(Seq<(Seq<char>, ValModel)>),
    Record(Seq<(Seq<char>, ValModel)>),
}

/// The model of one value.
pub open spec fn value_model(v: Value) -> ValModel
    decreases v,
{
    match v {
        Value::Null => ValModel::Null,
        Value::Boolean(b) => ValModel::Boolean(b),
        Value::Int(x) => ValModel::Int(x),
        Value::Long(x) => ValModel::Long(x),
        Value::Float(bits) => ValModel::Float(bits),
        Value::Double(bits) => ValModel::Double(bits),
        Value::Bytes(b) => ValModel::Bytes(b@),
        Value::Fixed(n, b) => ValModel::Fixed(n as nat, b@),
        Value::String(s) => ValModel::String(s@),
        Value::Union(i, v) => ValModel::Union(i, Box::new(value_model(*v))),
        Value::Enum(i, s) => ValModel::Enum(i, s@),
        Value::Array(items) => ValModel::Array(models_of(items@)),
        Value::Mapping(entries) => ValModel::Mapping(fields_model(entries@)),
        Value::Record(fields) => ValModel::Record(fields_model(fields@)),
    }
}

/// The models of a sequence of values, element by element.
pub open spec fn models_of(s: Seq<Value>) -> Seq<ValModel>
    decreases s,
{
    Seq::new(
        s.len(),
        |i: int|
            if 0 <= i < s.len() {
                value_model(s[i])
            } else {
                ValModel::Null
            },
    )
}

/// The models of a field list: each name becomes its character sequence,
/// each value its model.
pub open spec fn fields_model(s: Seq<(String, Value)>) -> Seq<(Seq<char>, ValModel)>
    decreases s,
{
    Seq::new(
        s.len(),
        |i: int|
            if 0 <= i < s.len() {
                (s[i].0@, value_model(s[i].1))
            } else {
                (Seq::empty(), ValModel::Null)
            },
    )
}

impl View for Value {
    type V = ValModel;

    open spec fn view(&self) -> ValModel {
        value_model(*self)
    }
}

impl Clone for Value {
    /// A clone has the same model as the original.
    fn clone(&self) -> (r: Value)
        ensures
            r@ == self@,
        decreases self,
    {
        match self {
            Value::Null => Value::Null,
            Value::Boolean(b) => Value::Boolean(*b),
            Value::Int(v) => Value::Int(*v),
            Value::Long(v) => Value::Long(*v),
            Value::Float(bits) => Value::Float(*bits),
            Value::Double(bits) => Value::Double(*bits),
            Value::Bytes(b) => Value::Bytes(clone_bytes(b)),
            Value::Fixed(n, b) => Value::Fixed(*n, clone_bytes(b)),
            Value::String(s) => Value::String(s.clone()),
            Value::Union(i, v) => Value::Union(*i, Box::new((**v).clone())),
            Value::Enum(i, s) => Value::Enum(*i, s.clone()),
            Value::Array(items) => {
                let r = Value::Array(clone_values(items));
                assert(r@ matches ValModel::Array(s) && self@ matches ValModel::Array(t) && s
                    == t);
                r
            },
            Value::Mapping(entries) => {
                let r = Value::Mapping(clone_fields(entries));
                assert(r@ matches ValModel::Mapping(s) && self@ matches ValModel::Mapping(t) && s
                    == t);
                r
            },
            Value::Record(fields) => {
                let r = Value::Record(clone_fields(fields));
                assert(r@ matches ValModel::Record(s) && self@ matches ValModel::Record(t) && s
                    == t);
                r
            },
        }
    }
}

fn clone_bytes(b: &Vec<u8>) -> (r: Vec<u8>)
    ensures
        r@ == b@,
{
    let mut out: Vec<u8> = Vec::with_capacity(b.len());
    let mut i: usize = 0;
    while i < b.len()
        invariant
            i <= b.len(),
            out@ == b@.subrange(0, i as int),
        decreases b.len() - i,
    {
        out.push(b[i]);
        i = i + 1;
    }
    assert(out@ =~= b@);
    out
}

fn clone_values(items: &Vec<Value>) -> (r: Vec<Value>)
    ensures
        models_of(r@) == models_of(items@),
        r@.len() == items@.len(),
    decreases items,
{
    let mut out: Vec<Value> = Vec::with_capacity(items.len());
    let mut i: usize = 0;
    while i < items.len()
        invariant
            i <= items.len(),
            out@.len() == i,
            forall|j: int| 0 <= j < i ==> out@[j]@ == items@[j]@,
        decreases items.len() - i,
    {
        proof {
            assert(decreases_to!(items => items@[i as int]));
        }
        let e = (&items[i]).clone();
        out.push(e);
        i = i + 1;
    }
    assert(models_of(out@) =~= models_of(items@));
    out
}

fn clone_fields(fields: &Vec<(String, Value)>) -> (r: Vec<(String, Value)>)
    ensures
        fields_model(r@) == fields_model(fields@),
        r@.len() == fields@.len(),
    decreases fields,
{
    let mut out: Vec<(String, Value)> = Vec::with_capacity(fields.len());
    let mut i: usize = 0;
    while i < fields.len()
        invariant
            i <= fields.len(),
            out@.len() == i,
            forall|j: int| 0 <= j < i ==> out@[j].0@ == fields@[j].0@ && out@[j].1@
                == fields@[j].1@,
        decreases fields.len() - i,
    {
        proof {
            assert(decreases_to!(fields => fields@[i as int]));
            assert(decreases_to!(fields@[i as int] => fields@[i as int].1));
        }
        let name = fields[i].0.clone();
        let value = fields[i].1.clone();
        out.push((name, value));
        i = i + 1;
    }
    assert(fields_model(out@) =~= fields_model(fields@));
    out
}

} // verus!
