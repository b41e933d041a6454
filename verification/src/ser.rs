//! The serialization dispatcher and its aggregate builders.
//!
//! The dispatcher maps each primitive hook of the generic serialization
//! protocol to one tagged [`Value`], applying the format's widening rules.
//! Hooks that receive a nested value take it already serialized; the caller
//! drives the recursion and hands each finished piece in.
//!
//! The builders accumulate the streamed elements of a sequence, mapping,
//! field list or tagged-choice variant, and finalize into a single value.
use crate::values::ValModel;
use crate::values::value_model;
use crate::values::Value;
use crate::values::fields_model;
use crate::values::models_of;
use vstd::prelude::*;
use vstd::slice::slice_to_vec;

verus! {

/// Relies on std's `String::push`, which appends one character to the end
/// of the string.
pub assume_specification[ std::string::String::push ](s: &mut std::string::String, ch: char)
    ensures
        final(s)@ == old(s)@.push(ch),
;

/// An encoding failure of the dispatcher.
#[derive(Clone, Copy, Debug, PartialEq, Eq, Structural)]
pub enum Error {
    /// A 64-bit unsigned integer exceeds the representable signed range.
    UnsignedLongTooLarge,
    /// A mapping key did not serialize to a text value.
    MapKeyNotString,
}

impl Error {
    /// A human-readable description of the failure.
    pub fn message(&self) -> (r: &'static str)
        ensures
            *self == Error::UnsignedLongTooLarge ==> r@ == "u64 is too large"@,
            *self == Error::MapKeyNotString ==> r@ == "map key is not a string"@,
    {
        match self {
            Error::UnsignedLongTooLarge => "u64 is too large",
            Error::MapKeyNotString => "map key is not a string",
        }
    }
}

/// How the single byte-sequence hook of the protocol should tag its input:
/// as a variable-length byte sequence or as a fixed-length one.
///
/// The hint travels as an explicit argument, so concurrent serialization
/// passes cannot disturb one another.
#[derive(Clone, Copy, Debug, PartialEq, Eq, Structural)]
pub enum BytesType {
    Bytes,
    Fixed,
}

impl Default for BytesType {
    /// Bytes are variable-length unless a field-level hint says otherwise.
    fn default() -> (r: BytesType)
        ensures
            r == BytesType::Bytes,
    {
        BytesType::Bytes
    }
}

/// The serialization dispatcher: maps every primitive hook of the generic
/// serialization protocol to one tagged [`Value`].
#[derive(Clone, Copy)]
pub struct Serializer {
    /// Whether the destination transport is human-readable; reported to the
    /// calling protocol and never changes any output value.
    pub human_readable: bool,
}

impl Serializer {
    /// A dispatcher that reports the given human-readability to the protocol.
    pub fn new(human_readable: bool) -> (r: Serializer)
        ensures
            r.human_readable == human_readable,
    {
        Serializer { human_readable }
    }
}

impl Default for Serializer {
    /// The destination counts as human-readable unless configured otherwise.
    fn default() -> (r: Serializer)
        ensures
            r.human_readable == true,
    {
        Serializer { human_readable: true }
    }
}

impl Serializer {
    /// A boolean serializes to the boolean value.
    pub fn serialize_bool(&self, v: bool) -> (r: Result<Value, Error>)
        ensures
            r matches Ok(val) && val@ == ValModel::Boolean(v),
    {
        Ok(Value::Boolean(v))
    }

    /// An 8-bit signed integer is sign-extended to 32 bits.
    pub fn serialize_i8(&self, v: i8) -> (r: Result<Value, Error>)
        ensures
            r matches Ok(val) && val@ == ValModel::Int(v as i32),
    {
        self.serialize_i32(v as i32)
    }

    /// A 16-bit signed integer is sign-extended to 32 bits.
    pub fn serialize_i16(&self, v: i16) -> (r: Result<Value, Error>)
        ensures
            r matches Ok(val) && val@ == ValModel::Int(v as i32),
    {
        self.serialize_i32(v as i32)
    }

    /// A 32-bit signed integer serializes directly.
    pub fn serialize_i32(&self, v: i32) -> (r: Result<Value, Error>)
        ensures
            r matches Ok(val) && val@ == ValModel::Int(v),
    {
        Ok(Value::Int(v))
    }

    /// A 64-bit signed integer serializes directly.
    pub fn serialize_i64(&self, v: i64) -> (r: Result<Value, Error>)
        ensures
            r matches Ok(val) && val@ == ValModel::Long(v),
    {
        Ok(Value::Long(v))
    }

    /// An 8-bit unsigned integer is zero-extended to 32 bits.
    pub fn serialize_u8(&self, v: u8) -> (r: Result<Value, Error>)
        ensures
            r matches Ok(val) && val@ == ValModel::Int(v as i32),
    {
        self.serialize_i32(v as i32)
    }

    /// A 16-bit unsigned integer is zero-extended to 32 bits.
    pub fn serialize_u16(&self, v: u16) -> (r: Result<Value, Error>)
        ensures
            r matches Ok(val) && val@ == ValModel::Int(v as i32),
    {
        self.serialize_i32(v as i32)
    }

    /// A 32-bit unsigned integer widens by range: it stays 32-bit when it
    /// fits the signed range and becomes 64-bit otherwise.
    pub fn serialize_u32(&self, v: u32) -> (r: Result<Value, Error>)
        ensures
            v <= i32::MAX as u32 ==> (r matches Ok(val) && val@ == ValModel::Int(v as i32)),
            v > i32::MAX as u32 ==> (r matches Ok(val) && val@ == ValModel::Long(v as i64)),
    {
        if v <= i32::MAX as u32 {
            self.serialize_i32(v as i32)
        } else {
            self.serialize_i64(v as i64)
        }
    }

    /// A 64-bit unsigned integer serializes to a 64-bit signed integer when
    /// it fits; a larger value is a hard encoding failure, never saturation.
    pub fn serialize_u64(&self, v: u64) -> (r: Result<Value, Error>)
        ensures
            v <= i64::MAX as u64 ==> (r matches Ok(val) && val@ == ValModel::Long(v as i64)),
            v > i64::MAX as u64 ==> r == Err::<Value, Error>(Error::UnsignedLongTooLarge),
    {
        if v <= i64::MAX as u64 {
            self.serialize_i64(v as i64)
        } else {
            Err(Error::UnsignedLongTooLarge)
        }
    }

    /// A 32-bit IEEE-754 number, given as its bit pattern, serializes
    /// directly.
    pub fn serialize_f32_bits(&self, bits: u32) -> (r: Result<Value, Error>)
        ensures
            r matches Ok(val) && val@ == ValModel::Float(bits),
    {
        Ok(Value::Float(bits))
    }

    /// A 64-bit IEEE-754 number, given as its bit pattern, serializes
    /// directly.
    pub fn serialize_f64_bits(&self, bits: u64) -> (r: Result<Value, Error>)
        ensures
            r matches Ok(val) && val@ == ValModel::Double(bits),
    {
        Ok(Value::Double(bits))
    }

    /// A single character serializes to a one-character text value.
    pub fn serialize_char(&self, v: char) -> (r: Result<Value, Error>)
        ensures
            r matches Ok(val) && val@ == ValModel::String(seq![v]),
    {
        let mut s = String::new();
        s.push(v);
        proof {
            assert(s@ =~= seq![v]);
        }
        Ok(Value::String(s))
    }

    /// Text serializes directly.
    pub fn serialize_str(&self, v: &str) -> (r: Result<Value, Error>)
        ensures
            r matches Ok(val) && val@ == ValModel::String(v@),
    {
        Ok(Value::String(v.to_owned()))
    }

    /// A byte sequence serializes as variable-length bytes, unless the
    /// byte-representation hint asks for the fixed-length tagging.
    pub fn serialize_bytes(&self, v: &[u8], bytes_type: BytesType) -> (r: Result<Value, Error>)
        ensures
            bytes_type == BytesType::Bytes ==> (r matches Ok(val) && val@ == ValModel::Bytes(v@)),
            bytes_type == BytesType::Fixed ==> (r matches Ok(val) && val@ == ValModel::Fixed(
                v@.len(),
                v@,
            )),
    {
        match bytes_type {
            BytesType::Bytes => Ok(Value::Bytes(slice_to_vec(v))),
            BytesType::Fixed => {
                let b = slice_to_vec(v);
                let n = b.len();
                Ok(Value::Fixed(n, b))
            },
        }
    }

    /// An absent optional serializes to the null branch of the optional
    /// convention: branch zero, carrying the absent value.
    pub fn serialize_none(&self) -> (r: Result<Value, Error>)
        ensures
            r matches Ok(val) && val@ == ValModel::Union(0, Box::new(ValModel::Null)),
    {
        proof {
            assert(value_model(Value::Null) == ValModel::Null);
        }
        Ok(Value::Union(0, Box::new(Value::Null)))
    }

    /// A present optional wraps its already-serialized inner value in the
    /// present branch of the optional convention: branch one.
    pub fn serialize_some(&self, value: Value) -> (r: Result<Value, Error>)
        ensures
            r matches Ok(val) && val@ == ValModel::Union(1, Box::new(value@)),
    {
        Ok(Value::Union(1, Box::new(value)))
    }

    /// The unit value serializes to the absent value.
    pub fn serialize_unit(&self) -> (r: Result<Value, Error>)
        ensures
            r matches Ok(val) && val@ == ValModel::Null,
    {
        Ok(Value::Null)
    }

    /// A unit struct serializes like the unit value.
    pub fn serialize_unit_struct(&self, _name: &str) -> (r: Result<Value, Error>)
        ensures
            r matches Ok(val) && val@ == ValModel::Null,
    {
        self.serialize_unit()
    }

    /// A unit enum variant serializes to its bare name, whatever tagging
    /// convention the caller declared: the protocol hands no convention
    /// context to this hook.
    pub fn serialize_unit_variant(&self, _name: &str, _variant_index: u32, variant: &str) -> (r:
        Result<Value, Error>)
        ensures
            r matches Ok(val) && val@ == ValModel::String(variant@),
    {
        Ok(Value::String(variant.to_owned()))
    }

    /// A newtype struct serializes as its already-serialized inner value.
    pub fn serialize_newtype_struct(&self, _name: &str, value: Value) -> (r: Result<Value, Error>)
        ensures
            r matches Ok(val) && val == value,
    {
        Ok(value)
    }

    /// A newtype enum variant serializes to the fixed two-field record
    /// shape: the variant tag under "type", the union-wrapped payload under
    /// "value".
    pub fn serialize_newtype_variant(
        &self,
        _name: &str,
        index: u32,
        variant: &str,
        value: Value,
    ) -> (r: Result<Value, Error>)
        ensures
            r matches Ok(val) && val@ == ValModel::Record(
                seq![
                    ("type"@, ValModel::Enum(index, variant@)),
                    ("value"@, ValModel::Union(index, Box::new(value@))),
                ],
            ),
    {
        let mut fields: Vec<(String, Value)> = Vec::with_capacity(2);
        fields.push(("type".to_owned(), Value::Enum(index, variant.to_owned())));
        fields.push(("value".to_owned(), Value::Union(index, Box::new(value))));
        let r = Value::Record(fields);
        proof {
            reveal_with_fuel(value_model, 3);
            assert(r@ matches ValModel::Record(fs) && fs =~~= seq![
                ("type"@, ValModel::Enum(index, variant@)),
                ("value"@, ValModel::Union(index, Box::new(value@))),
            ]);
        }
        Ok(r)
    }

    /// A sequence begins with an empty sequence builder.
    pub fn serialize_seq(&self, len: Option<usize>) -> (r: Result<SeqSerializer, Error>)
        ensures
            r matches Ok(s) && s.items@ == Seq::<Value>::empty(),
    {
        Ok(SeqSerializer::new(len))
    }

    /// A tuple begins like a sequence of known length.
    pub fn serialize_tuple(&self, len: usize) -> (r: Result<SeqSerializer, Error>)
        ensures
            r matches Ok(s) && s.items@ == Seq::<Value>::empty(),
    {
        self.serialize_seq(Some(len))
    }

    /// A tuple struct begins like a sequence of known length.
    pub fn serialize_tuple_struct(&self, _name: &str, len: usize) -> (r: Result<
        SeqSerializer,
        Error,
    >)
        ensures
            r matches Ok(s) && s.items@ == Seq::<Value>::empty(),
    {
        self.serialize_seq(Some(len))
    }

    /// A tuple enum variant begins with an empty tagged-choice sequence
    /// builder remembering the variant's index and name.
    pub fn serialize_tuple_variant(
        &self,
        _name: &str,
        index: u32,
        variant: &str,
        len: usize,
    ) -> (r: Result<SeqVariantSerializer, Error>)
        ensures
            r matches Ok(s) && s.index == index && s.variant@ == variant@ && s.items@
                == Seq::<Value>::empty(),
    {
        Ok(SeqVariantSerializer::new(index, variant, Some(len)))
    }

    /// A mapping begins with an empty map builder.
    pub fn serialize_map(&self, len: Option<usize>) -> (r: Result<MapSerializer, Error>)
        ensures
            r matches Ok(s) && s.indices@ == Seq::<(String, usize)>::empty() && s.values@
                == Seq::<Value>::empty(),
    {
        Ok(MapSerializer::new(len))
    }

    /// A struct begins with an empty field-list builder.
    pub fn serialize_struct(&self, _name: &str, len: usize) -> (r: Result<StructSerializer, Error>)
        ensures
            r matches Ok(s) && s.fields@ == Seq::<(String, Value)>::empty(),
    {
        Ok(StructSerializer::new(len))
    }

    /// A struct enum variant begins with an empty field-list builder
    /// remembering the variant's index and name.
    pub fn serialize_struct_variant(
        &self,
        _name: &str,
        index: u32,
        variant: &str,
        len: usize,
    ) -> (r: Result<StructVariantSerializer, Error>)
        ensures
            r matches Ok(s) && s.index == index && s.variant@ == variant@ && s.fields@
                == Seq::<(String, Value)>::empty(),
    {
        Ok(StructVariantSerializer::new(index, variant, len))
    }

    /// Whether the destination transport is human-readable. Only this answer
    /// to the calling protocol depends on it; no output value does.
    pub fn is_human_readable(&self) -> (r: bool)
        ensures
            r == self.human_readable,
    {
        self.human_readable
    }
}

/// Accumulates the serialized elements of a sequence or tuple, in order.
pub struct SeqSerializer {
    pub items: Vec<Value>,
}

impl SeqSerializer {
    /// An empty sequence builder, pre-sized when the element count is known.
    pub fn new(len: Option<usize>) -> (r: SeqSerializer)
        ensures
            r.items@ == Seq::<Value>::empty(),
    {
        let items: Vec<Value> = match len {
            Option::Some(len) => Vec::with_capacity(len),
            Option::None => Vec::new(),
        };
        SeqSerializer { items }
    }

    /// Appends one already-serialized element.
    pub fn serialize_element(&mut self, value: Value)
        ensures
            final(self).items@ == old(self).items@.push(value),
    {
        self.items.push(value);
    }

    /// Finalizes into the ordered sequence value.
    pub fn end(self) -> (r: Value)
        ensures
            r@ == ValModel::Array(models_of(self.items@)),
    {
        Value::Array(self.items)
    }
}

/// Accumulates the serialized elements of a tuple enum variant, wrapping
/// each in the variant's tagged choice.
pub struct SeqVariantSerializer {
    pub index: u32,
    pub variant: String,
    pub items: Vec<Value>,
}

impl SeqVariantSerializer {
    /// An empty tagged-choice sequence builder for the given variant.
    pub fn new(index: u32, variant: &str, len: Option<usize>) -> (r: SeqVariantSerializer)
        ensures
            r.index == index,
            r.variant@ == variant@,
            r.items@ == Seq::<Value>::empty(),
    {
        let items: Vec<Value> = match len {
            Option::Some(len) => Vec::with_capacity(len),
            Option::None => Vec::new(),
        };
        SeqVariantSerializer { index, variant: variant.to_owned(), items }
    }

    /// Appends one already-serialized element, wrapped in the variant's
    /// tagged choice.
    pub fn serialize_element(&mut self, value: Value)
        ensures
            final(self).items@ == old(self).items@.push(
                Value::Union(old(self).index, Box::new(value)),
            ),
            final(self).index == old(self).index,
            final(self).variant == old(self).variant,
    {
        let index = self.index;
        self.items.push(Value::Union(index, Box::new(value)));
    }

    /// Finalizes into the two-field record shape of a tuple enum variant.
    pub fn end(self) -> (r: Value)
        ensures
            r@ == ValModel::Record(
                seq![
                    ("type"@, ValModel::Enum(self.index, self.variant@)),
                    ("value"@, ValModel::Array(models_of(self.items@))),
                ],
            ),
    {
        let ghost m = seq![
            ("type"@, ValModel::Enum(self.index, self.variant@)),
            ("value"@, ValModel::Array(models_of(self.items@))),
        ];
        let mut fields: Vec<(String, Value)> = Vec::with_capacity(2);
        fields.push(("type".to_owned(), Value::Enum(self.index, self.variant)));
        fields.push(("value".to_owned(), Value::Array(self.items)));
        let r = Value::Record(fields);
        proof {
            reveal_with_fuel(value_model, 3);
            assert(r@ matches ValModel::Record(fs) && fs =~~= m);
        }
        r
    }
}

/// Accumulates the keys and serialized values of a mapping. Each text key is
/// recorded with the position its value will take in the value list; a key
/// recorded again is fully overwritten by the later write.
pub struct MapSerializer {
    pub indices: Vec<(String, usize)>,
    pub values: Vec<Value>,
}

/// The model of the builder's key list: each key's character sequence with
/// the value position it points at.
pub open spec fn entries_model(s: Seq<(String, usize)>) -> Seq<(Seq<char>, int)> {
    Seq::new(s.len(), |i: int| (s[i].0@, s[i].1 as int))
}

/// The position of the first entry carrying the given key, or -1 when no
/// entry does.
pub open spec fn find_key(s: Seq<(Seq<char>, int)>, k: Seq<char>) -> int
    decreases s.len(),
{
    if s.len() == 0 {
        -1
    } else if s[0].0 == k {
        0
    } else {
        let r = find_key(s.subrange(1, s.len() as int), k);
        if r == -1 {
            -1
        } else {
            r + 1
        }
    }
}

/// What [`find_key`] returns: -1 exactly when the key is absent, else the
/// position of the first entry with that key.
pub proof fn lemma_find_key(s: Seq<(Seq<char>, int)>, k: Seq<char>)
    ensures
        find_key(s, k) == -1 ==> forall|i: int| 0 <= i < s.len() ==> (#[trigger] s[i]).0 != k,
        find_key(s, k) != -1 ==> 0 <= find_key(s, k) < s.len() && s[find_key(s, k)].0 == k && (
        forall|i: int| 0 <= i < find_key(s, k) ==> (#[trigger] s[i]).0 != k),
    decreases s.len(),
{
    if s.len() > 0 && s[0].0 != k {
        let sub = s.subrange(1, s.len() as int);
        lemma_find_key(sub, k);
        assert(forall|i: int| 1 <= i < s.len() ==> s[i] == sub[i - 1]);
    }
}

/// Recording a key: the first entry with that key is overwritten in place,
/// and a fresh key is appended at the end.
pub open spec fn upsert(s: Seq<(Seq<char>, int)>, k: Seq<char>, v: int) -> Seq<(Seq<char>, int)> {
    let j = find_key(s, k);
    if j == -1 {
        s.push((k, v))
    } else {
        s.update(j, (k, v))
    }
}

/// Recording a key never duplicates one: when every key occurs once, that is
/// still so after an upsert.
pub proof fn lemma_upsert_keeps_keys_unique(s: Seq<(Seq<char>, int)>, k: Seq<char>, v: int)
    requires
        forall|i: int, j: int| 0 <= i < j < s.len() ==> (#[trigger] s[i]).0 != (#[trigger] s[j]).0,
    ensures
        forall|i: int, j: int| 0 <= i < j < upsert(s, k, v).len() ==> (#[trigger] upsert(s, k, v)[i]).0
            != (#[trigger] upsert(s, k, v)[j]).0,
{
    lemma_find_key(s, k);
}

/// Collects the final mapping: every recorded key that points at a filled
/// position, paired with the value at that position.
pub open spec fn gather(entries: Seq<(Seq<char>, int)>, values: Seq<ValModel>) -> Seq<
    (Seq<char>, ValModel),
>
    decreases entries.len(),
{
    if entries.len() == 0 {
        Seq::empty()
    } else {
        let init = gather(entries.subrange(0, entries.len() - 1), values);
        let p = entries[entries.len() - 1];
        if 0 <= p.1 < values.len() {
            init.push((p.0, values[p.1]))
        } else {
            init
        }
    }
}

/// Last writer wins: recording the same text key twice, with a value
/// appended after each record, finalizes with that key bound to the later
/// value only.
pub proof fn lemma_map_last_write_wins(k: Seq<char>, v1: ValModel, v2: ValModel)
    ensures
        gather(upsert(upsert(Seq::empty(), k, 0), k, 1), seq![v1, v2]) == seq![(k, v2)],
{
    let e0 = Seq::<(Seq<char>, int)>::empty();
    assert(find_key(e0, k) == -1);
    let s1 = upsert(e0, k, 0);
    assert(s1 =~= seq![(k, 0int)]);
    assert(find_key(s1, k) == 0);
    let s2 = upsert(s1, k, 1);
    assert(s2 =~= seq![(k, 1int)]);
    let vals = seq![v1, v2];
    assert(gather(s2.subrange(0, 0), vals) =~= Seq::<(Seq<char>, ValModel)>::empty());
    assert(gather(s2, vals) =~= seq![(k, v2)]);
}

impl MapSerializer {
    /// An empty map builder, pre-sized when the entry count is known.
    pub fn new(len: Option<usize>) -> (r: MapSerializer)
        ensures
            r.indices@ == Seq::<(String, usize)>::empty(),
            r.values@ == Seq::<Value>::empty(),
    {
        let (indices, values): (Vec<(String, usize)>, Vec<Value>) = match len {
            Option::Some(len) => (Vec::with_capacity(len), Vec::with_capacity(len)),
            Option::None => (Vec::new(), Vec::new()),
        };
        MapSerializer { indices, values }
    }

    /// Records a key. A key that serialized to text is recorded with the
    /// current value count as its position, overwriting any earlier record
    /// of the same key; anything else is the non-text-key encoding failure,
    /// which leaves the builder unchanged.
    pub fn serialize_key(&mut self, key: Value) -> (r: Result<(), Error>)
        ensures
            old(self).values == final(self).values,
            key@ matches ValModel::String(k) ==> r == Ok::<(), Error>(()) && entries_model(
                final(self).indices@,
            ) == upsert(entries_model(old(self).indices@), k, old(self).values@.len() as int),
            !(key@ matches ValModel::String(_)) ==> r == Err::<(), Error>(Error::MapKeyNotString)
                && *final(self) == *old(self),
    {
        let ghost gkey = key;
        match key {
            Value::String(k) => {
                let ghost gk = k@;
                proof {
                    assert(gkey == Value::String(k));
                    assert(gkey@ == ValModel::String(gk));
                }
                let n = self.values.len();
                let len = self.indices.len();
                let ghost em = entries_model(self.indices@);
                let mut j: usize = 0;
                let mut pos: usize = len;
                while j < len
                    invariant
                        j <= len,
                        pos <= len,
                        len == self.indices@.len(),
                        *self == *old(self),
                        n == self.values@.len(),
                        em == entries_model(self.indices@),
                        gk == k@,
                        pos == len ==> forall|i: int| 0 <= i < j ==> (#[trigger] em[i]).0 != gk,
                        pos < len ==> pos < j && em[pos as int].0 == gk && (forall|i: int|
                            0 <= i < pos ==> (#[trigger] em[i]).0 != gk),
                    decreases len - j,
                {
                    if pos == len && self.indices[j].0 == k {
                        pos = j;
                    }
                    j = j + 1;
                }
                proof {
                    lemma_find_key(em, gk);
                    let fk = find_key(em, gk);
                    if pos < len {
                        if fk == -1 {
                            assert(em[pos as int].0 != gk);
                        } else if fk < pos {
                            assert(em[fk].0 != gk);
                        } else if fk > pos {
                            assert(em[pos as int].0 != gk);
                        }
                        assert(fk == pos);
                    } else {
                        if fk != -1 {
                            assert(em[fk].0 != gk);
                        }
                        assert(fk == -1);
                    }
                }
                if pos < len {
                    self.indices[pos] = (k, n);
                    proof {
                        assert(entries_model(self.indices@) =~= upsert(em, gk, n as int));
                    }
                } else {
                    self.indices.push((k, n));
                    proof {
                        assert(entries_model(self.indices@) =~= upsert(em, gk, n as int));
                    }
                }
                Ok(())
            },
            _ => Err(Error::MapKeyNotString),
        }
    }

    /// Appends one already-serialized value at the next position.
    pub fn serialize_value(&mut self, value: Value)
        ensures
            final(self).values@ == old(self).values@.push(value),
            final(self).indices == old(self).indices,
    {
        self.values.push(value);
    }

    /// Finalizes into the text-keyed mapping: each recorded key maps to the
    /// value at the position it last recorded.
    pub fn end(self) -> (r: Value)
        ensures
            r@ == ValModel::Mapping(
                gather(entries_model(self.indices@), models_of(self.values@)),
            ),
    {
        let ghost em = entries_model(self.indices@);
        let ghost vm = models_of(self.values@);
        let mut items: Vec<(String, Value)> = Vec::new();
        let mut i: usize = 0;
        let len = self.indices.len();
        while i < len
            invariant
                i <= len,
                len == self.indices@.len(),
                em == entries_model(self.indices@),
                vm == models_of(self.values@),
                fields_model(items@) == gather(em.subrange(0, i as int), vm),
            decreases len - i,
        {
            proof {
                assert(em.subrange(0, i + 1 as int).subrange(0, i as int) =~= em.subrange(
                    0,
                    i as int,
                ));
            }
            let idx = self.indices[i].1;
            if idx < self.values.len() {
                let name = self.indices[i].0.clone();
                let value = (&self.values[idx]).clone();
                items.push((name, value));
                proof {
                    assert(fields_model(items@) =~= gather(em.subrange(0, i + 1 as int), vm));
                }
            } else {
                proof {
                    assert(fields_model(items@) =~= gather(em.subrange(0, i + 1 as int), vm));
                }
            }
            i = i + 1;
        }
        proof {
            assert(em.subrange(0, len as int) =~= em);
        }
        Value::Mapping(items)
    }
}

/// Accumulates the named fields of a struct, in declaration order.
pub struct StructSerializer {
    pub fields: Vec<(String, Value)>,
}

impl StructSerializer {
    /// An empty field-list builder, pre-sized for the declared field count.
    pub fn new(len: usize) -> (r: StructSerializer)
        ensures
            r.fields@ == Seq::<(String, Value)>::empty(),
    {
        StructSerializer { fields: Vec::with_capacity(len) }
    }

    /// Appends one named, already-serialized field.
    pub fn serialize_field(&mut self, name: &str, value: Value)
        ensures
            fields_model(final(self).fields@) == fields_model(old(self).fields@).push(
                (name@, value@),
            ),
    {
        self.fields.push((name.to_owned(), value));
        proof {
            assert(fields_model(self.fields@) =~= fields_model(old(self).fields@).push(
                (name@, value@),
            ));
        }
    }

    /// Finalizes into the ordered field list.
    pub fn end(self) -> (r: Value)
        ensures
            r@ == ValModel::Record(fields_model(self.fields@)),
    {
        Value::Record(self.fields)
    }
}

/// Accumulates the named fields of a struct enum variant, to be wrapped in
/// the variant's tagged choice.
pub struct StructVariantSerializer {
    pub index: u32,
    pub variant: String,
    pub fields: Vec<(String, Value)>,
}

impl StructVariantSerializer {
    /// An empty field-list builder for the given variant.
    pub fn new(index: u32, variant: &str, len: usize) -> (r: StructVariantSerializer)
        ensures
            r.index == index,
            r.variant@ == variant@,
            r.fields@ == Seq::<(String, Value)>::empty(),
    {
        StructVariantSerializer {
            index,
            variant: variant.to_owned(),
            fields: Vec::with_capacity(len),
        }
    }

    /// Appends one named, already-serialized field.
    pub fn serialize_field(&mut self, name: &str, value: Value)
        ensures
            fields_model(final(self).fields@) == fields_model(old(self).fields@).push(
                (name@, value@),
            ),
            final(self).index == old(self).index,
            final(self).variant == old(self).variant,
    {
        self.fields.push((name.to_owned(), value));
        proof {
            assert(fields_model(self.fields@) =~= fields_model(old(self).fields@).push(
                (name@, value@),
            ));
        }
    }

    /// Finalizes into the two-field record shape of a struct enum variant:
    /// the variant tag under "type", the union-wrapped field list under
    /// "value".
    pub fn end(self) -> (r: Value)
        ensures
            r@ == ValModel::Record(
                seq![
                    ("type"@, ValModel::Enum(self.index, self.variant@)),
                    (
                        "value"@,
                        ValModel::Union(
                            self.index,
                            Box::new(ValModel::Record(fields_model(self.fields@))),
                        ),
                    ),
                ],
            ),
    {
        let ghost m = seq![
            ("type"@, ValModel::Enum(self.index, self.variant@)),
            (
                "value"@,
                ValModel::Union(self.index, Box::new(ValModel::Record(fields_model(self.fields@)))),
            ),
        ];
        let index = self.index;
        let inner = Value::Record(self.fields);
        proof {
            assert(inner@ == ValModel::Record(fields_model(self.fields@)));
        }
        let ghost ginner = inner@;
        let wrapped = Value::Union(index, Box::new(inner));
        proof {
            assert(wrapped@ == ValModel::Union(index, Box::new(ginner)));
        }
        let ghost gwrapped = wrapped@;
        let mut fields: Vec<(String, Value)> = Vec::with_capacity(2);
        fields.push(("type".to_owned(), Value::Enum(index, self.variant)));
        fields.push(("value".to_owned(), wrapped));
        let r = Value::Record(fields);
        proof {
            assert(value_model(fields@[1].1) == gwrapped);
            assert(value_model(fields@[0].1) == ValModel::Enum(index, self.variant@));
            let fs = fields_model(fields@);
            assert(fs[0] == m[0]);
            assert(fs[1] == m[1]);
            assert(fs =~= m);
            assert(r@ == ValModel::Record(fs));
        }
        r
    }
}

} // verus!
