//! The dispatcher and builder behavior, driven the way the generic
//! serialization protocol would drive them.
use avro_ser::ser::BytesType;
use avro_ser::ser::Error;
use avro_ser::ser::Serializer;
use avro_ser::values::Value;

fn field(name: &str, value: Value) -> (String, Value) {
    (name.to_owned(), value)
}

/// A struct `{ a: 27i64, b: "foo" }`, and the same struct nested inside
/// another with a 32-bit field beside it.
#[test]
fn test_to_value() {
    let ser = Serializer::default();

    let mut st = ser.serialize_struct("Test", 2).unwrap();
    st.serialize_field("a", ser.serialize_i64(27).unwrap());
    st.serialize_field("b", ser.serialize_str("foo").unwrap());
    let actual = st.end();

    let expected = Value::Record(vec![
        field("a", Value::Long(27)),
        field("b", Value::String("foo".to_owned())),
    ]);
    assert_eq!(actual, expected);

    let mut inner = ser.serialize_struct("Test", 2).unwrap();
    inner.serialize_field("a", ser.serialize_i64(27).unwrap());
    inner.serialize_field("b", ser.serialize_str("foo").unwrap());
    let mut outer = ser.serialize_struct("TestInner", 2).unwrap();
    outer.serialize_field("a", inner.end());
    outer.serialize_field("b", ser.serialize_i32(35).unwrap());
    let actual_inner = outer.end();

    let expected_inner = Value::Record(vec![
        field(
            "a",
            Value::Record(vec![
                field("a", Value::Long(27)),
                field("b", Value::String("foo".to_owned())),
            ]),
        ),
        field("b", Value::Int(35)),
    ]);
    assert_eq!(actual_inner, expected_inner);
}

/// A unit enum variant named "Val1" at index 0, under each tagging
/// convention: the dispatcher itself always hands back the bare name; the
/// internally- and adjacently-tagged shapes come from the driver building a
/// one-field record around it, and the untagged shape from the driver
/// serializing the unit value.
#[test]
fn test_to_value_unit_enum() {
    let ser = Serializer::default();

    let variant = ser
        .serialize_unit_variant("UnitExternalEnum", 0, "Val1")
        .unwrap();
    let mut st = ser.serialize_struct("TestUnitExternalEnum", 1).unwrap();
    st.serialize_field("a", variant);
    let expected = Value::Record(vec![field("a", Value::String("Val1".to_owned()))]);
    assert_eq!(st.end(), expected, "Error serializing unit external enum");

    let mut tag = ser.serialize_struct("UnitInternalEnum", 1).unwrap();
    tag.serialize_field("t", ser.serialize_str("Val1").unwrap());
    let mut st = ser.serialize_struct("TestUnitInternalEnum", 1).unwrap();
    st.serialize_field("a", tag.end());
    let expected = Value::Record(vec![field(
        "a",
        Value::Record(vec![field("t", Value::String("Val1".to_owned()))]),
    )]);
    assert_eq!(st.end(), expected, "Error serializing unit internal enum");

    let mut tag = ser.serialize_struct("UnitAdjacentEnum", 1).unwrap();
    tag.serialize_field("t", ser.serialize_str("Val1").unwrap());
    let mut st = ser.serialize_struct("TestUnitAdjacentEnum", 1).unwrap();
    st.serialize_field("a", tag.end());
    let expected = Value::Record(vec![field(
        "a",
        Value::Record(vec![field("t", Value::String("Val1".to_owned()))]),
    )]);
    assert_eq!(st.end(), expected, "Error serializing unit adjacent enum");

    let mut st = ser.serialize_struct("TestUnitUntaggedEnum", 1).unwrap();
    st.serialize_field("a", ser.serialize_unit().unwrap());
    let expected = Value::Record(vec![field("a", Value::Null)]);
    assert_eq!(st.end(), expected, "Error serializing unit untagged enum");
}

/// A newtype enum variant `Double(64.0)` at index 0, under the tagging
/// conventions the protocol can express without a schema.
#[test]
fn test_to_value_single_value_enum() {
    let ser = Serializer::default();
    let double = 64.0f64;

    let payload = ser.serialize_f64_bits(double.to_bits()).unwrap();
    let variant = ser
        .serialize_newtype_variant("SingleValueExternalEnum", 0, "Double", payload)
        .unwrap();
    let mut st = ser
        .serialize_struct("TestSingleValueExternalEnum", 1)
        .unwrap();
    st.serialize_field("a", variant);
    let expected = Value::Record(vec![field(
        "a",
        Value::Record(vec![
            field("type", Value::Enum(0, "Double".to_owned())),
            field(
                "value",
                Value::Union(0, Box::new(Value::Double(double.to_bits()))),
            ),
        ]),
    )]);
    assert_eq!(
        st.end(),
        expected,
        "Error serializing single value external enum"
    );

    let mut tag = ser.serialize_struct("SingleValueAdjacentEnum", 2).unwrap();
    tag.serialize_field("t", ser.serialize_str("Double").unwrap());
    tag.serialize_field("v", ser.serialize_f64_bits(double.to_bits()).unwrap());
    let mut st = ser
        .serialize_struct("TestSingleValueAdjacentEnum", 1)
        .unwrap();
    st.serialize_field("a", tag.end());
    let expected = Value::Record(vec![field(
        "a",
        Value::Record(vec![
            field("t", Value::String("Double".to_owned())),
            field("v", Value::Double(double.to_bits())),
        ]),
    )]);
    assert_eq!(
        st.end(),
        expected,
        "Error serializing single value adjacent enum"
    );

    let mut st = ser
        .serialize_struct("TestSingleValueUntaggedEnum", 1)
        .unwrap();
    st.serialize_field("a", ser.serialize_f64_bits(double.to_bits()).unwrap());
    let expected = Value::Record(vec![field("a", Value::Double(double.to_bits()))]);
    assert_eq!(
        st.end(),
        expected,
        "Error serializing single value untagged enum"
    );
}

/// A struct enum variant `Val1 { x: 1.0, y: 2.0 }` at index 0, under each
/// tagging convention the protocol can express without a schema.
#[test]
fn test_to_value_struct_enum() {
    let ser = Serializer::default();
    let x = 1.0f32;
    let y = 2.0f32;

    let mut sv = ser
        .serialize_struct_variant("StructExternalEnum", 0, "Val1", 2)
        .unwrap();
    sv.serialize_field("x", ser.serialize_f32_bits(x.to_bits()).unwrap());
    sv.serialize_field("y", ser.serialize_f32_bits(y.to_bits()).unwrap());
    let mut st = ser.serialize_struct("TestStructExternalEnum", 1).unwrap();
    st.serialize_field("a", sv.end());
    let expected = Value::Record(vec![field(
        "a",
        Value::Record(vec![
            field("type", Value::Enum(0, "Val1".to_owned())),
            field(
                "value",
                Value::Union(
                    0,
                    Box::new(Value::Record(vec![
                        field("x", Value::Float(x.to_bits())),
                        field("y", Value::Float(y.to_bits())),
                    ])),
                ),
            ),
        ]),
    )]);
    assert_eq!(
        st.end(),
        expected,
        "error serializing struct external enum"
    );

    let mut tag = ser.serialize_struct("StructInternalEnum", 3).unwrap();
    tag.serialize_field("type", ser.serialize_str("Val1").unwrap());
    tag.serialize_field("x", ser.serialize_f32_bits(x.to_bits()).unwrap());
    tag.serialize_field("y", ser.serialize_f32_bits(y.to_bits()).unwrap());
    let mut st = ser.serialize_struct("TestStructInternalEnum", 1).unwrap();
    st.serialize_field("a", tag.end());
    let expected = Value::Record(vec![field(
        "a",
        Value::Record(vec![
            field("type", Value::String("Val1".to_owned())),
            field("x", Value::Float(x.to_bits())),
            field("y", Value::Float(y.to_bits())),
        ]),
    )]);
    assert_eq!(
        st.end(),
        expected,
        "error serializing struct internal enum"
    );

    let mut content = ser.serialize_struct("Val1", 2).unwrap();
    content.serialize_field("x", ser.serialize_f32_bits(x.to_bits()).unwrap());
    content.serialize_field("y", ser.serialize_f32_bits(y.to_bits()).unwrap());
    let mut tag = ser.serialize_struct("StructAdjacentEnum", 2).unwrap();
    tag.serialize_field("t", ser.serialize_str("Val1").unwrap());
    tag.serialize_field("v", content.end());
    let mut st = ser.serialize_struct("TestStructAdjacentEnum", 1).unwrap();
    st.serialize_field("a", tag.end());
    let expected = Value::Record(vec![field(
        "a",
        Value::Record(vec![
            field("t", Value::String("Val1".to_owned())),
            field(
                "v",
                Value::Record(vec![
                    field("x", Value::Float(x.to_bits())),
                    field("y", Value::Float(y.to_bits())),
                ]),
            ),
        ]),
    )]);
    assert_eq!(
        st.end(),
        expected,
        "error serializing struct adjacent enum"
    );

    let mut content = ser.serialize_struct("Val1", 2).unwrap();
    content.serialize_field("x", ser.serialize_f32_bits(x.to_bits()).unwrap());
    content.serialize_field("y", ser.serialize_f32_bits(y.to_bits()).unwrap());
    let mut st = ser.serialize_struct("TestStructUntaggedEnum", 1).unwrap();
    st.serialize_field("a", content.end());
    let expected = Value::Record(vec![field(
        "a",
        Value::Record(vec![
            field("x", Value::Float(x.to_bits())),
            field("y", Value::Float(y.to_bits())),
        ]),
    )]);
    assert_eq!(
        st.end(),
        expected,
        "error serializing struct untagged enum"
    );

    let z = 3.0f32;
    let mut content = ser.serialize_struct("Val2", 3).unwrap();
    content.serialize_field("x", ser.serialize_f32_bits(x.to_bits()).unwrap());
    content.serialize_field("y", ser.serialize_f32_bits(y.to_bits()).unwrap());
    content.serialize_field("z", ser.serialize_f32_bits(z.to_bits()).unwrap());
    let mut st = ser.serialize_struct("TestStructUntaggedEnum", 1).unwrap();
    st.serialize_field("a", content.end());
    let expected = Value::Record(vec![field(
        "a",
        Value::Record(vec![
            field("x", Value::Float(x.to_bits())),
            field("y", Value::Float(y.to_bits())),
            field("z", Value::Float(z.to_bits())),
        ]),
    )]);
    assert_eq!(
        st.end(),
        expected,
        "error serializing struct untagged enum variant"
    );
}

/// A tuple enum variant `Val2(1.0, 2.0, 3.0)` at index 1, under each tagging
/// convention the protocol can express without a schema.
#[test]
fn test_to_value_tuple_enum() {
    let ser = Serializer::default();

    let mut tv = ser
        .serialize_tuple_variant("TupleExternalEnum", 1, "Val2", 3)
        .unwrap();
    tv.serialize_element(ser.serialize_f32_bits(1.0f32.to_bits()).unwrap());
    tv.serialize_element(ser.serialize_f32_bits(2.0f32.to_bits()).unwrap());
    tv.serialize_element(ser.serialize_f32_bits(3.0f32.to_bits()).unwrap());
    let mut st = ser.serialize_struct("TestTupleExternalEnum", 1).unwrap();
    st.serialize_field("a", tv.end());
    let expected = Value::Record(vec![field(
        "a",
        Value::Record(vec![
            field("type", Value::Enum(1, "Val2".to_owned())),
            field(
                "value",
                Value::Array(vec![
                    Value::Union(1, Box::new(Value::Float(1.0f32.to_bits()))),
                    Value::Union(1, Box::new(Value::Float(2.0f32.to_bits()))),
                    Value::Union(1, Box::new(Value::Float(3.0f32.to_bits()))),
                ]),
            ),
        ]),
    )]);
    assert_eq!(st.end(), expected, "error serializing tuple external enum");

    let mut content = ser.serialize_tuple(2).unwrap();
    content.serialize_element(ser.serialize_f32_bits(1.0f32.to_bits()).unwrap());
    content.serialize_element(ser.serialize_f32_bits(2.0f32.to_bits()).unwrap());
    let mut tag = ser.serialize_struct("TupleAdjacentEnum", 2).unwrap();
    tag.serialize_field("t", ser.serialize_str("Val1").unwrap());
    tag.serialize_field("v", content.end());
    let mut st = ser.serialize_struct("TestTupleAdjacentEnum", 1).unwrap();
    st.serialize_field("a", tag.end());
    let expected = Value::Record(vec![field(
        "a",
        Value::Record(vec![
            field("t", Value::String("Val1".to_owned())),
            field(
                "v",
                Value::Array(vec![
                    Value::Float(1.0f32.to_bits()),
                    Value::Float(2.0f32.to_bits()),
                ]),
            ),
        ]),
    )]);
    assert_eq!(st.end(), expected, "error serializing tuple adjacent enum");

    let mut content = ser.serialize_tuple(2).unwrap();
    content.serialize_element(ser.serialize_f32_bits(1.0f32.to_bits()).unwrap());
    content.serialize_element(ser.serialize_f32_bits(2.0f32.to_bits()).unwrap());
    let mut st = ser.serialize_struct("TestTupleUntaggedEnum", 1).unwrap();
    st.serialize_field("a", content.end());
    let expected = Value::Record(vec![field(
        "a",
        Value::Array(vec![
            Value::Float(1.0f32.to_bits()),
            Value::Float(2.0f32.to_bits()),
        ]),
    )]);
    assert_eq!(st.end(), expected, "error serializing tuple untagged enum");
}

#[test]
fn avro_3747_human_readable_false() {
    let ser = Serializer::new(false);
    assert_eq!(ser.is_human_readable(), false);
}

#[test]
fn avro_3747_human_readable_true() {
    let ser = Serializer::new(true);
    assert!(ser.is_human_readable());
}

/// The byte-representation hint decides between the variable-length and the
/// fixed-length tagging; byte containers serialized element by element stay
/// ordinary sequences of 32-bit integers.
#[test]
fn avro_3631_test_to_value_fixed_field() {
    let ser = Serializer::default();

    let array_field: &[u8] = &[1, 11, 111];
    let fixed_field: [u8; 6] = [1; 6];
    let fixed_field2: &[u8] = &[6, 66];
    let bytes_field: &[u8] = &[2, 22, 222];
    let bytes_field2: [u8; 6] = [2; 6];
    let vec_field: Vec<u8> = vec![3, 33];

    let mut st = ser.serialize_struct("TestStructFixedField", 6).unwrap();

    let mut seq = ser.serialize_seq(Some(array_field.len())).unwrap();
    for b in array_field {
        seq.serialize_element(ser.serialize_u8(*b).unwrap());
    }
    st.serialize_field("array_field", seq.end());

    st.serialize_field(
        "fixed_field",
        ser.serialize_bytes(&fixed_field, BytesType::Fixed).unwrap(),
    );
    st.serialize_field(
        "fixed_field2",
        ser.serialize_bytes(fixed_field2, BytesType::Fixed).unwrap(),
    );
    st.serialize_field(
        "bytes_field",
        ser.serialize_bytes(bytes_field, BytesType::Bytes).unwrap(),
    );
    st.serialize_field(
        "bytes_field2",
        ser.serialize_bytes(&bytes_field2, BytesType::Bytes).unwrap(),
    );

    let mut seq = ser.serialize_seq(Some(vec_field.len())).unwrap();
    for b in &vec_field {
        seq.serialize_element(ser.serialize_u8(*b).unwrap());
    }
    st.serialize_field("vec_field", seq.end());

    let expected = Value::Record(vec![
        field(
            "array_field",
            Value::Array(vec![Value::Int(1), Value::Int(11), Value::Int(111)]),
        ),
        field("fixed_field", Value::Fixed(6, Vec::from(fixed_field))),
        field("fixed_field2", Value::Fixed(2, Vec::from(fixed_field2))),
        field("bytes_field", Value::Bytes(Vec::from(bytes_field))),
        field("bytes_field2", Value::Bytes(Vec::from(bytes_field2))),
        field(
            "vec_field",
            Value::Array(vec![Value::Int(3), Value::Int(33)]),
        ),
    ]);
    assert_eq!(expected, st.end());
}

/// Numeric widening, exactly as the conversion table gives it.
#[test]
fn widening_follows_the_table() {
    let ser = Serializer::default();
    assert_eq!(ser.serialize_i8(-5).unwrap(), Value::Int(-5));
    assert_eq!(ser.serialize_i16(-300).unwrap(), Value::Int(-300));
    assert_eq!(ser.serialize_u8(200).unwrap(), Value::Int(200));
    assert_eq!(ser.serialize_u16(60000).unwrap(), Value::Int(60000));
    assert_eq!(
        ser.serialize_u32(i32::MAX as u32).unwrap(),
        Value::Int(i32::MAX)
    );
    assert_eq!(
        ser.serialize_u32(i32::MAX as u32 + 1).unwrap(),
        Value::Long(i32::MAX as i64 + 1)
    );
    assert_eq!(
        ser.serialize_u64(i64::MAX as u64).unwrap(),
        Value::Long(i64::MAX)
    );
    assert_eq!(
        ser.serialize_u64(i64::MAX as u64 + 1),
        Err(Error::UnsignedLongTooLarge)
    );
    assert_eq!(ser.serialize_bool(true).unwrap(), Value::Boolean(true));
}

/// A character becomes a one-character text value; this exercises the
/// trusted string append underneath.
#[test]
fn char_serializes_to_one_character_text() {
    let ser = Serializer::default();
    assert_eq!(
        ser.serialize_char('Q').unwrap(),
        Value::String("Q".to_owned())
    );
}

/// The optional convention: absence is branch zero over the absent value,
/// presence branch one over the inner value.
#[test]
fn optional_convention() {
    let ser = Serializer::default();
    assert_eq!(
        ser.serialize_none().unwrap(),
        Value::Union(0, Box::new(Value::Null))
    );
    let inner = ser.serialize_i32(7).unwrap();
    assert_eq!(
        ser.serialize_some(inner).unwrap(),
        Value::Union(1, Box::new(Value::Int(7)))
    );
}

/// Unit structs serialize like the unit value; newtype structs vanish into
/// their inner value.
#[test]
fn unit_and_newtype_structs() {
    let ser = Serializer::default();
    assert_eq!(ser.serialize_unit_struct("Marker").unwrap(), Value::Null);
    let inner = ser.serialize_str("kept").unwrap();
    assert_eq!(
        ser.serialize_newtype_struct("Wrapper", inner).unwrap(),
        Value::String("kept".to_owned())
    );
}

/// A mapping key recorded twice keeps only the later value; a key that is
/// not text is the non-text-key failure and the error message matches.
#[test]
fn map_last_write_wins_and_non_text_key_fails() {
    let ser = Serializer::default();

    let mut map = ser.serialize_map(Some(2)).unwrap();
    map.serialize_key(ser.serialize_str("k").unwrap()).unwrap();
    map.serialize_value(ser.serialize_i32(1).unwrap());
    map.serialize_key(ser.serialize_str("k").unwrap()).unwrap();
    map.serialize_value(ser.serialize_i32(2).unwrap());
    let expected = Value::Mapping(vec![("k".to_owned(), Value::Int(2))]);
    assert_eq!(map.end(), expected);

    let mut map = ser.serialize_map(None).unwrap();
    let err = map
        .serialize_key(ser.serialize_i32(5).unwrap())
        .unwrap_err();
    assert_eq!(err, Error::MapKeyNotString);
    assert_eq!(err.message(), "map key is not a string");
    assert_eq!(
        Error::UnsignedLongTooLarge.message(),
        "u64 is too large"
    );
}

/// A mapping with two distinct keys holds both entries.
#[test]
fn map_distinct_keys() {
    let ser = Serializer::default();
    let mut map = ser.serialize_map(Some(2)).unwrap();
    map.serialize_key(ser.serialize_str("a").unwrap()).unwrap();
    map.serialize_value(ser.serialize_i32(1).unwrap());
    map.serialize_key(ser.serialize_str("b").unwrap()).unwrap();
    map.serialize_value(ser.serialize_i32(2).unwrap());
    let expected = Value::Mapping(vec![
        ("a".to_owned(), Value::Int(1)),
        ("b".to_owned(), Value::Int(2)),
    ]);
    assert_eq!(map.end(), expected);
}

/// Empty aggregates finalize into empty values.
#[test]
fn empty_aggregates() {
    let ser = Serializer::default();
    assert_eq!(ser.serialize_seq(None).unwrap().end(), Value::Array(vec![]));
    assert_eq!(
        ser.serialize_map(Some(0)).unwrap().end(),
        Value::Mapping(vec![])
    );
    assert_eq!(
        ser.serialize_struct("Empty", 0).unwrap().end(),
        Value::Record(vec![])
    );
    assert_eq!(ser.serialize_str("").unwrap(), Value::String(String::new()));
    assert_eq!(
        ser.serialize_bytes(&[], BytesType::Bytes).unwrap(),
        Value::Bytes(vec![])
    );
    assert_eq!(
        ser.serialize_bytes(&[], BytesType::Fixed).unwrap(),
        Value::Fixed(0, vec![])
    );
}

/// The largest unsigned 64-bit value is rejected, not saturated.
#[test]
fn u64_max_is_rejected() {
    let ser = Serializer::default();
    assert_eq!(ser.serialize_u64(u64::MAX), Err(Error::UnsignedLongTooLarge));
    assert_eq!(ser.serialize_u64(0).unwrap(), Value::Long(0));
}
