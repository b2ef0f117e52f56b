use structpath::generate_path_from_map;
use structpath::parse_path_generic;
use structpath::Deserializer;
use structpath::FieldMap;
use structpath::Schema;
use structpath::SegmentType;
use structpath::SegmentValue;
use structpath::Serializer;
use structpath::StructPathError;

fn foo_bar_schema() -> Schema {
    Schema::new()
        .literal("foo")
        .value("foo", SegmentType::U64)
        .literal("bar")
        .value("bar", SegmentType::String)
}

#[test]
fn test_deserializer_consumes_each_field_once() {
    let values = parse_path_generic("/foo/1/bar/thing", &foo_bar_schema()).unwrap();
    let mut de = Deserializer::new(values);
    de.begin_map().unwrap();
    let mut seen_foo = false;
    let mut seen_bar = false;
    let mut fields = 0;
    while de.next_key().unwrap() {
        fields += 1;
        let name = de.identifier().unwrap();
        de.next_value().unwrap();
        match name.as_str() {
            "foo" => {
                assert_eq!(de.consume_u64().unwrap(), 1);
                assert!(!seen_foo);
                seen_foo = true;
            },
            "bar" => {
                assert_eq!(de.consume_string().unwrap(), "thing");
                assert!(!seen_bar);
                seen_bar = true;
            },
            other => panic!("unexpected field {other}"),
        }
    }
    assert_eq!(fields, 2);
    assert!(seen_foo && seen_bar);
}

#[test]
fn test_deserializer_signed_and_float_text() {
    let schema = Schema::new()
        .literal("a")
        .value("n", SegmentType::I128)
        .value("x", SegmentType::F64);
    let values = parse_path_generic("/a/-1/1.2", &schema).unwrap();
    let mut de = Deserializer::new(values);
    de.begin_map().unwrap();
    while de.next_key().unwrap() {
        let name = de.identifier().unwrap();
        de.next_value().unwrap();
        match name.as_str() {
            "n" => assert_eq!(de.consume_i128().unwrap(), -1),
            "x" => assert_eq!(de.consume_f64_text().unwrap(), "1.2"),
            other => panic!("unexpected field {other}"),
        }
    }
}

#[test]
fn test_deserializer_expected_type() {
    let values = parse_path_generic("/foo/1/bar/thing", &foo_bar_schema()).unwrap();
    let mut de = Deserializer::new(values);
    de.begin_map().unwrap();
    assert!(de.next_key().unwrap());
    let name = de.identifier().unwrap();
    de.next_value().unwrap();
    // Both fields hold a u64 or a text value; asking for an i8 can never
    // match, and there is no coercion between kinds.
    let err = de.consume_i8().unwrap_err();
    match err {
        StructPathError::ExpectedType(wanted, value) => {
            assert_eq!(wanted, "i8");
            match name.as_str() {
                "foo" => assert_eq!(value, SegmentValue::U64(1)),
                _ => assert_eq!(value, SegmentValue::String("thing".to_owned())),
            }
        },
        other => panic!("expected an ExpectedType error, got {other:?}"),
    }
}

#[test]
fn test_deserializer_no_widening_between_unsigned_kinds() {
    let schema = Schema::new().value("v", SegmentType::U128);
    let values = parse_path_generic("/1", &schema).unwrap();
    let mut de = Deserializer::new(values);
    de.begin_map().unwrap();
    assert!(de.next_key().unwrap());
    de.identifier().unwrap();
    de.next_value().unwrap();
    let err = de.consume_u64().unwrap_err();
    assert!(matches!(err, StructPathError::ExpectedType(ref wanted, _) if wanted == "u64"));
}

#[test]
fn test_deserializer_invalid_sequencing() {
    let values = parse_path_generic("/foo/1/bar/thing", &foo_bar_schema()).unwrap();
    let mut de = Deserializer::new(values);
    // Asking for a key before entering the map is an invalid state.
    let err = de.next_key().unwrap_err();
    assert!(matches!(
        err,
        StructPathError::InvalidDeserializerState { ref expected, .. } if expected == "Map"
    ));
    de.begin_map().unwrap();
    // Entering the map twice is an invalid state.
    let err = de.begin_map().unwrap_err();
    assert!(matches!(
        err,
        StructPathError::InvalidDeserializerState { ref expected, .. } if expected == "Start"
    ));
    // Asking for a value with no staged key is an invalid state.
    let err = de.next_value().unwrap_err();
    assert!(matches!(
        err,
        StructPathError::InvalidDeserializerState { ref expected, .. } if expected == "MapValue"
    ));
    // Consuming with no staged value is an invalid state.
    let err = de.consume_u64().unwrap_err();
    assert!(matches!(
        err,
        StructPathError::InvalidDeserializerState { ref expected, .. } if expected == "MapValue"
    ));
}

#[test]
fn test_serializer_protocol_and_generate() {
    let mut ser = Serializer::new();
    ser.begin_struct().unwrap();
    ser.begin_field("foo").unwrap();
    ser.put_u64(1).unwrap();
    ser.begin_field("bar").unwrap();
    ser.put_str("thing").unwrap();
    ser.end_struct();
    let rendered = ser.finish();
    let path = generate_path_from_map(&foo_bar_schema(), &rendered).unwrap();
    assert_eq!(path, "/foo/1/bar/thing");
}

#[test]
fn test_serializer_renders_signed_decimal() {
    let schema = Schema::new()
        .literal("v")
        .value("a", SegmentType::I64)
        .value("b", SegmentType::I8)
        .value("c", SegmentType::U128);
    let mut ser = Serializer::new();
    ser.begin_struct().unwrap();
    ser.begin_field("a").unwrap();
    ser.put_i64(-42).unwrap();
    ser.begin_field("b").unwrap();
    ser.put_i8(-128).unwrap();
    ser.begin_field("c").unwrap();
    ser.put_u128(340282366920938463463374607431768211455).unwrap();
    ser.end_struct();
    let path = generate_path_from_map(&schema, &ser.finish()).unwrap();
    assert_eq!(path, "/v/-42/-128/340282366920938463463374607431768211455");
}

#[test]
fn test_serializer_invalid_sequencing() {
    let mut ser = Serializer::new();
    let err = ser.begin_field("foo").unwrap_err();
    assert!(matches!(
        err,
        StructPathError::InvalidSerializerState { ref expected, .. } if expected == "StructKey"
    ));
    let err = ser.put_u64(1).unwrap_err();
    assert!(matches!(
        err,
        StructPathError::InvalidSerializerState { ref expected, .. } if expected == "StructValue"
    ));
    ser.begin_struct().unwrap();
    let err = ser.begin_struct().unwrap_err();
    assert!(matches!(
        err,
        StructPathError::InvalidSerializerState { ref expected, .. } if expected == "Start"
    ));
}

#[test]
fn test_generate_missing_field() {
    let mut ser = Serializer::new();
    ser.begin_struct().unwrap();
    ser.begin_field("foo").unwrap();
    ser.put_u64(1).unwrap();
    ser.end_struct();
    let err = generate_path_from_map(&foo_bar_schema(), &ser.finish()).unwrap_err();
    assert!(matches!(err, StructPathError::MissingField(ref f) if f == "bar"));
}

#[test]
fn test_round_trip_canonical() {
    let schema = foo_bar_schema();
    let path = "/foo/1/bar/thing";
    let parsed = parse_path_generic(path, &schema).unwrap();
    let mut de = Deserializer::new(parsed);
    let mut ser = Serializer::new();
    ser.begin_struct().unwrap();
    de.begin_map().unwrap();
    while de.next_key().unwrap() {
        let name = de.identifier().unwrap();
        de.next_value().unwrap();
        ser.begin_field(&name).unwrap();
        match name.as_str() {
            "foo" => ser.put_u64(de.consume_u64().unwrap()).unwrap(),
            "bar" => ser.put_str(&de.consume_string().unwrap()).unwrap(),
            other => panic!("unexpected field {other}"),
        }
    }
    ser.end_struct();
    assert_eq!(generate_path_from_map(&schema, &ser.finish()).unwrap(), path);
}

#[test]
fn test_round_trip_divergent_for_leading_zeros() {
    let schema = Schema::new().literal("id").value("v", SegmentType::U64);
    let parsed = parse_path_generic("/id/007", &schema).unwrap();
    let mut expected: FieldMap<SegmentValue> = FieldMap::new();
    expected.insert("v".to_owned(), SegmentValue::U64(7));
    assert_eq!(parsed, expected);
    let mut ser = Serializer::new();
    ser.begin_struct().unwrap();
    ser.begin_field("v").unwrap();
    ser.put_u64(7).unwrap();
    ser.end_struct();
    let regenerated = generate_path_from_map(&schema, &ser.finish()).unwrap();
    // The canonical rendering drops the leading zeros: the round trip is
    // not textual identity for non-canonical input.
    assert_ne!(regenerated, "/id/007");
    assert_eq!(regenerated, "/id/7");
}
