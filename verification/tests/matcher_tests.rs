use structpath::parse_path_generic;
use structpath::FieldMap;
use structpath::IntParseError;
use structpath::Schema;
use structpath::SegmentSchema;
use structpath::SegmentType;
use structpath::SegmentValue;
use structpath::SegmentValueSchema;
use structpath::StructPathError;

fn foo_bar_schema() -> Schema {
    Schema {
        segments: vec![
            SegmentSchema::Literal("foo".to_owned()),
            SegmentSchema::Value(SegmentValueSchema {
                name: "foo".to_owned(),
                segment_type: SegmentType::U64,
            }),
            SegmentSchema::Literal("bar".to_owned()),
            SegmentSchema::Value(SegmentValueSchema {
                name: "bar".to_owned(),
                segment_type: SegmentType::String,
            }),
        ],
    }
}

#[test]
fn test_parse_path_generic() {
    let mut expected: FieldMap<SegmentValue> = FieldMap::new();
    expected.insert("foo".to_owned(), SegmentValue::U64(1));
    expected.insert("bar".to_owned(), SegmentValue::String("thing".to_owned()));
    assert_eq!(
        parse_path_generic("/foo/1/bar/thing", &foo_bar_schema()).unwrap(),
        expected,
    );
}

#[test]
fn test_parse_path_generic_float() {
    let schema = Schema {
        segments: vec![
            SegmentSchema::Literal("foo".to_owned()),
            SegmentSchema::Value(SegmentValueSchema {
                name: "foo".to_owned(),
                segment_type: SegmentType::F64,
            }),
        ],
    };
    let mut expected: FieldMap<SegmentValue> = FieldMap::new();
    expected.insert("foo".to_owned(), SegmentValue::F64("1.2".to_owned()));
    assert_eq!(parse_path_generic("/foo/1.2", &schema).unwrap(), expected);
}

#[test]
fn test_parse_path_generic_signed_integer() {
    let schema = Schema {
        segments: vec![
            SegmentSchema::Literal("foo".to_owned()),
            SegmentSchema::Value(SegmentValueSchema {
                name: "foo".to_owned(),
                segment_type: SegmentType::I128,
            }),
        ],
    };
    let mut expected: FieldMap<SegmentValue> = FieldMap::new();
    expected.insert("foo".to_owned(), SegmentValue::I128(-1));
    assert_eq!(parse_path_generic("/foo/-1", &schema).unwrap(), expected);
}

#[test]
fn test_literal_mismatch() {
    let schema = Schema::new().literal("foo").value("id", SegmentType::U64);
    let err = parse_path_generic("/baz/1", &schema).unwrap_err();
    assert!(matches!(
        err,
        StructPathError::IncorrectSegment { ref got, ref expected }
            if got == "baz" && expected == "foo"
    ));
}

#[test]
fn test_signed_boundary_accepted() {
    let schema = Schema::new().literal("id").value("id", SegmentType::I128);
    let mut expected: FieldMap<SegmentValue> = FieldMap::new();
    expected.insert("id".to_owned(), SegmentValue::I128(-1));
    assert_eq!(parse_path_generic("/id/-1", &schema).unwrap(), expected);
}

#[test]
fn test_negative_rejected_for_unsigned() {
    let schema = Schema::new().literal("id").value("id", SegmentType::U64);
    let err = parse_path_generic("/id/-1", &schema).unwrap_err();
    assert!(matches!(
        err,
        StructPathError::ParseIntError(IntParseError::InvalidDigit)
    ));
}

#[test]
fn test_numeric_parse_error_kinds() {
    let u8_schema = Schema::new().value("v", SegmentType::U8);
    assert!(matches!(
        parse_path_generic("/abc", &u8_schema).unwrap_err(),
        StructPathError::ParseIntError(IntParseError::InvalidDigit)
    ));
    assert!(matches!(
        parse_path_generic("/256", &u8_schema).unwrap_err(),
        StructPathError::ParseIntError(IntParseError::PosOverflow)
    ));
    assert!(matches!(
        parse_path_generic("/", &u8_schema).unwrap_err(),
        StructPathError::ParseIntError(IntParseError::Empty)
    ));
    let i8_schema = Schema::new().value("v", SegmentType::I8);
    assert!(matches!(
        parse_path_generic("/-129", &i8_schema).unwrap_err(),
        StructPathError::ParseIntError(IntParseError::NegOverflow)
    ));
    assert!(matches!(
        parse_path_generic("/128", &i8_schema).unwrap_err(),
        StructPathError::ParseIntError(IntParseError::PosOverflow)
    ));
}

#[test]
fn test_integer_bounds_accepted() {
    let schema = Schema::new()
        .value("a", SegmentType::I8)
        .value("b", SegmentType::U128)
        .value("c", SegmentType::I128);
    let mut expected: FieldMap<SegmentValue> = FieldMap::new();
    expected.insert("a".to_owned(), SegmentValue::I8(-128));
    expected.insert(
        "b".to_owned(),
        SegmentValue::U128(340282366920938463463374607431768211455),
    );
    expected.insert(
        "c".to_owned(),
        SegmentValue::I128(-170141183460469231731687303715884105728),
    );
    let path = "/-128/340282366920938463463374607431768211455/-170141183460469231731687303715884105728";
    assert_eq!(parse_path_generic(path, &schema).unwrap(), expected);
}

#[test]
fn test_plus_sign_accepted() {
    let schema = Schema::new().value("v", SegmentType::U64);
    let mut expected: FieldMap<SegmentValue> = FieldMap::new();
    expected.insert("v".to_owned(), SegmentValue::U64(17));
    assert_eq!(parse_path_generic("/+17", &schema).unwrap(), expected);
}

#[test]
fn test_shorter_path_omits_trailing_fields() {
    let result = parse_path_generic("/foo/1", &foo_bar_schema()).unwrap();
    let mut expected: FieldMap<SegmentValue> = FieldMap::new();
    expected.insert("foo".to_owned(), SegmentValue::U64(1));
    assert_eq!(result, expected);
}

#[test]
fn test_longer_path_ignores_extras() {
    let mut expected: FieldMap<SegmentValue> = FieldMap::new();
    expected.insert("foo".to_owned(), SegmentValue::U64(1));
    expected.insert("bar".to_owned(), SegmentValue::String("thing".to_owned()));
    assert_eq!(
        parse_path_generic("/foo/1/bar/thing/tail/42", &foo_bar_schema()).unwrap(),
        expected,
    );
}

#[test]
fn test_first_error_wins_in_match() {
    let schema = Schema::new()
        .value("a", SegmentType::U8)
        .literal("foo");
    let err = parse_path_generic("/abc/baz", &schema).unwrap_err();
    assert!(matches!(
        err,
        StructPathError::ParseIntError(IntParseError::InvalidDigit)
    ));
}

#[test]
fn test_duplicate_names_overwrite() {
    let schema = Schema::new()
        .value("v", SegmentType::U64)
        .value("v", SegmentType::U64);
    let result = parse_path_generic("/1/2", &schema).unwrap();
    let mut expected: FieldMap<SegmentValue> = FieldMap::new();
    expected.insert("v".to_owned(), SegmentValue::U64(2));
    assert_eq!(result, expected);
}

#[test]
fn test_float_text_accepted_forms() {
    let schema = Schema::new().value("v", SegmentType::F64);
    for text in [
        "1.2", "-3.5e-10", "+0.5", ".5", "5.", "1.e5", ".5e2", "inf", "INFINITY", "NaN", "7", "-7e3", "1E+2",
    ] {
        let path = format!("/{text}");
        let mut expected: FieldMap<SegmentValue> = FieldMap::new();
        expected.insert("v".to_owned(), SegmentValue::F64(text.to_owned()));
        assert_eq!(parse_path_generic(&path, &schema).unwrap(), expected);
        let datum: f64 = text.parse().unwrap();
        assert!(datum.is_nan() || datum.is_infinite() || datum.is_finite());
    }
}

#[test]
fn test_float_text_rejected_forms() {
    let schema = Schema::new().value("v", SegmentType::F32);
    for text in ["abc", "1e", "1.2.3", "--1", "+", ".", "1e2.5", "in", "infx"] {
        let path = format!("/{text}");
        let err = parse_path_generic(&path, &schema).unwrap_err();
        assert!(matches!(
            err,
            StructPathError::ParseFloatError(ref m) if m == "invalid float literal"
        ));
        assert!(text.parse::<f32>().is_err());
    }
    let err = parse_path_generic("/", &schema).unwrap_err();
    assert!(matches!(
        err,
        StructPathError::ParseFloatError(ref m) if m == "cannot parse float from empty string"
    ));
    assert!("".parse::<f32>().is_err());
}
