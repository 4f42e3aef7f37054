use quickjslib::value::{big_decimal_literal, classify, to_host, to_script};
use quickjslib::{BridgedValue, CallableKind, HostKind, HostProbe, HostValue, JsValue};

fn no_capabilities() -> HostProbe {
    HostProbe {
        is_null: false,
        is_bool: false,
        is_int32: false,
        is_int64: false,
        is_float: false,
        is_string: false,
        is_exported_array: false,
        is_exported_object: false,
        is_exported_function: false,
        is_sequence: false,
        is_mapping: false,
        is_unary_callable: false,
        is_binary_callable: false,
        is_supplier: false,
        is_variadic_callable: false,
        is_big_integer: false,
        is_big_decimal: false,
    }
}

/// The script value the engine builds for a primitive bridged value: the
/// test-side double of the conversion the engine performs.
fn materialize_primitive(b: &BridgedValue) -> JsValue {
    match b {
        BridgedValue::Null => JsValue::Null,
        BridgedValue::Bool(v) => JsValue::Bool(*v),
        BridgedValue::Int(v) => JsValue::Int(*v),
        BridgedValue::Double(bits) => JsValue::Float(*bits),
        BridgedValue::Str(s) => JsValue::Str(s.clone()),
        BridgedValue::BigInteger(v) => JsValue::BigInt(*v),
        other => panic!("not a primitive bridged value: {:?}", other),
    }
}

#[test]
fn classification_follows_the_order() {
    let mut p = no_capabilities();
    p.is_bool = true;
    p.is_string = true;
    assert_eq!(classify(&p), HostKind::Bool);

    let mut p = no_capabilities();
    p.is_null = true;
    p.is_sequence = true;
    p.is_big_decimal = true;
    assert_eq!(classify(&p), HostKind::Null);

    let mut p = no_capabilities();
    p.is_sequence = true;
    p.is_mapping = true;
    assert_eq!(classify(&p), HostKind::Sequence);

    let mut p = no_capabilities();
    p.is_exported_array = true;
    p.is_sequence = true;
    assert_eq!(classify(&p), HostKind::ExportedArray);

    let mut p = no_capabilities();
    p.is_unary_callable = true;
    p.is_binary_callable = true;
    p.is_supplier = true;
    p.is_variadic_callable = true;
    assert_eq!(classify(&p), HostKind::UnaryCallable);

    let mut p = no_capabilities();
    p.is_int64 = true;
    p.is_float = true;
    assert_eq!(classify(&p), HostKind::Int64);

    assert_eq!(classify(&no_capabilities()), HostKind::Fallback);
}

#[test]
fn primitive_round_trips() {
    let ctx = 5;
    let cases = vec![
        HostValue::Null,
        HostValue::Bool(true),
        HostValue::Bool(false),
        HostValue::Int(-42),
        HostValue::Int(i32::MAX),
        HostValue::Long(1234567890123),
        HostValue::Double(2.5f64.to_bits()),
        HostValue::Double((-0.0f64).to_bits()),
        HostValue::Str(String::from("hello")),
    ];
    for x in cases {
        let bridged = to_script(&x);
        let script_value = materialize_primitive(&bridged);
        let back = to_host(&script_value, ctx);
        assert_eq!(back, x);
    }
}

#[test]
fn double_bits_survive_the_round_trip() {
    let bits = 1234.5678f64.to_bits();
    let bridged = to_script(&HostValue::Double(bits));
    assert_eq!(bridged, BridgedValue::Double(bits));
    let back = to_host(&materialize_primitive(&bridged), 0);
    match back {
        HostValue::Double(b) => assert_eq!(f64::from_bits(b), 1234.5678),
        other => panic!("expected a double, got {:?}", other),
    }
}

#[test]
fn long_outside_32_bit_range_becomes_big_integer() {
    // 2^53, the edge of exact double integers, and 2^63 - 1.
    let edge = 9007199254740992i64;
    assert_eq!(to_script(&HostValue::Long(edge)), BridgedValue::BigInteger(edge));
    assert_eq!(to_script(&HostValue::Long(i64::MAX)), BridgedValue::BigInteger(i64::MAX));
    assert_eq!(to_script(&HostValue::Long(i64::MIN)), BridgedValue::BigInteger(i64::MIN));
    // A 32-bit integer stays a plain integer.
    assert_eq!(to_script(&HostValue::Int(7)), BridgedValue::Int(7));
    // The big-integer value read back is the exact host integer.
    assert_eq!(to_host(&JsValue::BigInt(edge), 0), HostValue::Long(edge));
}

#[test]
fn exported_values_unwrap_to_the_same_handle() {
    let ctx = 11;
    // Export: the live script array behind handle 7 becomes a wrapper.
    let exported = to_host(&JsValue::Array(7), ctx);
    assert_eq!(exported, HostValue::JsArrayRef { value: 7, ctx });
    // Reimport: the wrapper unwraps to the very same handle, no copy.
    assert_eq!(to_script(&exported), BridgedValue::JsArray(7));

    let exported = to_host(&JsValue::Object(8), ctx);
    assert_eq!(exported, HostValue::JsObjectRef { value: 8, ctx });
    assert_eq!(to_script(&exported), BridgedValue::JsObject(8));

    let exported = to_host(
        &JsValue::Function { value: 9, name: Some(String::from("inc")) },
        ctx,
    );
    assert_eq!(
        exported,
        HostValue::JsFunctionRef { value: 9, ctx, name: Some(String::from("inc")) }
    );
    assert_eq!(to_script(&exported), BridgedValue::JsFunction(9));
}

#[test]
fn collections_convert_recursively() {
    let seq = HostValue::Sequence(vec![
        HostValue::Int(1),
        HostValue::Str(String::from("a")),
        HostValue::Sequence(vec![HostValue::Bool(true)]),
    ]);
    let expected = BridgedValue::Array(vec![
        BridgedValue::Int(1),
        BridgedValue::Str(String::from("a")),
        BridgedValue::Array(vec![BridgedValue::Bool(true)]),
    ]);
    assert_eq!(to_script(&seq), expected);

    let map = HostValue::Mapping(vec![
        (String::from("square"), HostValue::Callable(CallableKind::Unary, 3)),
        (String::from("n"), HostValue::Long(5)),
    ]);
    let expected = BridgedValue::Object(vec![
        (String::from("square"), BridgedValue::HostCallable(CallableKind::Unary, 3)),
        (String::from("n"), BridgedValue::BigInteger(5)),
    ]);
    assert_eq!(to_script(&map), expected);
}

#[test]
fn script_copies_convert_recursively() {
    let copied = JsValue::ArrayCopy(vec![
        JsValue::Int(1),
        JsValue::Undefined,
        JsValue::ObjectCopy(vec![(String::from("k"), JsValue::Str(String::from("v")))]),
    ]);
    let expected = HostValue::Sequence(vec![
        HostValue::Int(1),
        HostValue::Null,
        HostValue::Mapping(vec![(String::from("k"), HostValue::Str(String::from("v")))]),
    ]);
    assert_eq!(to_host(&copied, 2), expected);
}

#[test]
fn fallback_stringifies() {
    let v = HostValue::Other(String::from("2026-01-01T00:00:00Z"));
    assert_eq!(
        to_script(&v),
        BridgedValue::Str(String::from("2026-01-01T00:00:00Z"))
    );
}

#[test]
fn big_decimal_literal_appends_the_suffix() {
    assert_eq!(big_decimal_literal("123.45"), String::from("123.45m"));
    assert_eq!(big_decimal_literal(""), String::from("m"));
}
