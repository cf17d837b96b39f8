use json_in_type::numbers::F32;
use json_in_type::numbers::F64;
use json_in_type::to_json_vec;
use json_in_type::JSONValue;
use json_in_type::JSONfalse;
use json_in_type::JSONtrue;

fn json_string<T: JSONValue>(value: &T) -> String {
    let from_string = json_in_type::to_json_string(value).unwrap();
    let from_vec = String::from_utf8(to_json_vec(value)).unwrap();
    assert_eq!(from_string, from_vec);
    from_string
}

fn f64_value(x: f64) -> F64 {
    let text = if x.is_finite() {
        ryu_ecmascript::Buffer::new().format(x).as_bytes().to_vec()
    } else {
        Vec::new()
    };
    F64::new(x.to_bits(), text)
}

fn f32_value(x: f32) -> F32 {
    let text = if x.is_finite() {
        ryu_ecmascript::Buffer::new().format(x).as_bytes().to_vec()
    } else {
        Vec::new()
    };
    F32::new(x.to_bits(), text)
}

#[test]
fn test_int() {
    assert_eq!("-1234567890", json_string(&(-1234567890 as i32)));
    assert_eq!("1234567890123456789", json_string(&1234567890123456789u64));
}

#[test]
fn test_float() {
    assert_eq!("-1234567890", json_string(&f64_value(-1234567890 as f64)));
    assert_eq!("null", json_string(&f64_value(f64::NAN)));
    assert_eq!("null", json_string(&f64_value(f64::NEG_INFINITY)));
}

#[test]
fn test_bool() {
    assert_eq!("true", json_string(&true));
    assert_eq!("false", json_string(&false));
}

#[test]
fn unit_encodes_to_null() {
    assert_eq!("null", json_string(&()));
}

#[test]
fn boolean_markers_encode_like_booleans() {
    assert_eq!("true", json_string(&JSONtrue));
    assert_eq!("false", json_string(&JSONfalse));
}

#[test]
fn integer_widths_and_extremes() {
    assert_eq!("0", json_string(&0u8));
    assert_eq!("255", json_string(&255u8));
    assert_eq!("-128", json_string(&(-128i8)));
    assert_eq!("65535", json_string(&65535u16));
    assert_eq!("-32768", json_string(&(-32768i16)));
    assert_eq!("4294967295", json_string(&4294967295u32));
    assert_eq!("18446744073709551615", json_string(&u64::MAX));
    assert_eq!("-9223372036854775808", json_string(&i64::MIN));
    assert_eq!("9223372036854775807", json_string(&i64::MAX));
    assert_eq!("340282366920938463463374607431768211455", json_string(&u128::MAX));
    assert_eq!(
        "-170141183460469231731687303715884105728",
        json_string(&i128::MIN)
    );
    assert_eq!("12345", json_string(&12345usize));
    assert_eq!("-12345", json_string(&(-12345isize)));
    assert_eq!("0", json_string(&0i64));
}

#[test]
fn integer_text_parses_back() {
    let samples: [i64; 7] = [0, 1, -1, 42, -1000, i64::MIN, i64::MAX];
    for n in samples {
        let text = json_string(&n);
        assert_eq!(n, text.parse::<i64>().unwrap());
        assert!(!text.contains('+'));
        let digits = text.strip_prefix('-').unwrap_or(&text);
        assert!(digits.len() == 1 || !digits.starts_with('0'));
    }
    let unsigned: [u64; 4] = [0, 9, 10, u64::MAX];
    for n in unsigned {
        let text = json_string(&n);
        assert_eq!(n, text.parse::<u64>().unwrap());
    }
}

#[test]
fn finite_float_round_trips_bit_identical() {
    let samples: [f64; 8] = [
        0.0,
        -0.0,
        1.234,
        0.3,
        -1234567890.0,
        1e300,
        5e-324,
        f64::MAX,
    ];
    for x in samples {
        let text = json_string(&f64_value(x));
        let back: f64 = text.parse().unwrap();
        assert_eq!(x.to_bits(), back.to_bits());
    }
    let small: [f32; 5] = [0.0, 0.1, -3.5, f32::MAX, 1e-45];
    for x in small {
        let text = json_string(&f32_value(x));
        let back: f32 = text.parse().unwrap();
        assert_eq!(x.to_bits(), back.to_bits());
    }
}

#[test]
fn non_finite_floats_encode_to_null() {
    assert_eq!("null", json_string(&f64_value(f64::INFINITY)));
    assert_eq!("null", json_string(&f32_value(f32::NAN)));
    assert_eq!("null", json_string(&f32_value(f32::INFINITY)));
    assert_eq!("null", json_string(&f32_value(f32::NEG_INFINITY)));
}

#[test]
fn optional_values_flatten() {
    assert_eq!("3", json_string(&Some(3u32)));
    assert_eq!("null", json_string(&None::<u32>));
    assert_eq!("5", json_string(&Some(Some(5i8))));
    assert_eq!("null", json_string(&Some(None::<bool>)));
    assert_eq!(json_string(&17u16), json_string(&Some(17u16)));
    assert_eq!("true", json_string(&Some(true)));
}
