use nan2null::num2opt;
use nan2null::val2opt;
use serde_json::Number;
use serde_json::Value;

fn float(o: Option<u64>) -> Option<f64> {
    o.map(f64::from_bits)
}

#[test]
fn a_json_float_is_read() {
    let n = Number::from_f64(1.0).unwrap();
    assert_eq!(num2opt(&n), Some(1.0f64.to_bits()));
    assert_eq!(num2opt(&n), Some(0x3ff0_0000_0000_0000));
    assert_eq!(float(val2opt(&Value::Number(n))), Some(1.0));
}

#[test]
fn json_integers_are_read_as_floats() {
    assert_eq!(float(num2opt(&Number::from(3u64))), Some(3.0));
    assert_eq!(float(num2opt(&Number::from(-7i64))), Some(-7.0));
    assert_eq!(float(num2opt(&Number::from(0u64))), Some(0.0));
    assert_eq!(num2opt(&Number::from(0u64)), Some(0));
    assert_eq!(float(val2opt(&Value::Number(Number::from(42u64)))), Some(42.0));
    assert_eq!(float(val2opt(&Value::from(-1i64))), Some(-1.0));
}

#[test]
fn large_json_integers_round_to_the_nearest_float() {
    assert_eq!(float(num2opt(&Number::from(u64::MAX))), Some(18446744073709551616.0));
    assert_eq!(num2opt(&Number::from(u64::MAX)), Some(0x43f0_0000_0000_0000));
    assert_eq!(float(num2opt(&Number::from(i64::MIN))), Some(-9223372036854775808.0));
    assert_eq!(float(num2opt(&Number::from((1u64 << 53) + 1))), Some(9007199254740992.0));
}

#[test]
fn json_floats_pass_bit_for_bit() {
    for x in [0.1f64, -2.5, 1e308, 5e-324, -0.0, f64::MAX, f64::MIN_POSITIVE] {
        let n = Number::from_f64(x).unwrap();
        assert_eq!(num2opt(&n), Some(x.to_bits()));
        assert_eq!(val2opt(&Value::Number(n)), Some(x.to_bits()));
    }
}

#[test]
fn a_json_string_is_no_number() {
    assert_eq!(val2opt(&Value::String("1.0".to_string())), None);
    assert_eq!(val2opt(&Value::String(String::new())), None);
    assert_eq!(val2opt(&Value::String("NaN".to_string())), None);
}

#[test]
fn a_json_boolean_is_no_number() {
    assert_eq!(val2opt(&Value::Bool(true)), None);
    assert_eq!(val2opt(&Value::Bool(false)), None);
}

#[test]
fn the_other_json_kinds_are_no_numbers() {
    assert_eq!(val2opt(&Value::Null), None);
    assert_eq!(val2opt(&Value::Array(Vec::new())), None);
    assert_eq!(val2opt(&Value::Array(vec![Value::from(1.0)])), None);
    assert_eq!(val2opt(&Value::Object(serde_json::Map::new())), None);
    let mut m = serde_json::Map::new();
    m.insert("a".to_string(), Value::from(1.0));
    assert_eq!(val2opt(&Value::Object(m)), None);
}

#[test]
fn json_has_no_number_for_nan() {
    assert!(Number::from_f64(f64::NAN).is_none());
    assert!(Number::from_f64(f64::INFINITY).is_none());
    assert_eq!(val2opt(&Value::from(f64::NAN)), None);
    assert_eq!(val2opt(&Value::from(f64::NAN)), val2opt(&Value::Null));
}

#[test]
fn parsed_json_is_read_like_built_json() {
    let v: Value = serde_json::from_str("[1.0, \"1.0\", true, null, -3, 2.5e3]").unwrap();
    let items = v.as_array().unwrap();
    let got: Vec<Option<f64>> = items.iter().map(|x| float(val2opt(x))).collect();
    assert_eq!(got, vec![Some(1.0), None, None, None, Some(-3.0), Some(2500.0)]);
}
