use ucl::float::{float_text, one_digit_text, plain_text, rounded_text, two_digit_text};
use ucl::text::{escape_quotes, i64_text, join, repeat, u64_text};
use ucl::value::{Number, Value};

fn to_serde(v: &Value) -> serde_json::Value {
    match v {
        Value::Null => serde_json::Value::Null,
        Value::Bool(b) => serde_json::Value::Bool(*b),
        Value::Number(Number::PosInt(n)) => serde_json::Value::from(*n),
        Value::Number(Number::NegInt(n)) => serde_json::Value::from(*n),
        Value::Number(Number::Float(bits)) => serde_json::Value::from(f64::from_bits(*bits)),
        Value::String(s) => serde_json::Value::String(s.clone()),
        Value::List(items) => serde_json::Value::Array(items.iter().map(to_serde).collect()),
        Value::Object(entries) => serde_json::Value::Object(
            entries.iter().map(|(k, v)| (k.clone(), to_serde(v))).collect(),
        ),
    }
}

fn samples() -> Vec<f64> {
    let mut out = vec![
        0.0,
        -0.0,
        1.0,
        -1.0,
        0.5,
        2.5,
        3.5,
        0.25,
        0.35,
        0.1,
        0.2,
        0.30000000000000004,
        1.05,
        2.675,
        9.95,
        9.99,
        99.95,
        1234.5678,
        1e5,
        123456789.0,
        1e15,
        9007199254740992.0,
        1e16,
        1e17,
        1.5e20,
        1e21,
        1e22,
        1.2345e25,
        1e100,
        1.7976931348623157e308,
        1e-4,
        1e-5,
        1.5e-5,
        1e-6,
        1e-7,
        2.5e-10,
        5e-324,
        2.2250738585072014e-308,
        3.141592653589793,
        2.718281828459045,
        0.1 + 0.2,
        100.0 / 3.0,
        -7.0 / 3.0,
        f64::MIN_POSITIVE,
        f64::MAX,
        f64::EPSILON,
    ];
    let mut x = 0.001f64;
    for _ in 0..200 {
        out.push(x);
        out.push(-x);
        x *= 1.37;
    }
    out
}

#[test]
fn float_text_is_the_text_of_serde_json() {
    for x in samples() {
        let expected = serde_json::to_string(&serde_json::Value::from(x)).unwrap();
        assert_eq!(float_text(x.to_bits()), expected, "{:e}", x);
    }
    for x in [f64::INFINITY, f64::NEG_INFINITY, f64::NAN] {
        assert_eq!(float_text(x.to_bits()), "null");
    }
}

#[test]
fn plain_text_is_the_display_of_std_but_for_the_choice_between_two_nearest_texts() {
    for x in samples() {
        let text = plain_text(x.to_bits());
        let back: f64 = text.parse().unwrap();
        assert_eq!(back.to_bits(), x.to_bits(), "{}", text);
        if text != format!("{}", x) {
            assert!(x.abs() >= 562949953421312.0, "{} for {}", text, x);
            assert_eq!(text.len(), format!("{}", x).len());
        }
    }
    for x in [0.0, 1.0, -1.0, 0.5, 2.5, 0.1, 0.35, 6.0, 7.5, 120.0, 1234.5678, 1e15, 1e-5, -0.25] {
        assert_eq!(plain_text(f64::to_bits(x)), format!("{}", x));
    }
    assert_eq!(plain_text(1e21f64.to_bits()), "1000000000000000000000");
    assert_eq!(plain_text(2432902008176640000f64.to_bits()), "2432902008176640000");
    assert_eq!(plain_text(1.5e-7f64.to_bits()), "0.00000015");
    assert_eq!(plain_text((-1.25e-10f64).to_bits()), "-0.000000000125");
    assert_eq!(plain_text(1.2345e25f64.to_bits()), "12345000000000000000000000");
}

#[test]
fn rounded_text_is_the_display_without_decimals() {
    for x in samples() {
        if x.abs() >= 9e18 {
            continue;
        }
        assert_eq!(rounded_text(x.to_bits()), format!("{:.0}", x), "{:e}", x);
    }
    for x in [f64::INFINITY, f64::NEG_INFINITY, f64::NAN] {
        assert_eq!(rounded_text(x.to_bits()), format!("{:.0}", x));
    }
    assert_eq!(rounded_text(1e19f64.to_bits()), "1e+19");
}

#[test]
fn one_digit_text_is_the_display_with_one_decimal() {
    let mut tried = samples();
    let mut x = 0.05f64;
    for _ in 0..400 {
        tried.push(x);
        tried.push(-x);
        tried.push(x * 7.0);
        tried.push(4503599627370496.0 - x);
        x += 0.1;
    }
    for k in 0..2000u64 {
        tried.push(f64::from_bits(0x3fd6666666666666 + k));
        tried.push(f64::from_bits(0x4330000000000000 - 1 - k));
        tried.push(f64::from_bits(0x4320000000000000 + k));
    }
    let mut differing = Vec::new();
    for x in tried {
        if x.abs() >= 9e18 {
            continue;
        }
        if one_digit_text(x.to_bits()) != format!("{:.1}", x) {
            differing.push(x);
        }
    }
    assert_eq!(differing, Vec::<f64>::new());
    for x in [f64::INFINITY, f64::NEG_INFINITY, f64::NAN] {
        assert_eq!(one_digit_text(x.to_bits()), format!("{:.1}", x));
    }
}

#[test]
fn two_digit_text_is_the_display_with_two_decimals() {
    let mut tried = samples();
    let mut x = 0.005f64;
    for _ in 0..2000 {
        tried.push(x);
        tried.push(-x);
        tried.push(x * 3.0);
        tried.push(4503599627370496.0 - x);
        x += 0.01;
    }
    for k in 0..2000u64 {
        tried.push(f64::from_bits(0x3f847ae147ae147b + k));
        tried.push(f64::from_bits(0x4330000000000000 - 1 - k));
    }
    let mut differing = Vec::new();
    for x in tried {
        if x.abs() >= 9e18 {
            continue;
        }
        if two_digit_text(x.to_bits()) != format!("{:.2}", x) {
            differing.push(x);
        }
    }
    assert_eq!(differing, Vec::<f64>::new());
}

#[test]
fn json_text_is_the_text_of_serde_json() {
    let values = vec![
        Value::Null,
        Value::Bool(true),
        Value::Number(Number::PosInt(u64::MAX)),
        Value::Number(Number::NegInt(i64::MIN)),
        Value::Number(Number::Float(1.5f64.to_bits())),
        Value::String("plain".to_string()),
        Value::String("\"quoted\" \\ back / slash".to_string()),
        Value::String("\u{0}\u{1}\u{7}\u{8}\t\n\u{b}\u{c}\r\u{e}\u{1f} \u{7f}\u{80}é€😀".to_string()),
        Value::List(vec![]),
        Value::Object(vec![]),
        Value::Object(vec![
            ("a".to_string(), Value::List(vec![Value::Null, Value::Bool(false)])),
            (
                "b\n".to_string(),
                Value::Object(vec![("c".to_string(), Value::Number(Number::PosInt(0)))]),
            ),
            ("c".to_string(), Value::String(String::new())),
        ]),
    ];
    for v in &values {
        assert_eq!(v.to_json_text(), serde_json::to_string(&to_serde(v)).unwrap());
    }
    let all = Value::List(values);
    assert_eq!(all.to_json_text(), serde_json::to_string(&to_serde(&all)).unwrap());
}

#[test]
fn integers_as_decimal_text() {
    for n in [0u64, 1, 9, 10, 11, 99, 100, 12345, u64::MAX] {
        assert_eq!(u64_text(n), n.to_string());
    }
    for n in [0i64, 1, -1, 9, -9, 10, -10, 100, -12345, i64::MAX, i64::MIN] {
        assert_eq!(i64_text(n), n.to_string());
    }
}

#[test]
fn texts_are_joined_repeated_and_escaped() {
    let parts: Vec<String> = vec!["a".to_string(), "".to_string(), "c".to_string()];
    assert_eq!(join(&parts, ", "), "a, , c");
    assert_eq!(join(&vec![], ", "), "");
    assert_eq!(join(&vec!["one".to_string()], ", "), "one");
    assert_eq!(repeat("  ", 3), "      ");
    assert_eq!(repeat("ab", 0), "");
    assert_eq!(escape_quotes("say \"hi\" é"), "say \\\"hi\\\" é");
    assert_eq!(escape_quotes(""), "");
}
