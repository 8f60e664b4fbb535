use lightwave::numbers::parse_i64;
use lightwave::values::coerce_value;
use lightwave::values::parse_params;
use lightwave::values::ParamValue;

fn chars(s: &str) -> Vec<char> {
    s.chars().collect()
}

fn coerce(s: &str) -> ParamValue {
    coerce_value(&chars(s))
}

#[test]
fn true_in_any_case_becomes_boolean() {
    assert_eq!(coerce("true"), ParamValue::Bool(true));
    assert_eq!(coerce("TRUE"), ParamValue::Bool(true));
    assert_eq!(coerce("tRuE"), ParamValue::Bool(true));
}

#[test]
fn false_in_any_case_becomes_boolean() {
    assert_eq!(coerce("False"), ParamValue::Bool(false));
    assert_eq!(coerce("false"), ParamValue::Bool(false));
    assert_eq!(coerce("FALSE"), ParamValue::Bool(false));
}

#[test]
fn digit_string_becomes_integer() {
    assert_eq!(coerce("42"), ParamValue::Int(42));
    assert_eq!(coerce("-5"), ParamValue::Int(-5));
    assert_eq!(coerce("+7"), ParamValue::Int(7));
    assert_eq!(coerce("0"), ParamValue::Int(0));
}

#[test]
fn decimal_string_becomes_float_literal() {
    assert_eq!(coerce("3.14"), ParamValue::FloatLit("3.14".to_string()));
}

#[test]
fn exponent_string_becomes_float_literal() {
    let expected = serde_json::Number::from_f64(1000.0).unwrap().to_string();
    assert_eq!(coerce("1e3"), ParamValue::FloatLit(expected));
}

#[test]
fn other_strings_stay_verbatim() {
    assert_eq!(coerce("hello"), ParamValue::Str("hello".to_string()));
    assert_eq!(coerce(""), ParamValue::Str("".to_string()));
    assert_eq!(coerce(" 42"), ParamValue::Str(" 42".to_string()));
}

#[test]
fn non_finite_floats_fall_back_to_string() {
    assert_eq!(coerce("NaN"), ParamValue::Str("NaN".to_string()));
    assert_eq!(coerce("inf"), ParamValue::Str("inf".to_string()));
    assert_eq!(coerce("-Infinity"), ParamValue::Str("-Infinity".to_string()));
}

#[test]
fn integer_overflowing_sixty_four_bits_reads_as_float() {
    let as_float: f64 = "9223372036854775808".parse().unwrap();
    let expected = serde_json::Number::from_f64(as_float).unwrap().to_string();
    assert_eq!(coerce("9223372036854775808"), ParamValue::FloatLit(expected));
}

#[test]
fn boundary_integers_stay_integers() {
    assert_eq!(coerce("9223372036854775807"), ParamValue::Int(i64::MAX));
    assert_eq!(coerce("-9223372036854775808"), ParamValue::Int(i64::MIN));
}

#[test]
fn parse_i64_accepts_exactly_the_standard_grammar() {
    assert_eq!(parse_i64(&chars("123")), Some(123));
    assert_eq!(parse_i64(&chars("-123")), Some(-123));
    assert_eq!(parse_i64(&chars("+123")), Some(123));
    assert_eq!(parse_i64(&chars("")), None);
    assert_eq!(parse_i64(&chars("+")), None);
    assert_eq!(parse_i64(&chars("12a")), None);
    assert_eq!(parse_i64(&chars("1.5")), None);
    assert_eq!(parse_i64(&chars("9223372036854775807")), Some(i64::MAX));
    assert_eq!(parse_i64(&chars("9223372036854775808")), None);
    assert_eq!(parse_i64(&chars("-9223372036854775808")), Some(i64::MIN));
    assert_eq!(parse_i64(&chars("-9223372036854775809")), None);
    assert_eq!(parse_i64(&chars("99999999999999999999999")), None);
}

#[test]
fn parse_i64_matches_the_standard_parser() {
    let cases = ["0", "-0", "007", "12345", "-12345", "+0", "184467440737095516a"];
    for case in cases {
        assert_eq!(parse_i64(&chars(case)), case.parse::<i64>().ok(), "on {case:?}");
    }
}

fn entries(params: &[&str]) -> Vec<(String, ParamValue)> {
    let raw: Vec<String> = params.iter().map(|s| s.to_string()).collect();
    parse_params(&raw).entries.into_iter().map(|e| (e.key, e.value)).collect()
}

#[test]
fn entries_without_equals_are_dropped() {
    assert_eq!(entries(&["noequals", "x"]), vec![]);
}

#[test]
fn value_keeps_everything_after_the_first_equals() {
    assert_eq!(
        entries(&["c=x=y"]),
        vec![("c".to_string(), ParamValue::Str("x=y".to_string()))]
    );
}

#[test]
fn later_duplicate_key_overwrites_earlier_value() {
    assert_eq!(
        entries(&["a=1", "b=true", "a=2", "c=x=y"]),
        vec![
            ("a".to_string(), ParamValue::Int(2)),
            ("b".to_string(), ParamValue::Bool(true)),
            ("c".to_string(), ParamValue::Str("x=y".to_string())),
        ]
    );
}

#[test]
fn empty_key_and_empty_value_are_allowed() {
    assert_eq!(
        entries(&["=v", "k="]),
        vec![
            ("".to_string(), ParamValue::Str("v".to_string())),
            ("k".to_string(), ParamValue::Str("".to_string())),
        ]
    );
}
