use rho_system_processes::errors::InterpreterError;
use rho_system_processes::json::{parse_json, read_json, Json, JsonNumber};
use rho_system_processes::par::{KeyValuePair, Par};
use rho_system_processes::rho_type::{
    RhoBoolean, RhoList, RhoMap, RhoNil, RhoNumber, RhoString,
};
use rho_system_processes::swi_prolog_service::value_to_par;
use serde_json::Value;

fn convert(v: Value) -> Result<Par, InterpreterError> {
    value_to_par(read_json(&v))
}

fn object(fields: Vec<(&str, Value)>) -> Value {
    let mut m = serde_json::Map::new();
    for (k, v) in fields {
        m.insert(k.to_string(), v);
    }
    Value::Object(m)
}

fn map_par(entries: Vec<(&str, Par)>) -> Par {
    RhoMap::create_par(
        entries
            .into_iter()
            .map(|(k, v)| KeyValuePair {
                key: RhoString::create_par(k.to_string()),
                value: v,
            })
            .collect(),
    )
}

#[test]
fn test_value_to_par_null() {
    let result = convert(Value::Null).unwrap();
    assert_eq!(result, RhoNil::create_par());
}

#[test]
fn test_value_to_par_boolean() {
    let result = convert(Value::from(true)).unwrap();
    assert_eq!(result, RhoBoolean::create_par(true));
}

#[test]
fn test_value_to_par_small_number() {
    let result = convert(Value::from(42)).unwrap();
    assert_eq!(result, RhoNumber::create_par(42));
}

#[test]
fn test_value_to_par_max_i64() {
    let result = convert(Value::from(i64::MAX)).unwrap();
    assert_eq!(result, RhoNumber::create_par(i64::MAX));
}

#[test]
fn test_value_to_par_string() {
    let result = convert(Value::from("hello")).unwrap();
    assert_eq!(result, RhoString::create_par("hello".into()));
}

#[test]
fn test_value_to_par_array() {
    let result = convert(Value::Array(vec![
        Value::from(1),
        Value::from("two"),
        Value::from(true),
    ]))
    .unwrap();
    assert_eq!(
        result,
        RhoList::create_par(vec![
            RhoNumber::create_par(1),
            RhoString::create_par("two".into()),
            RhoBoolean::create_par(true)
        ])
    );
}

#[test]
fn test_value_to_par_nested_array() {
    let result = convert(Value::Array(vec![
        Value::Array(vec![Value::from(1), Value::from(2)]),
        Value::Array(vec![Value::from(3), Value::from(4)]),
    ]))
    .unwrap();
    assert_eq!(
        result,
        RhoList::create_par(vec![
            RhoList::create_par(vec![RhoNumber::create_par(1), RhoNumber::create_par(2)]),
            RhoList::create_par(vec![RhoNumber::create_par(3), RhoNumber::create_par(4)])
        ])
    );
}

#[test]
fn test_value_to_par_object() {
    let result = convert(object(vec![
        ("key", Value::from("value")),
        ("num", Value::from(123)),
    ]))
    .unwrap();
    assert_eq!(
        result,
        map_par(vec![
            ("key", RhoString::create_par("value".into())),
            ("num", RhoNumber::create_par(123)),
        ])
    );
}

#[test]
fn test_value_to_par_nested_object() {
    let result = convert(object(vec![(
        "outer",
        object(vec![("inner", Value::from("value"))]),
    )]))
    .unwrap();
    assert_eq!(
        result,
        map_par(vec![(
            "outer",
            map_par(vec![("inner", RhoString::create_par("value".into()))])
        )])
    );
}

#[test]
fn test_value_to_par_complex_nested_structure() {
    let result = convert(object(vec![
        (
            "list",
            Value::Array(vec![Value::from(1), Value::from(2), Value::from(3)]),
        ),
        (
            "nested",
            object(vec![("bool", Value::from(true)), ("null", Value::Null)]),
        ),
    ]))
    .unwrap();
    assert_eq!(
        result,
        map_par(vec![
            (
                "list",
                RhoList::create_par(vec![
                    RhoNumber::create_par(1),
                    RhoNumber::create_par(2),
                    RhoNumber::create_par(3)
                ])
            ),
            (
                "nested",
                map_par(vec![
                    ("bool", RhoBoolean::create_par(true)),
                    ("null", RhoNil::create_par())
                ])
            )
        ])
    );
}

#[test]
fn test_value_to_par_empty_array() {
    let result = convert(Value::Array(vec![])).unwrap();
    assert_eq!(result, RhoList::create_par(vec![]));
}

#[test]
fn test_value_to_par_empty_object() {
    let result = convert(object(vec![])).unwrap();
    assert_eq!(result, RhoMap::create_par(vec![]));
}

#[test]
fn test_value_to_par_negative_number() {
    let result = convert(Value::from(-42)).unwrap();
    assert_eq!(result, RhoNumber::create_par(-42));
}

#[test]
fn test_value_to_par_zero() {
    let result = convert(Value::from(0)).unwrap();
    assert_eq!(result, RhoNumber::create_par(0));
}

#[test]
fn test_value_to_par_false_boolean() {
    let result = convert(Value::from(false)).unwrap();
    assert_eq!(result, RhoBoolean::create_par(false));
}

#[test]
fn test_value_to_par_empty_string() {
    let result = convert(Value::from("")).unwrap();
    assert_eq!(result, RhoString::create_par("".into()));
}

#[test]
fn test_value_to_par_unicode_string() {
    let result = convert(Value::from("Hello, 世界! 🌍")).unwrap();
    assert_eq!(result, RhoString::create_par("Hello, 世界! 🌍".into()));
}

#[test]
fn test_value_to_par_float_rejected() {
    let result = convert(Value::from(3.14));
    assert!(result.is_err(), "Floating-point numbers should be rejected");
    let err = result.unwrap_err();
    let err_msg = format!("{:?}", err);
    assert!(
        err_msg.contains("Floating-point") && err_msg.contains("not supported"),
        "Error should mention floating-point not supported, got: {}",
        err_msg
    );
}

#[test]
fn test_value_to_par_large_uint_rejected() {
    let large_uint = u64::MAX;
    let result = convert(Value::from(large_uint));
    assert!(
        result.is_err(),
        "Numbers exceeding i64::MAX should be rejected"
    );
    let err = result.unwrap_err();
    let err_msg = format!("{:?}", err);
    assert!(
        err_msg.contains("exceeds i64 range") || err_msg.contains("not supported"),
        "Error should mention range exceeded, got: {}",
        err_msg
    );
}

#[test]
fn test_value_to_par_min_i64() {
    let result = convert(Value::from(i64::MIN)).unwrap();
    assert_eq!(result, RhoNumber::create_par(i64::MIN));
}

#[test]
fn misfits_are_told_in_full() {
    let range = "Only integers in the range -9223372036854775808 to 9223372036854775807 are allowed.";
    assert_eq!(
        convert(Value::from(3.14)),
        Err(InterpreterError::SwiplError(format!(
            "Floating-point numbers are not supported. Got: 3.14. {}",
            range
        )))
    );
    assert_eq!(
        convert(Value::from(u64::MAX)),
        Err(InterpreterError::SwiplError(format!(
            "Number exceeds i64 range. Got: 18446744073709551615. {}",
            range
        )))
    );
}

#[test]
fn the_first_misfit_is_told() {
    let deep = Value::Array(vec![
        Value::from(1),
        object(vec![
            ("a", Value::from(9223372036854775808u64)),
            ("b", Value::from(1.5)),
        ]),
    ]);
    let message = format!("{:?}", convert(deep).unwrap_err());
    assert!(message.contains("9223372036854775808. Only"));
    assert!(!message.contains("1.5"));
}

#[test]
fn different_values_stay_different() {
    let values = vec![
        Json::Null,
        Json::Bool(false),
        Json::Number(JsonNumber::PosInt(0)),
        Json::Number(JsonNumber::NegInt(-1)),
        Json::String("0".to_string()),
        Json::Array(vec![]),
        Json::Array(vec![Json::Null]),
        Json::Object(vec![]),
        Json::Object(vec![("".to_string(), Json::Null)]),
    ];
    let pars: Vec<Par> = values
        .into_iter()
        .map(|v| value_to_par(v).unwrap())
        .collect();
    for i in 0..pars.len() {
        for j in 0..pars.len() {
            assert_eq!(pars[i] == pars[j], i == j);
        }
    }
}

#[test]
fn json_text_is_parsed() {
    assert_eq!(
        parse_json("{\"b\": [1, -2, 1.5, null], \"a\": \"x\"}"),
        Ok(Json::Object(vec![
            ("a".to_string(), Json::String("x".to_string())),
            (
                "b".to_string(),
                Json::Array(vec![
                    Json::Number(JsonNumber::PosInt(1)),
                    Json::Number(JsonNumber::NegInt(-2)),
                    Json::Number(JsonNumber::Float("1.5".to_string())),
                    Json::Null,
                ])
            ),
        ]))
    );
    assert_eq!(
        parse_json("[1,"),
        Err("EOF while parsing a value at line 1 column 3".to_string())
    );
}

#[test]
fn a_repeated_key_is_kept_once() {
    assert_eq!(
        parse_json("{\"k\": 1, \"k\": 2}"),
        Ok(Json::Object(vec![(
            "k".to_string(),
            Json::Number(JsonNumber::PosInt(2))
        )]))
    );
}
