use evaljs::marshal::{
    decimal_text, to_host_args, to_host_reply, to_script, unsupported_text, MarshalError,
};
use evaljs::value::{HostValue, ScriptValue};

fn s(text: &str) -> String {
    text.to_string()
}

#[test]
fn host_scalars_map_to_their_script_kinds() {
    assert_eq!(to_script(&HostValue::Null), Ok(ScriptValue::Null));
    assert_eq!(to_script(&HostValue::NoReply), Ok(ScriptValue::Null));
    assert_eq!(to_script(&HostValue::Bool(true)), Ok(ScriptValue::Bool(true)));
    assert_eq!(to_script(&HostValue::Bool(false)), Ok(ScriptValue::Bool(false)));
    assert_eq!(to_script(&HostValue::Integer(-7)), Ok(ScriptValue::Int(-7)));
    assert_eq!(to_script(&HostValue::Float(s("1.5"))), Ok(ScriptValue::Float(s("1.5"))));
    assert_eq!(to_script(&HostValue::SimpleString(s("OK"))), Ok(ScriptValue::String(s("OK"))));
    assert_eq!(to_script(&HostValue::BulkString(s("v"))), Ok(ScriptValue::String(s("v"))));
    assert_eq!(to_script(&HostValue::Unsupported), Ok(ScriptValue::Null));
}

#[test]
fn host_error_is_thrown_with_its_message() {
    assert_eq!(to_script(&HostValue::Error(s("ERR boom"))), Err(s("ERR boom")));
}

#[test]
fn host_arrays_map_recursively() {
    let host = HostValue::Array(vec![
        HostValue::Integer(1),
        HostValue::Array(vec![HostValue::SimpleString(s("a")), HostValue::Null]),
        HostValue::Array(vec![]),
    ]);
    let script = ScriptValue::Array(vec![
        ScriptValue::Int(1),
        ScriptValue::Array(vec![ScriptValue::String(s("a")), ScriptValue::Null]),
        ScriptValue::Array(vec![]),
    ]);
    assert_eq!(to_script(&host), Ok(script));
}

#[test]
fn first_error_in_an_array_is_the_one_thrown() {
    let host = HostValue::Array(vec![
        HostValue::Integer(1),
        HostValue::Array(vec![HostValue::Error(s("inner"))]),
        HostValue::Error(s("outer")),
    ]);
    assert_eq!(to_script(&host), Err(s("inner")));
}

#[test]
fn script_values_map_to_their_host_kinds() {
    assert_eq!(to_host_reply(&ScriptValue::Null), HostValue::Null);
    assert_eq!(to_host_reply(&ScriptValue::Undefined), HostValue::Null);
    assert_eq!(to_host_reply(&ScriptValue::Bool(true)), HostValue::Bool(true));
    assert_eq!(to_host_reply(&ScriptValue::Int(4)), HostValue::Integer(4));
    assert_eq!(to_host_reply(&ScriptValue::Float(s("0.5"))), HostValue::Float(s("0.5")));
    assert_eq!(to_host_reply(&ScriptValue::String(s("x"))), HostValue::BulkString(s("x")));
    assert_eq!(to_host_reply(&ScriptValue::Unsupported), HostValue::Unsupported);
    assert_eq!(unsupported_text(), "unsupported type");
}

#[test]
fn script_arrays_map_recursively() {
    let script = ScriptValue::Array(vec![
        ScriptValue::Undefined,
        ScriptValue::Array(vec![ScriptValue::Int(2), ScriptValue::Unsupported]),
    ]);
    let host = HostValue::Array(vec![
        HostValue::Null,
        HostValue::Array(vec![HostValue::Integer(2), HostValue::Unsupported]),
    ]);
    assert_eq!(to_host_reply(&script), host);
}

#[test]
fn array_of_scalars_round_trips() {
    let items = vec![
        HostValue::Null,
        HostValue::Bool(false),
        HostValue::Integer(i64::MAX),
        HostValue::Integer(i64::MIN),
        HostValue::Float(s("-0.25")),
        HostValue::BulkString(s("héllo")),
        HostValue::BulkString(s("")),
    ];
    let expected = vec![
        HostValue::Null,
        HostValue::Bool(false),
        HostValue::Integer(i64::MAX),
        HostValue::Integer(i64::MIN),
        HostValue::Float(s("-0.25")),
        HostValue::BulkString(s("héllo")),
        HostValue::BulkString(s("")),
    ];
    let script = to_script(&HostValue::Array(items)).unwrap();
    assert_eq!(to_host_reply(&script), HostValue::Array(expected));
}

#[test]
fn simple_string_comes_back_as_bulk_string() {
    let script = to_script(&HostValue::SimpleString(s("OK"))).unwrap();
    assert_eq!(to_host_reply(&script), HostValue::BulkString(s("OK")));
}

#[test]
fn decimal_text_of_integers() {
    assert_eq!(decimal_text(0), "0");
    assert_eq!(decimal_text(7), "7");
    assert_eq!(decimal_text(10), "10");
    assert_eq!(decimal_text(-1), "-1");
    assert_eq!(decimal_text(1234567890), "1234567890");
    assert_eq!(decimal_text(i64::MAX), "9223372036854775807");
    assert_eq!(decimal_text(i64::MIN), "-9223372036854775808");
}

#[test]
fn host_args_are_the_texts_of_strings_and_numbers() {
    let args = vec![
        ScriptValue::String(s("SET")),
        ScriptValue::String(s("key")),
        ScriptValue::Int(-42),
        ScriptValue::Float(s("2.5")),
    ];
    assert_eq!(to_host_args(&args), Ok(vec![s("SET"), s("key"), s("-42"), s("2.5")]));
    assert_eq!(to_host_args(&vec![]), Ok(vec![]));
}

#[test]
fn first_argument_without_text_is_reported() {
    let args = vec![
        ScriptValue::String(s("SET")),
        ScriptValue::Array(vec![]),
        ScriptValue::Null,
    ];
    assert_eq!(to_host_args(&args), Err(MarshalError::NotText { index: 1 }));
    for (value, index) in [
        (ScriptValue::Null, 0usize),
        (ScriptValue::Undefined, 0),
        (ScriptValue::Bool(true), 0),
        (ScriptValue::Unsupported, 0),
    ] {
        assert_eq!(to_host_args(&vec![value]), Err(MarshalError::NotText { index }));
    }
}

#[test]
fn nested_arrays_of_scalars_round_trip() {
    let make = || {
        HostValue::Array(vec![
            HostValue::Array(vec![HostValue::Integer(1), HostValue::Array(vec![])]),
            HostValue::BulkString(s("x")),
            HostValue::Array(vec![HostValue::Array(vec![HostValue::Null, HostValue::Bool(true)])]),
        ])
    };
    let script = to_script(&make()).unwrap();
    assert_eq!(to_host_reply(&script), make());
}

#[test]
fn values_outside_the_round_trip_come_back_changed() {
    let script = to_script(&HostValue::NoReply).unwrap();
    assert_eq!(to_host_reply(&script), HostValue::Null);
    let script = to_script(&HostValue::Unsupported).unwrap();
    assert_eq!(to_host_reply(&script), HostValue::Null);
}
