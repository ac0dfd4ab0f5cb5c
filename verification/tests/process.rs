use record_transform::{
    process_data, transform, DecodeError, Field, InputData, InputField, Kind, OutputData, Value,
};

fn text(s: &str) -> Value {
    Value::Text(s.to_string())
}

fn field(name: &str, value: Value) -> Field {
    Field { name: name.to_string(), value }
}

fn record(fields: Vec<Field>) -> Value {
    Value::Record(fields)
}

fn input_record(key: &str, value: &str) -> Value {
    record(vec![field("key", text(key)), field("value", text(value))])
}

fn output_record(success: bool, message: &str) -> Value {
    record(vec![field("success", Value::Bool(success)), field("message", text(message))])
}

#[test]
fn foo_bar_gives_formatted_message() {
    let out = process_data(input_record("foo", "bar"));
    assert_eq!(out, Ok(output_record(true, "Key: foo, Value: bar")));
}

#[test]
fn empty_texts_give_bare_labels() {
    let out = process_data(input_record("", ""));
    assert_eq!(out, Ok(output_record(true, "Key: , Value: ")));
}

#[test]
fn missing_value_field_is_a_decode_error() {
    let out = process_data(record(vec![field("key", text("foo"))]));
    assert_eq!(out, Err(DecodeError::MissingField(InputField::Value)));
}

#[test]
fn missing_key_field_is_a_decode_error() {
    let out = process_data(record(vec![field("value", text("bar"))]));
    assert_eq!(out, Err(DecodeError::MissingField(InputField::Key)));
}

#[test]
fn empty_record_reports_key_first() {
    assert_eq!(process_data(record(vec![])), Err(DecodeError::MissingField(InputField::Key)));
}

#[test]
fn numeric_key_is_a_decode_error() {
    let out = process_data(record(vec![
        field("key", Value::Number("5".to_string())),
        field("value", text("bar")),
    ]));
    assert_eq!(out, Err(DecodeError::NotText(InputField::Key, Kind::Number)));
}

#[test]
fn non_text_value_is_a_decode_error() {
    let out = process_data(record(vec![field("key", text("k")), field("value", Value::Bool(true))]));
    assert_eq!(out, Err(DecodeError::NotText(InputField::Value, Kind::Bool)));
    let out = process_data(record(vec![field("key", text("k")), field("value", Value::Null)]));
    assert_eq!(out, Err(DecodeError::NotText(InputField::Value, Kind::Null)));
    let out = process_data(record(vec![field("key", text("k")), field("value", record(vec![]))]));
    assert_eq!(out, Err(DecodeError::NotText(InputField::Value, Kind::Record)));
}

#[test]
fn wrong_type_is_reported_before_a_missing_field() {
    let out = process_data(record(vec![field("value", Value::Number("1".to_string()))]));
    assert_eq!(out, Err(DecodeError::NotText(InputField::Value, Kind::Number)));
    let out = process_data(record(vec![
        field("value", Value::Number("1".to_string())),
        field("key", Value::Bool(false)),
    ]));
    assert_eq!(out, Err(DecodeError::NotText(InputField::Key, Kind::Bool)));
}

#[test]
fn values_that_are_no_record_are_rejected() {
    assert_eq!(process_data(Value::Null), Err(DecodeError::NotARecord(Kind::Null)));
    assert_eq!(process_data(Value::Bool(true)), Err(DecodeError::NotARecord(Kind::Bool)));
    assert_eq!(
        process_data(Value::Number("3.5".to_string())),
        Err(DecodeError::NotARecord(Kind::Number))
    );
    assert_eq!(process_data(text("key")), Err(DecodeError::NotARecord(Kind::Text)));
}

#[test]
fn other_fields_are_ignored() {
    let out = process_data(record(vec![
        field("extra", Value::Number("7".to_string())),
        field("value", text("v")),
        field("note", Value::Null),
        field("key", text("k")),
    ]));
    assert_eq!(out, Ok(output_record(true, "Key: k, Value: v")));
}

#[test]
fn first_field_of_a_name_is_the_one_read() {
    let out = process_data(record(vec![
        field("key", text("first")),
        field("key", Value::Number("2".to_string())),
        field("value", text("v")),
    ]));
    assert_eq!(out, Ok(output_record(true, "Key: first, Value: v")));
}

#[test]
fn texts_are_substituted_verbatim() {
    let out = process_data(input_record("a, Value: b", "{key} \"q\" \n\u{e9}"));
    assert_eq!(out, Ok(output_record(true, "Key: a, Value: b, Value: {key} \"q\" \n\u{e9}")));
}

#[test]
fn same_input_gives_same_output() {
    let input = input_record("foo", "bar");
    let first = process_data(input.clone());
    let second = process_data(input);
    assert_eq!(first, second);
    let bad = record(vec![field("key", Value::Null)]);
    assert_eq!(process_data(bad.clone()), process_data(bad));
}

#[test]
fn transform_builds_the_output() {
    let input = InputData { key: "foo".to_string(), value: "bar".to_string() };
    let out = transform(&input);
    assert_eq!(out, OutputData { success: true, message: "Key: foo, Value: bar".to_string() });
}

#[test]
fn input_round_trips_through_a_record() {
    let input = InputData { key: "k\u{1F600}".to_string(), value: "".to_string() };
    let encoded = input.encode();
    assert_eq!(encoded, input_record("k\u{1F600}", ""));
    let decoded = InputData::decode(&encoded);
    assert_eq!(decoded, Ok(input.clone()));
    assert_eq!(decoded.unwrap().encode(), encoded);
}

#[test]
fn output_is_encoded_field_by_field() {
    let out = OutputData { success: false, message: "m".to_string() };
    assert_eq!(out.encode(), output_record(false, "m"));
}

#[test]
fn decode_errors_have_diagnostic_text() {
    assert_eq!(DecodeError::MissingField(InputField::Key).message(), "missing field `key`");
    assert_eq!(DecodeError::MissingField(InputField::Value).message(), "missing field `value`");
    assert_eq!(
        DecodeError::NotText(InputField::Key, Kind::Number).message(),
        "invalid type for field `key`: number, expected text"
    );
    assert_eq!(
        DecodeError::NotARecord(Kind::Null).message(),
        "invalid type: null, expected a record"
    );
}

#[test]
fn kinds_and_their_names() {
    assert_eq!(Value::Null.kind(), Kind::Null);
    assert_eq!(Value::Bool(false).kind(), Kind::Bool);
    assert_eq!(Value::Number("0".to_string()).kind(), Kind::Number);
    assert_eq!(text("t").kind(), Kind::Text);
    assert_eq!(record(vec![]).kind(), Kind::Record);
    assert_eq!(Kind::Null.name(), "null");
    assert_eq!(Kind::Bool.name(), "boolean");
    assert_eq!(Kind::Number.name(), "number");
    assert_eq!(Kind::Text.name(), "text");
    assert_eq!(Kind::Record.name(), "record");
    assert_eq!(InputField::Key.name(), "key");
    assert_eq!(InputField::Value.name(), "value");
}

#[test]
fn field_lookup_finds_the_first_match() {
    let r = record(vec![field("a", text("1")), field("b", Value::Null), field("a", text("2"))]);
    assert_eq!(r.field("a"), Some(&text("1")));
    assert_eq!(r.field("b"), Some(&Value::Null));
    assert_eq!(r.field("c"), None);
    assert_eq!(text("a").field("a"), None);
}

#[test]
fn clone_copies_nested_records() {
    let inner = record(vec![field("x", Value::Number("1".to_string()))]);
    let outer = record(vec![field("in", inner), field("t", text("t")), field("n", Value::Null)]);
    assert_eq!(outer.clone(), outer);
    let f = field("k", Value::Bool(true));
    assert_eq!(f.clone(), f);
}
