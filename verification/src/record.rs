//! The two records of the transform, and how each is written as a
//! [`Value`] and read back from one.

use crate::value::{entries_of, lemma_record_view, Field, Kind, Value, ValueModel};
use vstd::prelude::*;

verus! {

/// What the transform takes: two pieces of text.
#[derive(Clone, Debug, PartialEq, Eq)]
pub struct InputData {
    pub key: String,
    pub value: String,
}

/// What the transform gives: a status and a message.
#[derive(Clone, Debug, PartialEq, Eq)]
pub struct OutputData {
    pub success: bool,
    pub message: String,
}

/// The content of an [`InputData`].
pub struct InputModel {
    pub key: Seq<char>,
    pub value: Seq<char>,
}

/// The content of an [`OutputData`].
pub struct OutputModel {
    pub success: bool,
    pub message: Seq<char>,
}

impl View for InputData {
    type V = InputModel;

    open spec fn view(&self) -> InputModel {
        InputModel { key: self.key@, value: self.value@ }
    }
}

impl View for OutputData {
    type V = OutputModel;

    open spec fn view(&self) -> OutputModel {
        OutputModel { success: self.success, message: self.message@ }
    }
}

/// One of the two fields that an input record must have.
#[derive(Clone, Copy, Debug, PartialEq, Eq, Structural)]
pub enum InputField {
    Key,
    Value,
}

/// Why a value could not be read as an [`InputData`].
#[derive(Clone, Copy, Debug, PartialEq, Eq, Structural)]
pub enum DecodeError {
    /// The value is not a record; it is of the given kind.
    NotARecord(Kind),
    /// The record has no field of that name.
    MissingField(InputField),
    /// The record's field of that name holds a value of the given kind, not text.
    NotText(InputField, Kind),
}

impl InputField {
    /// The field's name in a record.
    pub open spec fn name_spec(self) -> Seq<char> {
        match self {
            InputField::Key => "key"@,
            InputField::Value => "value"@,
        }
    }

    /// The field's name in a record.
    pub fn name(self) -> (name: &'static str)
        ensures
            name@ == self.name_spec(),
    {
        match self {
            InputField::Key => "key",
            InputField::Value => "value",
        }
    }
}

impl DecodeError {
    /// The diagnostic text of this error.
    pub open spec fn message_spec(self) -> Seq<char> {
        match self {
            DecodeError::NotARecord(found) => "invalid type: "@ + found.name_spec()
                + ", expected a record"@,
            DecodeError::MissingField(field) => "missing field `"@ + field.name_spec() + "`"@,
            DecodeError::NotText(field, found) => "invalid type for field `"@ + field.name_spec()
                + "`: "@ + found.name_spec() + ", expected text"@,
        }
    }

    /// The diagnostic text of this error.
    pub fn message(&self) -> (text: String)
        ensures
            text@ == self.message_spec(),
    {
        match self {
            DecodeError::NotARecord(found) => {
                let mut text = String::from_str("invalid type: ");
                text.append(found.name());
                text.append(", expected a record");
                text
            },
            DecodeError::MissingField(field) => {
                let mut text = String::from_str("missing field `");
                text.append(field.name());
                text.append("`");
                text
            },
            DecodeError::NotText(field, found) => {
                let mut text = String::from_str("invalid type for field `");
                text.append(field.name());
                text.append("`: ");
                text.append(found.name());
                text.append(", expected text");
                text
            },
        }
    }
}

/// The record that stands for an input: `key`, then `value`, both text.
pub open spec fn encode_input(input: InputModel) -> ValueModel {
    ValueModel::Record(
        seq![("key"@, ValueModel::Text(input.key)), ("value"@, ValueModel::Text(input.value))],
    )
}

/// The record that stands for an output: `success`, then `message`.
pub open spec fn encode_output(output: OutputModel) -> ValueModel {
    ValueModel::Record(
        seq![
            ("success"@, ValueModel::Bool(output.success)),
            ("message"@, ValueModel::Text(output.message)),
        ],
    )
}

/// What reading a value as an input gives.
///
/// Only a record can be read. Its `key` and `value` fields are looked at in
/// that order: the first of them that is there and is not text is reported;
/// if there is none, the first of them that is missing is reported; and if
/// both are there and are text, they make the input. Other fields are ignored.
pub open spec fn decode_input(v: ValueModel) -> Result<InputModel, DecodeError> {
    let key = v.entry("key"@);
    let value = v.entry("value"@);
    if !(v is Record) {
        Err(DecodeError::NotARecord(v.kind()))
    } else if key is Some && !(key->Some_0 is Text) {
        Err(DecodeError::NotText(InputField::Key, key->Some_0.kind()))
    } else if value is Some && !(value->Some_0 is Text) {
        Err(DecodeError::NotText(InputField::Value, value->Some_0.kind()))
    } else if key is None {
        Err(DecodeError::MissingField(InputField::Key))
    } else if value is None {
        Err(DecodeError::MissingField(InputField::Value))
    } else {
        Ok(InputModel { key: key->Some_0->Text_0, value: value->Some_0->Text_0 })
    }
}

/// The text of a field that may be there: `Ok(None)` where it is missing,
/// the kind of what it holds where that is not text.
fn text_of(found: Option<&Value>) -> (result: Result<Option<&String>, Kind>)
    ensures
        match found {
            None => result == Ok::<Option<&String>, Kind>(None),
            Some(v) => match v@ {
                ValueModel::Text(text) => result is Ok && result->Ok_0 is Some
                    && result->Ok_0->Some_0@ == text,
                other => result == Err::<Option<&String>, Kind>(other.kind()),
            },
        },
{
    match found {
        None => Ok(None),
        Some(v) => match v {
            Value::Text(text) => Ok(Some(text)),
            _ => Err(v.kind()),
        },
    }
}

impl InputData {
    /// Writes this input as a record.
    pub fn encode(&self) -> (v: Value)
        ensures
            v@ == encode_input(self@),
    {
        let mut fields: Vec<Field> = Vec::new();
        fields.push(Field { name: String::from_str("key"), value: Value::Text(self.key.clone()) });
        fields.push(
            Field { name: String::from_str("value"), value: Value::Text(self.value.clone()) },
        );
        proof {
            lemma_record_view(fields);
            assert(entries_of(fields@) =~= encode_input(self@)->Record_0);
        }
        Value::Record(fields)
    }

    /// Reads a value as an input.
    pub fn decode(v: &Value) -> (result: Result<InputData, DecodeError>)
        ensures
            match decode_input(v@) {
                Ok(input) => result is Ok && result->Ok_0@ == input,
                Err(e) => result is Err && result->Err_0 == e,
            },
    {
        match v {
            Value::Record(_) => {},
            _ => {
                return Err(DecodeError::NotARecord(v.kind()));
            },
        }
        let key = match text_of(v.field("key")) {
            Ok(text) => text,
            Err(kind) => {
                return Err(DecodeError::NotText(InputField::Key, kind));
            },
        };
        let value = match text_of(v.field("value")) {
            Ok(text) => text,
            Err(kind) => {
                return Err(DecodeError::NotText(InputField::Value, kind));
            },
        };
        match key {
            None => Err(DecodeError::MissingField(InputField::Key)),
            Some(key) => match value {
                None => Err(DecodeError::MissingField(InputField::Value)),
                Some(value) => Ok(InputData { key: key.clone(), value: value.clone() }),
            },
        }
    }
}

impl OutputData {
    /// Writes this output as a record.
    pub fn encode(&self) -> (v: Value)
        ensures
            v@ == encode_output(self@),
    {
        let mut fields: Vec<Field> = Vec::new();
        fields.push(Field { name: String::from_str("success"), value: Value::Bool(self.success) });
        fields.push(
            Field { name: String::from_str("message"), value: Value::Text(self.message.clone()) },
        );
        proof {
            lemma_record_view(fields);
            assert(entries_of(fields@) =~= encode_output(self@)->Record_0);
        }
        Value::Record(fields)
    }
}

} // verus!
