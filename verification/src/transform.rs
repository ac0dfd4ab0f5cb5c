//! The transform itself: from an input to its output, and the same from
//! value to value.

use crate::record::{
    decode_input, encode_output, DecodeError, InputData, InputModel, OutputData, OutputModel,
};
use crate::value::{Value, ValueModel};
use vstd::prelude::*;

verus! {

/// The message for an input: both texts as they are, each behind its label.
pub open spec fn message_for(input: InputModel) -> Seq<char> {
    "Key: "@ + input.key + ", Value: "@ + input.value
}

/// The output for an input. Its status is always `true`.
pub open spec fn output_for(input: InputModel) -> OutputModel {
    OutputModel { success: true, message: message_for(input) }
}

/// What the transform makes of a value: the encoded output where the value
/// reads as an input, and the reason where it does not.
pub open spec fn process_spec(v: ValueModel) -> Result<ValueModel, DecodeError> {
    match decode_input(v) {
        Ok(input) => Ok(encode_output(output_for(input))),
        Err(e) => Err(e),
    }
}

/// Whether `result` is what the transform owes for a value with content `v`.
pub open spec fn is_outcome(v: ValueModel, result: Result<Value, DecodeError>) -> bool {
    match process_spec(v) {
        Ok(encoded) => result is Ok && result->Ok_0@ == encoded,
        Err(e) => result is Err && result->Err_0 == e,
    }
}

/// Derives the output from an input.
pub fn transform(input: &InputData) -> (output: OutputData)
    ensures
        output@ == output_for(input@),
{
    let mut message = String::from_str("Key: ");
    message.append(input.key.as_str());
    message.append(", Value: ");
    message.append(input.value.as_str());
    OutputData { success: true, message }
}

/// Reads `input` as a record with the text fields `key` and `value`, and
/// returns the record that holds the status and the message for it.
///
/// Fails exactly where `input` does not read as such a record, with the
/// reason; nothing else can fail.
pub fn process_data(input: Value) -> (result: Result<Value, DecodeError>)
    ensures
        is_outcome(input@, result),
{
    match InputData::decode(&input) {
        Ok(input_data) => Ok(transform(&input_data).encode()),
        Err(e) => Err(e),
    }
}

} // verus!
