//! What holds of the transform on every input.

use crate::record::{decode_input, encode_input, encode_output, DecodeError, InputModel, OutputModel};
use crate::transform::{is_outcome, process_spec};
use crate::value::{lookup, Value, ValueModel};
use vstd::prelude::*;

verus! {

/// Whether a value is a record that holds text under `key` and under `value`.
pub open spec fn is_well_shaped(v: ValueModel) -> bool {
    &&& v is Record
    &&& v.entry("key"@) is Some && v.entry("key"@)->Some_0 is Text
    &&& v.entry("value"@) is Some && v.entry("value"@)->Some_0 is Text
}

/// A field is missing exactly when no entry has its name; where some entry
/// has it, the first such entry is the one that is read.
pub proof fn law_lookup_is_first_match(entries: Seq<(Seq<char>, ValueModel)>, name: Seq<char>)
    ensures
        lookup(entries, name) is None <==> forall|i: int|
            0 <= i < entries.len() ==> (#[trigger] entries[i]).0 != name,
        lookup(entries, name) is Some ==> exists|i: int|
            0 <= i < entries.len() && (#[trigger] entries[i]).0 == name && entries[i].1 == lookup(
                entries,
                name,
            )->Some_0 && forall|j: int| 0 <= j < i ==> (#[trigger] entries[j]).0 != name,
    decreases entries.len(),
{
    if entries.len() == 0 {
    } else if entries[0].0 == name {
        assert(entries[0].0 == name && entries[0].1 == lookup(entries, name)->Some_0);
    } else {
        let rest = entries.drop_first();
        law_lookup_is_first_match(rest, name);
        assert(forall|i: int| 0 <= i < rest.len() ==> rest[i] == entries[i + 1]);
        if lookup(rest, name) is Some {
            let i = choose|i: int|
                0 <= i < rest.len() && (#[trigger] rest[i]).0 == name && rest[i].1 == lookup(
                    rest,
                    name,
                )->Some_0 && forall|j: int| 0 <= j < i ==> (#[trigger] rest[j]).0 != name;
            assert(entries[i + 1].0 == name);
            assert forall|j: int| 0 <= j < i + 1 implies (#[trigger] entries[j]).0 != name by {
                if j > 0 {
                    assert(rest[j - 1] == entries[j]);
                }
            }
        } else {
            assert forall|i: int| 0 <= i < entries.len() implies (#[trigger] entries[i]).0
                != name by {
                if i > 0 {
                    assert(rest[i - 1] == entries[i]);
                }
            }
        }
    }
}

/// A record that holds the text `key` under `key` and the text `value` under
/// `value` is transformed, whatever else it holds: the status is `true` and
/// the message is `Key: `, the key, `, Value: ` and the value.
pub proof fn law_valid_input_is_transformed(v: ValueModel, key: Seq<char>, value: Seq<char>)
    requires
        v is Record,
        v.entry("key"@) == Some(ValueModel::Text(key)),
        v.entry("value"@) == Some(ValueModel::Text(value)),
    ensures
        process_spec(v) == Ok::<ValueModel, DecodeError>(
            encode_output(
                OutputModel { success: true, message: "Key: "@ + key + ", Value: "@ + value },
            ),
        ),
{
}

/// Reading back an input that was written as a record gives that input, and
/// writing what was read gives that record again.
pub proof fn law_input_round_trip(input: InputModel)
    ensures
        decode_input(encode_input(input)) == Ok::<InputModel, DecodeError>(input),
        encode_input(decode_input(encode_input(input))->Ok_0) == encode_input(input),
{
    reveal_strlit("key");
    reveal_strlit("value");
    let entries = encode_input(input)->Record_0;
    assert("key"@.len() != "value"@.len());
    assert(lookup(entries, "key"@) == Some(ValueModel::Text(input.key)));
    assert(lookup(entries, "value"@) == Some(ValueModel::Text(input.value))) by {
        reveal_with_fuel(lookup, 2);
        assert(entries.drop_first()[0] == entries[1]);
    }
}

/// An input that was written as a record is transformed.
pub proof fn law_encoded_input_is_transformed(input: InputModel)
    ensures
        process_spec(encode_input(input)) == Ok::<ValueModel, DecodeError>(
            encode_output(
                OutputModel {
                    success: true,
                    message: "Key: "@ + input.key + ", Value: "@ + input.value,
                },
            ),
        ),
{
    law_input_round_trip(input);
}

/// A value that is no record, or lacks `key` or `value`, or holds something
/// other than text under one of them, is rejected.
pub proof fn law_malformed_input_is_rejected(v: ValueModel)
    requires
        !(v is Record) || v.entry("key"@) is None || v.entry("value"@) is None || !(v.entry(
            "key"@,
        )->Some_0 is Text) || !(v.entry("value"@)->Some_0 is Text),
    ensures
        process_spec(v) is Err,
{
}

/// The transform succeeds on the well-shaped values and on no others.
pub proof fn law_success_iff_well_shaped(v: ValueModel)
    ensures
        process_spec(v) is Ok <==> is_well_shaped(v),
{
}

/// The transform has no state: on inputs of equal content, any two calls
/// agree on success, on the content of what they return, and on the reason
/// where they fail.
pub proof fn law_process_is_deterministic(
    first: Value,
    second: Value,
    first_result: Result<Value, DecodeError>,
    second_result: Result<Value, DecodeError>,
)
    requires
        first@ == second@,
        is_outcome(first@, first_result),
        is_outcome(second@, second_result),
    ensures
        first_result is Ok <==> second_result is Ok,
        first_result is Ok ==> first_result->Ok_0@ == second_result->Ok_0@,
        first_result is Err ==> first_result->Err_0 == second_result->Err_0,
{
}

} // verus!
