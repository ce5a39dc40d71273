//! The boundary to `serde_json`: the JSON value type and the few
//! operations on it that the runner needs. Nothing here is proved; each
//! contract restates what `serde_json` documents.

use serde_json::Value;
use vstd::prelude::*;

verus! {

/// `serde_json::Value`, a JSON value. It is opaque here: all that is known
/// of one is what the contracts below say.
#[verifier::external_type_specification]
#[verifier::external_body]
pub struct ExValue(Value);

/// What `Value::get` returns for a string key: the member of the JSON object
/// `value` stored under `key`, or `None` if `value` is not an object or has
/// no such member.
pub uninterp spec fn json_member(value: Value, key: Seq<char>) -> Option<Value>;

/// What `Value::as_i64` returns: the integer that `value` holds, if it is a
/// JSON number that is an integer in the range of `i64`.
pub uninterp spec fn json_as_i64(value: Value) -> Option<i64>;

/// `serde_json::Value`'s `Clone`, which `derive` wrote: the copy is the same
/// JSON value as the one it was made from.
pub assume_specification[ <Value as Clone>::clone ](value: &Value) -> (copy: Value)
    ensures
        copy == *value,
;

/// What `Value::from` returns for an `i64`: the JSON number that holds
/// `number`.
pub uninterp spec fn json_from_i64(number: i64) -> Value;

/// Calls `serde_json::Value::get` with a string key. The contract names the
/// result: it is the member that `json_member` denotes.
#[verifier::external_body]
pub(crate) fn member<'a>(value: &'a Value, key: &str) -> (found: Option<&'a Value>)
    ensures
        match found {
            Some(inner) => json_member(*value, key@) == Some(*inner),
            None => json_member(*value, key@) is None,
        },
{
    value.get(key)
}

/// Calls `serde_json::Value::as_i64`. The contract names the result.
#[verifier::external_body]
pub(crate) fn as_i64(value: &Value) -> (number: Option<i64>)
    ensures
        number == json_as_i64(*value),
{
    value.as_i64()
}

/// Calls `serde_json`'s `From<i64> for Value`, which builds a JSON number.
/// The contract names the result.
#[verifier::external_body]
pub(crate) fn from_i64(number: i64) -> (value: Value)
    ensures
        value == json_from_i64(number),
{
    Value::from(number)
}

} // verus!
