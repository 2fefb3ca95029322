//! Job arguments as JSON values.

use serde_json::Value as JsonValue;
use vstd::prelude::*;

verus! {

/// A JSON value of `serde_json`.
#[verifier::external_type_specification]
#[verifier::external_body]
pub struct ExJsonValue(serde_json::Value);

/// The items of `value` in order if it is an array.
pub uninterp spec fn json_array(value: serde_json::Value) -> Option<Seq<serde_json::Value>>;

/// The array that holds `items` in order.
pub uninterp spec fn json_array_value(items: Seq<serde_json::Value>) -> serde_json::Value;

/// The compact JSON text of `value`.
pub uninterp spec fn json_text(value: serde_json::Value) -> Seq<char>;

/// Whether `value` is `null`.
pub open spec fn is_json_null(value: JsonValue) -> bool {
    json_array(value) is None && json_text(value) == "null"@
}

/// `clone` of `serde_json::Value`, which the crate derives, returns the same value.
pub assume_specification[ <serde_json::Value as Clone>::clone ](value: &serde_json::Value) -> (r:
    serde_json::Value)
    ensures
        r == *value,
;

/// `serde_json::Value::as_array` returns the items of an array, and `None` for any other value.
#[verifier::external_body]
pub(crate) fn json_as_array(value: &JsonValue) -> (r: Option<&Vec<JsonValue>>)
    ensures
        match r {
            Some(items) => json_array(*value) == Some(items@),
            None => json_array(*value) is None,
        },
{
    value.as_array()
}

/// `serde_json::Value::Array` makes the array that holds `items`, a value fixed by them alone.
#[verifier::external_body]
pub(crate) fn json_array_of(items: Vec<JsonValue>) -> (r: JsonValue)
    ensures
        r == json_array_value(items@),
        json_array(r) == Some(items@),
{
    JsonValue::Array(items)
}

/// `serde_json::Value::Null` is no array, and its text is `null`.
#[verifier::external_body]
pub(crate) fn json_null() -> (r: JsonValue)
    ensures
        is_json_null(r),
{
    JsonValue::Null
}

/// `serde_json::to_string` writes a value as compact text. It can fail only where the type's own
/// `Serialize` fails or a map has keys that are no strings; neither occurs in a
/// `serde_json::Value`.
#[verifier::external_body]
pub(crate) fn json_to_string(value: &JsonValue) -> (r: Option<String>)
    ensures
        r is Some,
        r->0@ == json_text(*value),
{
    serde_json::to_string(value).ok()
}

/// Whether `stored` is what a job keeps for the arguments `given`: an array as it is, and any
/// other value as the one item of an array.
pub open spec fn stores_args(given: JsonValue, stored: JsonValue) -> bool {
    if json_array(given) is Some {
        stored == given
    } else {
        &&& stored == json_array_value(seq![given])
        &&& json_array(stored) == Some(seq![given])
    }
}

/// Whether `delivered` is what a worker gets of the stored arguments `args`.
///
/// A worker that disables coercion gets them as they are. Otherwise one that takes no arguments
/// gets `null`, and any other gets the single item of an array of one, or else the arguments as
/// they are.
pub open spec fn delivers_args(
    args: JsonValue,
    coercion_disabled: bool,
    expects_unit: bool,
    delivered: JsonValue,
) -> bool {
    if coercion_disabled {
        delivered == args
    } else if expects_unit {
        is_json_null(delivered)
    } else if json_array(args) is Some && json_array(args)->0.len() == 1 {
        delivered == json_array(args)->0[0]
    } else {
        delivered == args
    }
}

/// Wraps `args` in an array unless they are one.
pub fn wrap_args(args: JsonValue) -> (r: JsonValue)
    ensures
        stores_args(args, r),
{
    if json_as_array(&args).is_some() {
        args
    } else {
        let items: Vec<JsonValue> = vec![args];
        assert(items@ =~= seq![args]);
        json_array_of(items)
    }
}

/// Picks what a worker gets of the stored arguments `args`.
pub fn coerce_args(args: JsonValue, coercion_disabled: bool, expects_unit: bool) -> (r: JsonValue)
    ensures
        delivers_args(args, coercion_disabled, expects_unit, r),
{
    if coercion_disabled {
        return args;
    }
    // A worker that takes `()` works with any arguments.
    if expects_unit {
        return json_null();
    }
    // An array of one is most likely a single argument; more are a tuple.
    let single: Option<JsonValue> = match json_as_array(&args) {
        Some(items) => if items.len() == 1 {
            Some(items[0].clone())
        } else {
            None
        },
        None => None,
    };
    match single {
        Some(item) => item,
        None => args,
    }
}

/// A single argument that is no array comes out of a job as it went in.
pub proof fn law_single_argument_is_delivered(
    given: JsonValue,
    stored: JsonValue,
    delivered: JsonValue,
)
    requires
        json_array(given) is None,
        stores_args(given, stored),
        delivers_args(stored, false, false, delivered),
    ensures
        delivered == given,
{
}

/// Several arguments, or none, come out of a job as they went in, coerced or not.
pub proof fn law_multiple_arguments_are_delivered(
    given: JsonValue,
    stored: JsonValue,
    coercion_disabled: bool,
    delivered: JsonValue,
)
    requires
        json_array(given) is Some,
        json_array(given)->0.len() != 1,
        stores_args(given, stored),
        delivers_args(stored, coercion_disabled, false, delivered),
    ensures
        delivered == given,
{
}

/// A worker that disables coercion gets every array as it was given, an array of one as well.
pub proof fn law_uncoerced_array_is_delivered(
    given: JsonValue,
    stored: JsonValue,
    expects_unit: bool,
    delivered: JsonValue,
)
    requires
        json_array(given) is Some,
        stores_args(given, stored),
        delivers_args(stored, true, expects_unit, delivered),
    ensures
        delivered == given,
{
}

/// What a job stores is fixed by the arguments it is given.
pub proof fn law_stored_arguments_are_fixed(given: JsonValue, a: JsonValue, b: JsonValue)
    requires
        stores_args(given, a),
        stores_args(given, b),
    ensures
        a == b,
{
}

/// A job always stores an array.
pub proof fn law_stored_arguments_are_an_array(given: JsonValue, stored: JsonValue)
    requires
        stores_args(given, stored),
    ensures
        json_array(stored) is Some,
{
}

/// What is stored is the given array, or else the array whose one item is the given value.
pub proof fn law_arguments_are_stored_as_an_array(given: JsonValue, stored: JsonValue)
    requires
        call_ensures(wrap_args, (given,), stored),
    ensures
        json_array(given) is Some ==> stored == given,
        json_array(given) is None ==> stored == json_array_value(seq![given]),
        json_array(given) is None ==> json_array(stored) == Some(seq![given]),
{
}

/// An array of one item is unwrapped to that item, whatever the item is, for a worker that expects
/// arguments and lets them be coerced.
pub proof fn law_single_item_is_unwrapped(args: JsonValue, item: JsonValue, delivered: JsonValue)
    requires
        json_array(args) == Some(seq![item]),
        call_ensures(coerce_args, (args, false, false), delivered),
    ensures
        delivered == item,
{
}

/// Everything but an array of one item is delivered as it is to a worker that expects arguments.
pub proof fn law_other_arguments_are_kept(args: JsonValue, delivered: JsonValue)
    requires
        json_array(args) is Some ==> json_array(args)->0.len() != 1,
        call_ensures(coerce_args, (args, false, false), delivered),
    ensures
        delivered == args,
{
}

/// A worker that disables coercion gets all arguments as they are, whatever it expects.
pub proof fn law_uncoerced_arguments_are_kept(
    args: JsonValue,
    expects_unit: bool,
    delivered: JsonValue,
)
    requires
        call_ensures(coerce_args, (args, true, expects_unit), delivered),
    ensures
        delivered == args,
{
}

/// A worker that takes no arguments gets `null`, whatever is stored, unless it disables coercion.
pub proof fn law_unit_worker_gets_null(args: JsonValue, delivered: JsonValue)
    requires
        call_ensures(coerce_args, (args, false, true), delivered),
    ensures
        json_array(delivered) is None,
        json_text(delivered) == "null"@,
{
}

} // verus!
