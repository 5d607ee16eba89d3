//! Reading the argument bundle of a request. A bundle is a JSON value of the
//! `serde_json` crate; the dispatcher looks members up by key, asks whether
//! they are given, and reads them as text, flag or count.

use vstd::prelude::*;
use serde_json::Value;
use crate::text::opt_str_text;

verus! {

/// `serde_json::Value`, a JSON value. The proofs see it only through what
/// the readers below say of it.
#[verifier::external_type_specification]
#[verifier::external_body]
pub struct ExValue(serde_json::Value);

/// The member of `value` under `key`: what indexing a `serde_json::Value`
/// with a string gives. The binding gives the null value where `value` is
/// no object or has no such member.
pub uninterp spec fn json_member(value: Value, key: Seq<char>) -> Value;

/// The text that `serde_json::Value::as_str` reads from `value`, if any.
pub uninterp spec fn json_text(value: Value) -> Option<Seq<char>>;

/// The flag that `serde_json::Value::as_bool` reads from `value`, if any.
pub uninterp spec fn json_flag(value: Value) -> Option<bool>;

/// The count that `serde_json::Value::as_u64` reads from `value`, if any.
pub uninterp spec fn json_count(value: Value) -> Option<u64>;

/// What `serde_json::Value::is_null` says of `value`.
pub uninterp spec fn json_null(value: Value) -> bool;

/// Indexes a `serde_json::Value` with a string key. The call never fails;
/// its result is a function of the value and the key alone.
#[verifier::external_body]
pub(crate) fn member<'a>(value: &'a Value, key: &str) -> (found: &'a Value)
    ensures
        *found == json_member(*value, key@),
{
    &value[key]
}

/// Calls `serde_json::Value::as_str`; the result is a function of the value
/// alone.
#[verifier::external_body]
pub(crate) fn as_text<'a>(value: &'a Value) -> (text: Option<&'a str>)
    ensures
        opt_str_text(text) == json_text(*value),
{
    value.as_str()
}

/// Calls `serde_json::Value::as_bool`; the result is a function of the value
/// alone.
#[verifier::external_body]
pub(crate) fn as_flag(value: &Value) -> (flag: Option<bool>)
    ensures
        flag == json_flag(*value),
{
    value.as_bool()
}

/// Calls `serde_json::Value::as_u64`; the result is a function of the value
/// alone.
#[verifier::external_body]
pub(crate) fn as_count(value: &Value) -> (count: Option<u64>)
    ensures
        count == json_count(*value),
{
    value.as_u64()
}

/// Calls `serde_json::Value::is_null`; the result is a function of the value
/// alone.
#[verifier::external_body]
pub(crate) fn is_null(value: &Value) -> (null: bool)
    ensures
        null == json_null(*value),
{
    value.is_null()
}

/// The bundle gives a member under `key`: the member is there and not null.
pub open spec fn given(bundle: Value, key: Seq<char>) -> bool {
    !json_null(json_member(bundle, key))
}

/// Whether the bundle gives a member under `key`.
pub fn is_given(bundle: &Value, key: &str) -> (yes: bool)
    ensures
        yes == given(*bundle, key@),
{
    !is_null(member(bundle, key))
}

/// The text under `key` in a bundle, if the member is a text.
pub open spec fn text_under(bundle: Value, key: Seq<char>) -> Option<Seq<char>> {
    json_text(json_member(bundle, key))
}

/// The flag under `key` in a bundle, if the member is a flag.
pub open spec fn flag_under(bundle: Value, key: Seq<char>) -> Option<bool> {
    json_flag(json_member(bundle, key))
}

/// The count under `key` in a bundle, if the member is a count.
pub open spec fn count_under(bundle: Value, key: Seq<char>) -> Option<u64> {
    json_count(json_member(bundle, key))
}

/// Reads the text under `key`.
pub fn text_arg<'a>(bundle: &'a Value, key: &str) -> (text: Option<&'a str>)
    ensures
        opt_str_text(text) == text_under(*bundle, key@),
{
    as_text(member(bundle, key))
}

/// Reads the text under `key`; a member that is missing or no text reads as
/// the empty text.
pub fn text_arg_or_empty<'a>(bundle: &'a Value, key: &str) -> (text: &'a str)
    ensures
        text@ == match text_under(*bundle, key@) {
            Some(t) => t,
            None => Seq::<char>::empty(),
        },
{
    match text_arg(bundle, key) {
        Some(t) => t,
        None => {
            proof {
                reveal_strlit("");
            }
            assert(""@ =~= Seq::<char>::empty());
            ""
        },
    }
}

/// Reads the flag under `key`; a member that is missing or no flag reads as
/// false.
pub fn flag_arg(bundle: &Value, key: &str) -> (flag: bool)
    ensures
        flag == (flag_under(*bundle, key@) == Some(true)),
{
    match as_flag(member(bundle, key)) {
        Some(flag) => flag,
        None => false,
    }
}

} // verus!
