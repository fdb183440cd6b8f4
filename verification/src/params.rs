//! Reading the named arguments of an action.

use crate::ast::{Action, ActionModel};
use crate::value::{get_entry, lookup, JsonModel, Value};
use vstd::prelude::*;

verus! {

/// The argument of an action under `key`.
pub open spec fn param(a: ActionModel, key: Seq<char>) -> Option<JsonModel> {
    match a.params {
        Some(params) => lookup(params, key),
        None => None,
    }
}

/// The text of the argument under `key`, where that argument is a string.
pub open spec fn param_text(a: ActionModel, key: Seq<char>) -> Option<Seq<char>> {
    match param(a, key) {
        Some(JsonModel::String(s)) => Some(s),
        _ => None,
    }
}

/// The text of the argument under `key`, or the action's target where there
/// is no such text.
pub open spec fn text_or_target(a: ActionModel, key: Seq<char>) -> Seq<char> {
    match param_text(a, key) {
        Some(s) => s,
        None => a.target,
    }
}

/// The text of the argument under `key`, or `fallback` where there is no
/// such text.
pub open spec fn text_or(a: ActionModel, key: Seq<char>, fallback: Seq<char>) -> Seq<char> {
    match param_text(a, key) {
        Some(s) => s,
        None => fallback,
    }
}

/// The signed integer under `key`, or `fallback` where there is none.
pub open spec fn integer_or(a: ActionModel, key: Seq<char>, fallback: i64) -> i64 {
    match param(a, key) {
        Some(v) => match crate::value::integer_of(v) {
            Some(n) => n,
            None => fallback,
        },
        None => fallback,
    }
}

/// The argument of an action under `key`.
pub fn get_param<'a>(action: &'a Action, key: &str) -> (r: Option<&'a Value>)
    ensures
        match r {
            Some(v) => param(action@, key@) == Some(v@),
            None => param(action@, key@) is None,
        },
{
    match &action.params {
        Some(params) => get_entry(params, key),
        None => None,
    }
}

/// The text of the argument under `key`, where that argument is a string.
pub fn get_param_text<'a>(action: &'a Action, key: &str) -> (r: Option<&'a str>)
    ensures
        match r {
            Some(s) => param_text(action@, key@) == Some(s@),
            None => param_text(action@, key@) is None,
        },
{
    match get_param(action, key) {
        Some(Value::String(s)) => Some(s.as_str()),
        _ => None,
    }
}

/// The text of the argument under `key`, or the action's target.
pub fn get_text_or_target<'a>(action: &'a Action, key: &str) -> (r: &'a str)
    ensures
        r@ == text_or_target(action@, key@),
{
    match get_param_text(action, key) {
        Some(s) => s,
        None => action.target.as_str(),
    }
}

/// The text of the argument under `key`, or `fallback`.
pub fn get_text_or<'a>(action: &'a Action, key: &str, fallback: &'a str) -> (r: &'a str)
    ensures
        r@ == text_or(action@, key@, fallback@),
{
    match get_param_text(action, key) {
        Some(s) => s,
        None => fallback,
    }
}

/// The signed integer under `key`, or `fallback`.
pub fn get_integer_or(action: &Action, key: &str, fallback: i64) -> (r: i64)
    ensures
        r == integer_or(action@, key@, fallback),
{
    match get_param(action, key) {
        Some(v) => match v.as_i64() {
            Some(n) => n,
            None => fallback,
        },
        None => fallback,
    }
}

} // verus!
