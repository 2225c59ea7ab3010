//! The calls into `serde_json`, and what is known of them.

use vstd::prelude::*;

use serde_json::Value;

use crate::chat::{ToolCall, ToolCallView};
use crate::text::views;

verus! {

/// A JSON value of `serde_json`. It is carried through as it is.
#[verifier::external_type_specification]
#[verifier::external_body]
pub struct ExValue(serde_json::Value);

/// The reason for which `serde_json` did not write a value.
#[verifier::external_type_specification]
#[verifier::external_body]
pub struct ExError(serde_json::Error);

/// The text that `serde_json::to_string_pretty` writes for a list of tool calls.
pub uninterp spec fn tool_calls_json(calls: Seq<ToolCallView>) -> Seq<char>;

/// Writes tool calls with `serde_json::to_string_pretty`, as a list of `autoagents::llm::ToolCall`
/// with the same fields.
///
/// Not proved: that the call succeeds, as text can always be written to memory; that the outcome
/// depends on the fields of the calls and on their order alone; and that no calls are written as
/// an empty pair of brackets.
#[verifier::external_body]
pub(crate) fn pretty_tool_calls(calls: &Vec<ToolCall>) -> (text: Result<String, serde_json::Error>)
    ensures
        match text {
            Ok(text) => {
                &&& text@ == tool_calls_json(views(calls@))
                &&& calls@.len() == 0 ==> text@ == "[]"@
            },
            Err(_) => false,
        },
{
    let calls: Vec<autoagents::llm::ToolCall> = calls.iter().map(|call| autoagents::llm::ToolCall {
        id: call.id.clone(),
        call_type: call.call_type.clone(),
        function: autoagents::llm::FunctionCall {
            name: call.function.name.clone(),
            arguments: call.function.arguments.clone(),
        },
    }).collect();
    serde_json::to_string_pretty(&calls)
}

/// The text that `serde_json::to_string` writes for a JSON value.
pub uninterp spec fn compact_json(value: Value) -> Seq<char>;

/// Writes a JSON value with `serde_json::to_string`.
///
/// Not proved: that the call succeeds, as a JSON value can always be written to memory, and that
/// the outcome depends on the value alone.
#[verifier::external_body]
pub(crate) fn to_compact_json(value: &Value) -> (text: Result<String, serde_json::Error>)
    ensures
        match text {
            Ok(text) => text@ == compact_json(*value),
            Err(_) => false,
        },
{
    serde_json::to_string(value)
}

/// `serde_json::Value::clone` gives an equal value.
pub assume_specification[ <serde_json::Value as Clone>::clone ](value: &serde_json::Value) -> (copy:
    serde_json::Value)
    ensures
        copy == *value,
;

/// `serde_json::Value::default` gives the JSON value that is written `null`.
pub assume_specification[ <serde_json::Value as Default>::default ]() -> (value: serde_json::Value)
    ensures
        compact_json(value) == "null"@,
;

} // verus!
