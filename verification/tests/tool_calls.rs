use codegraph_agent::chat::ToolCall;
use codegraph_agent::provider::{NativeFunctionCall, NativeToolCall};
use codegraph_agent::reply::{
    decode_reply, decode_tool_call_object, deserialize_parameters, reply_field, tool_call_field,
    FieldValue, InvalidReply, ReplyField, ReplyMember, ReplySource, ReplyValue, ToolCallField,
    ToolCallMember,
};
use codegraph_agent::response::{CodeGraphChatResponse, ReasoningStepCounter, ToolCallCounter};
use serde_json::Value;

fn field_value(value: Value) -> FieldValue {
    match value {
        Value::Null => FieldValue::Null,
        Value::String(text) => FieldValue::Text(text),
        Value::Object(_) => FieldValue::Object(value),
        _ => FieldValue::Other,
    }
}

fn reply_value(value: Value) -> ReplyValue {
    match value {
        Value::Null => ReplyValue::Null,
        Value::String(text) => ReplyValue::Text(text),
        Value::Object(members) => ReplyValue::Object(
            members
                .into_iter()
                .map(|(key, value)| ToolCallMember {
                    key,
                    value: field_value(value),
                })
                .collect(),
        ),
        Value::Array(items) => ReplyValue::List(items.into_iter().map(field_value).collect()),
        _ => ReplyValue::Other,
    }
}

/// The shape of the JSON in a text whose objects name no member twice.
fn source(text: &str) -> Option<ReplySource> {
    match serde_json::from_str::<Value>(text).ok()? {
        Value::Object(members) => Some(ReplySource::Object(
            members
                .into_iter()
                .map(|(key, value)| ReplyMember {
                    key,
                    value: reply_value(value),
                })
                .collect(),
        )),
        Value::Array(items) => Some(ReplySource::List(
            items.into_iter().map(reply_value).collect(),
        )),
        _ => Some(ReplySource::Other),
    }
}

fn answer(content: &str) -> CodeGraphChatResponse {
    CodeGraphChatResponse {
        content: content.to_string(),
        tool_calls: None,
        total_tokens: 0,
    }
}

fn tool_calls(response: &CodeGraphChatResponse) -> Option<Vec<ToolCall>> {
    let mut ids = ToolCallCounter::new();
    response.tool_calls(source(&response.content), &mut ids).0
}

fn member(key: &str, value: FieldValue) -> ToolCallMember {
    ToolCallMember {
        key: key.to_string(),
        value,
    }
}

fn text(value: &str) -> FieldValue {
    FieldValue::Text(value.to_string())
}

fn native(id: &str, name: &str) -> NativeToolCall {
    NativeToolCall {
        id: id.to_string(),
        call_type: "custom".to_string(),
        function: NativeFunctionCall {
            name: name.to_string(),
            arguments: "{\"depth\": 2}".to_string(),
        },
    }
}

#[test]
fn test_tool_calls_accepts_name_arguments_fields() {
    let response = answer(
        r#"{
                "reasoning": "Plan",
                "tool_call": {
                    "name": "get_hub_nodes",
                    "arguments": {
                        "min_degree": 4
                    }
                }
            }"#,
    );

    let tool_calls = tool_calls(&response).expect("tool call not parsed");
    assert_eq!(tool_calls.len(), 1);
    assert_eq!(tool_calls[0].function.name, "get_hub_nodes");
    assert_eq!(tool_calls[0].function.arguments, "{\"min_degree\":4}");
}

#[test]
fn test_tool_calls_accepts_args_field() {
    let response = answer(
        r#"{
                "reasoning": "Trace chain",
                "tool_call": {
                    "tool_name": "trace_call_chain",
                    "args": {
                        "node_id": "GraphToolExecutor",
                        "max_depth": 4
                    }
                }
            }"#,
    );

    let tool_calls = tool_calls(&response).expect("tool call not parsed");
    assert_eq!(tool_calls[0].function.name, "trace_call_chain");
    assert_eq!(
        tool_calls[0].function.arguments,
        "{\"node_id\":\"GraphToolExecutor\",\"max_depth\":4}"
    );
}

#[test]
fn test_tool_calls_accepts_function_field() {
    let response = answer(
        r#"{
                "reasoning": "Find hubs",
                "tool_call": {
                    "function": "get_hub_nodes",
                    "arguments": {
                        "min_degree": 6
                    }
                }
            }"#,
    );

    let tool_calls = tool_calls(&response).expect("tool call not parsed");
    assert_eq!(tool_calls[0].function.name, "get_hub_nodes");
    assert_eq!(tool_calls[0].function.arguments, "{\"min_degree\":6}");
}

#[test]
fn test_tool_calls_accepts_tool_field() {
    let response = answer(
        r#"{
                "reasoning": "Dependencies",
                "tool_call": {
                    "tool": "get_transitive_dependencies",
                    "parameters": {
                        "node_id": "AgenticOrchestrator",
                        "edge_type": "Imports",
                        "depth": 2
                    }
                }
            }"#,
    );

    let tool_calls = tool_calls(&response).expect("tool call not parsed");
    assert_eq!(tool_calls[0].function.name, "get_transitive_dependencies");
}

#[test]
fn test_tool_calls_accepts_parameters_json_string() {
    let response = answer(
        r#"{
                "reasoning": "Search for authentication code",
                "tool_call": {
                    "tool_name": "semantic_code_search",
                    "parameters_json": "{\"query\": \"authentication logic\", \"limit\": 10}"
                }
            }"#,
    );

    let tool_calls = tool_calls(&response).expect("tool call not parsed");
    assert_eq!(tool_calls.len(), 1);
    assert_eq!(tool_calls[0].function.name, "semantic_code_search");
    assert_eq!(
        tool_calls[0].function.arguments,
        "{\"query\": \"authentication logic\", \"limit\": 10}"
    );
}

#[test]
fn test_tool_calls_normalizes_object_to_string() {
    let response = answer(
        r#"{
                "reasoning": "Find hub nodes",
                "tool_call": {
                    "tool_name": "get_hub_nodes",
                    "parameters": {
                        "min_degree": 5
                    }
                }
            }"#,
    );

    let tool_calls = tool_calls(&response).expect("tool call not parsed");
    assert_eq!(tool_calls.len(), 1);
    assert_eq!(tool_calls[0].function.name, "get_hub_nodes");
    assert_eq!(tool_calls[0].function.arguments, "{\"min_degree\":5}");
}

#[test]
fn written_calls_are_numbered_functions() {
    let content = r#"{"tool_call": {"name": "detect_cycles", "args": "{}"}}"#;
    let mut ids = ToolCallCounter::new();
    let response = answer(content);
    for expected in ["call_0", "call_1", "call_2"] {
        let (calls, step) = response.tool_calls(source(content), &mut ids);
        let calls = calls.expect("tool call not parsed");
        assert_eq!(calls[0].id, expected);
        assert_eq!(calls[0].call_type, "function");
        let step = step.expect("a step was taken");
        assert_eq!(step.thought, "");
        assert_eq!(step.action, Some("detect_cycles".to_string()));
    }
    assert_eq!(ids.next, 3);
}

#[test]
fn call_numbers_start_over_after_the_last() {
    let mut ids = ToolCallCounter { next: u64::MAX };
    assert_eq!(ids.next_id(), "call_18446744073709551615");
    assert_eq!(ids.next_id(), "call_0");
}

#[test]
fn only_steps_are_numbered() {
    let mut ids = ToolCallCounter::new();
    let mut steps = ReasoningStepCounter::new();
    let mut numbers = Vec::new();
    for content in [
        r#"{"reasoning": "Plan"}"#,
        "All done.",
        r#"{"tool_call": {"name": "detect_cycles", "args": "{}"}}"#,
        r#"{"tool_call": 7}"#,
        "{}",
    ] {
        let (_, step) = answer(content).tool_calls(source(content), &mut ids);
        numbers.push(steps.number_step(&step));
    }
    assert_eq!(numbers, vec![Some(1), None, Some(2), None, Some(3)]);
    assert_eq!(steps.next, 4);
    let mut native_answer = answer("");
    native_answer.tool_calls = Some(vec![native("a", "get_hub_nodes")]);
    let (_, step) = native_answer.tool_calls(None, &mut ids);
    let mut last = ReasoningStepCounter { next: u64::MAX };
    assert_eq!(last.number_step(&step), Some(u64::MAX));
    assert_eq!(last.next, 0);
}

#[test]
fn native_calls_come_before_the_text() {
    let mut ids = ToolCallCounter::new();
    let mut response = answer(r#"{"tool_call": {"name": "ignored", "args": "{}"}}"#);
    response.tool_calls = Some(vec![native("a", "get_hub_nodes"), native("b", "detect_cycles")]);
    assert!(response.has_native_calls());
    let (calls, step) = response.tool_calls(source(&response.content), &mut ids);
    let calls = calls.expect("native calls are kept");
    assert_eq!(calls.len(), 2);
    assert_eq!(calls[0].id, "a");
    assert_eq!(calls[0].call_type, "custom");
    assert_eq!(calls[0].function.name, "get_hub_nodes");
    assert_eq!(calls[0].function.arguments, "{\"depth\": 2}");
    assert_eq!(calls[1].id, "b");
    assert_eq!(calls[1].function.name, "detect_cycles");
    let step = step.expect("a step was taken");
    assert_eq!(step.thought, "Native tool calling");
    assert_eq!(step.action, Some("get_hub_nodes, detect_cycles".to_string()));
    assert_eq!(ids.next, 0, "no identifier is used up");
}

#[test]
fn an_empty_list_of_native_calls_does_not_count() {
    let mut response = answer(r#"{"tool_call": {"name": "used", "args": "{}"}}"#);
    response.tool_calls = Some(vec![]);
    assert!(!response.has_native_calls());
    let calls = tool_calls(&response).expect("tool call not parsed");
    assert_eq!(calls[0].function.name, "used");
}

#[test]
fn plain_text_calls_nothing() {
    let mut ids = ToolCallCounter::new();
    for content in ["All done.", "", "42", "null", "\"text\"", "{\"tool_call\": {"] {
        let response = answer(content);
        let read = response.tool_calls(source(content), &mut ids);
        assert_eq!(read, (None, None));
        assert_eq!(response.text(), Some(content.to_string()));
    }
    assert_eq!(ids.next, 0);
}

#[test]
fn an_answer_may_only_think() {
    let mut ids = ToolCallCounter::new();
    for content in [
        r#"{"reasoning": "Enough", "tool_call": null}"#,
        r#"{"reasoning": "Enough"}"#,
        r#"["Enough"]"#,
        r#"["Enough", null]"#,
    ] {
        let (calls, step) = answer(content).tool_calls(source(content), &mut ids);
        assert_eq!(calls, None);
        let step = step.expect("a step was taken");
        assert_eq!(step.thought, "Enough");
        assert_eq!(step.action, None);
    }
    for content in ["{}", "[]", r#"{"reasoning": null, "other": 1}"#] {
        let (calls, step) = answer(content).tool_calls(source(content), &mut ids);
        assert_eq!(calls, None);
        assert_eq!(step.expect("a step was taken").thought, "");
    }
    assert_eq!(ids.next, 0);
}

#[test]
fn fields_may_stand_in_a_list() {
    let content = r#"["Why", ["get_hub_nodes", {"min_degree": 3}]]"#;
    let calls = tool_calls(&answer(content)).expect("tool call not parsed");
    assert_eq!(calls[0].function.name, "get_hub_nodes");
    assert_eq!(calls[0].function.arguments, "{\"min_degree\":3}");
    for content in [
        r#"["Why", ["get_hub_nodes"]]"#,
        r#"["Why", ["get_hub_nodes", "{}", "more"]]"#,
        r#"["Why", null, "more"]"#,
        r#"["Why", [{"min_degree": 3}, "get_hub_nodes"]]"#,
    ] {
        assert_eq!(tool_calls(&answer(content)), None);
    }
}

#[test]
fn unusable_answers_call_nothing() {
    for content in [
        r#"{"tool_call": {"name": "a"}}"#,
        r#"{"tool_call": {"args": "{}"}}"#,
        r#"{"tool_call": {}}"#,
        r#"{"tool_call": "get_hub_nodes"}"#,
        r#"{"tool_call": 7}"#,
        r#"{"tool_call": {"name": 7, "args": "{}"}}"#,
        r#"{"tool_call": {"name": null, "args": "{}"}}"#,
        r#"{"tool_call": {"name": "a", "args": null}}"#,
        r#"{"tool_call": {"name": "a", "args": 7}}"#,
        r#"{"tool_call": {"name": "a", "args": [1]}}"#,
        r#"{"tool_call": {"name": "a", "tool": "b", "args": "{}"}}"#,
        r#"{"tool_call": {"name": "a", "args": "{}", "arguments": "{}"}}"#,
        r#"{"reasoning": 1, "tool_call": {"name": "a", "args": "{}"}}"#,
        r#"{"reasoning": {}, "tool_call": {"name": "a", "args": "{}"}}"#,
    ] {
        assert_eq!(
            decode_reply(source(content).expect("the text is JSON")),
            Err(InvalidReply)
        );
        assert_eq!(tool_calls(&answer(content)), None);
    }
}

#[test]
fn members_must_not_be_repeated() {
    let repeated = |key: &str| ReplyMember {
        key: key.to_string(),
        value: ReplyValue::Null,
    };
    for key in ["reasoning", "tool_call"] {
        let members = vec![repeated(key), repeated(key)];
        assert_eq!(
            decode_reply(ReplySource::Object(members)),
            Err(InvalidReply)
        );
    }
    let members = vec![repeated("other"), repeated("other")];
    assert!(decode_reply(ReplySource::Object(members)).is_ok());
    assert_eq!(
        decode_tool_call_object(vec![
            member("name", text("a")),
            member("name", text("a")),
            member("args", text("{}")),
        ]),
        Err(InvalidReply)
    );
}

#[test]
fn every_name_of_a_field_is_accepted() {
    for name in ["tool_name", "name", "function", "tool"] {
        assert_eq!(tool_call_field(&name.to_string()), ToolCallField::ToolName);
        for parameters in ["parameters_json", "parameters", "arguments", "args"] {
            assert_eq!(
                tool_call_field(&parameters.to_string()),
                ToolCallField::Parameters
            );
            let call = decode_tool_call_object(vec![
                member("comment", FieldValue::Other),
                member(parameters, text(" {} ")),
                member(name, text("detect_cycles")),
            ])
            .expect("a tool call");
            assert_eq!(call.tool_name, "detect_cycles");
            assert_eq!(call.parameters_json, " {} ");
        }
    }
    for other in ["Name", "tool_name ", "", "params"] {
        assert_eq!(tool_call_field(&other.to_string()), ToolCallField::Unknown);
    }
    assert_eq!(
        reply_field(&"reasoning".to_string()),
        ReplyField::Reasoning
    );
    assert_eq!(reply_field(&"tool_call".to_string()), ReplyField::ToolCall);
    assert_eq!(reply_field(&"toolcall".to_string()), ReplyField::Unknown);
}

#[test]
fn the_order_of_members_is_free() {
    let one = tool_calls(&answer(
        r#"{"x": 1, "tool_call": {"args": {"b": 1, "a": 2}, "y": [], "name": "n"}, "reasoning": "r"}"#,
    ));
    let other = tool_calls(&answer(
        r#"{"reasoning": "r", "tool_call": {"name": "n", "args": {"b": 1, "a": 2}}}"#,
    ));
    assert_eq!(one, other);
    let calls = one.expect("tool call not parsed");
    assert_eq!(calls[0].function.arguments, "{\"b\":1,\"a\":2}");
}

#[test]
fn parameters_are_text_in_both_forms() {
    assert_eq!(
        deserialize_parameters(text("{ \"query\": \"x\" }")),
        Ok("{ \"query\": \"x\" }".to_string())
    );
    let mut object = serde_json::Map::new();
    object.insert("query".to_string(), Value::from("x"));
    object.insert("limit".to_string(), Value::from(10));
    assert_eq!(
        deserialize_parameters(FieldValue::Object(Value::Object(object))),
        Ok("{\"query\":\"x\",\"limit\":10}".to_string())
    );
    assert_eq!(
        deserialize_parameters(FieldValue::Object(Value::Object(serde_json::Map::new()))),
        Ok("{}".to_string())
    );
    assert_eq!(
        deserialize_parameters(FieldValue::Null),
        Err(InvalidReply)
    );
    assert_eq!(
        deserialize_parameters(FieldValue::Other),
        Err(InvalidReply)
    );
}
