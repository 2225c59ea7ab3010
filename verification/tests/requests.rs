use codegraph_agent::adapter::{
    count_bytes, progress_message, ChatError, CodeGraphChatAdapter, UnsupportedOperation,
};
use codegraph_agent::chat::{
    ChatMessage, ChatRole, FunctionTool, MessageType, StructuredOutputFormat, Tool,
};
use codegraph_agent::limits::ContextTier;
use codegraph_agent::provider::{
    LLMResponse, Message, MessageRole, NativeFunctionCall, NativeToolCall, ResponseFormat,
};
use serde_json::Value;

fn user(content: &str) -> ChatMessage {
    ChatMessage {
        role: ChatRole::User,
        message_type: MessageType::Text,
        content: content.to_string(),
    }
}

fn native(name: &str) -> NativeToolCall {
    NativeToolCall {
        id: "id".to_string(),
        call_type: "function".to_string(),
        function: NativeFunctionCall {
            name: name.to_string(),
            arguments: "{}".to_string(),
        },
    }
}

fn answer(content: &str, tool_calls: Option<Vec<NativeToolCall>>) -> LLMResponse {
    LLMResponse {
        content: content.to_string(),
        tool_calls,
        total_tokens: Some(10),
    }
}

fn echo(messages: &[Message]) -> LLMResponse {
    let last = messages.last().expect("there is a message");
    answer(&format!("Echo: {}", last.content), None)
}

#[test]
fn test_chat_adapter_integration() {
    let mut adapter = CodeGraphChatAdapter::new(ContextTier::Medium, None);

    let messages = vec![user("Hello")];
    let request = adapter
        .prepare_request(&messages, None, None, None)
        .expect("a short conversation is sent");
    let (response, _) = adapter.accept_response(echo(&request.messages));

    assert_eq!(response.text(), Some("Echo: Hello".to_string()));
}

#[test]
fn bytes_add_up() {
    let message = |text: &str| Message {
        role: MessageRole::Assistant,
        content: text.to_string(),
    };
    let first = vec![message("né"), message("")];
    let second = vec![message("🛠🛠")];
    let both = vec![message("né"), message(""), message("🛠🛠")];
    assert_eq!(count_bytes(&first), 3);
    assert_eq!(count_bytes(&second), 8);
    assert_eq!(count_bytes(&both), 11);
}

#[test]
fn bytes_are_counted_in_utf8() {
    let texts = ["", "abc", "é", "漢", "🛠"];
    let messages: Vec<Message> = texts
        .iter()
        .map(|text| Message {
            role: MessageRole::User,
            content: text.to_string(),
        })
        .collect();
    assert_eq!(count_bytes(&messages), 3 + 2 + 3 + 4);
    assert_eq!(count_bytes(&vec![]), 0);
}

#[test]
fn a_request_carries_the_conversation() {
    let adapter = CodeGraphChatAdapter::new(ContextTier::Medium, None);
    let request = adapter
        .prepare_request(&[user("Hello"), user("World")], None, None, None)
        .expect("a short conversation is sent");
    assert_eq!(
        request.messages,
        vec![
            Message {
                role: MessageRole::User,
                content: "Hello".to_string()
            },
            Message {
                role: MessageRole::User,
                content: "World".to_string()
            },
        ]
    );
    assert_eq!(request.tools, None);
    assert_eq!(request.max_tokens, Some(4096));
    assert_eq!(request.response_format, None);
}

#[test]
fn a_request_offers_the_tools() {
    let mut parameters = serde_json::Map::new();
    parameters.insert("type".to_string(), Value::from("object"));
    let tools = vec![
        Tool {
            tool_type: "function".to_string(),
            function: FunctionTool {
                name: "get_hub_nodes".to_string(),
                description: "Finds hubs".to_string(),
                parameters: Value::Object(parameters.clone()),
            },
        },
        Tool {
            tool_type: "function".to_string(),
            function: FunctionTool {
                name: "detect_cycles".to_string(),
                description: "Finds cycles".to_string(),
                parameters: Value::Null,
            },
        },
    ];
    let adapter = CodeGraphChatAdapter::new(ContextTier::Small, None);
    let request = adapter
        .prepare_request(&[user("Hello")], Some(&tools), None, Some("99"))
        .expect("a short conversation is sent");
    let offered = request.tools.expect("tools are offered");
    assert_eq!(offered.len(), 2);
    assert_eq!(offered[0].function.name, "get_hub_nodes");
    assert_eq!(offered[0].function.description, "Finds hubs");
    assert_eq!(offered[0].function.parameters, Value::Object(parameters));
    assert_eq!(offered[1].function.name, "detect_cycles");
    assert_eq!(offered[1].function.parameters, Value::Null);
    assert_eq!(request.max_tokens, Some(99));

    let none = adapter
        .prepare_request(&[user("Hello")], Some(&[]), None, None)
        .expect("a short conversation is sent");
    assert_eq!(none.tools, Some(vec![]));
}

#[test]
fn a_request_asks_for_the_wanted_form() {
    let adapter = CodeGraphChatAdapter::new(ContextTier::Small, None);
    let wanted = StructuredOutputFormat {
        name: "Answer".to_string(),
        description: None,
        schema: None,
        strict: None,
    };
    let request = adapter
        .prepare_request(&[user("Hello")], None, Some(wanted), None)
        .expect("a short conversation is sent");
    let Some(ResponseFormat::JsonSchema(schema)) = request.response_format else {
        panic!("no form asked for");
    };
    assert_eq!(schema.name, "Answer");
    assert_eq!(schema.schema, Value::Null);
    assert!(schema.strict);
}

#[test]
fn a_conversation_up_to_the_limit_is_sent() {
    let adapter = CodeGraphChatAdapter::new(ContextTier::Small, Some("5"));
    assert_eq!(adapter.max_context_bytes, 16);
    let fits = [user("12345678"), user("12345678")];
    assert!(adapter.prepare_request(&fits, None, None, None).is_ok());
    let too_long = [user("12345678"), user("12345678é")];
    let error = adapter
        .prepare_request(&too_long, None, None, None)
        .expect_err("a conversation over the limit is refused");
    assert_eq!(
        error,
        ChatError::ContextOverflow {
            total_bytes: 18,
            max_bytes: 16
        }
    );
    assert_eq!(
        error.message("1.1"),
        "Context overflow: 18 bytes exceeds 16 byte limit (1.1x). Tool results accumulated too \
         much data. Try reducing result limits or query scope."
    );
}

#[test]
fn messages_of_the_provider_are_sent_as_they_are() {
    let adapter = CodeGraphChatAdapter::new(ContextTier::Large, Some("5"));
    let message = Message {
        role: MessageRole::System,
        content: "sixteen bytes ok".to_string(),
    };
    let request = adapter
        .request_for(vec![message.clone()], None, None, None)
        .expect("the limit is not passed");
    assert_eq!(request.messages, vec![message.clone()]);
    assert_eq!(request.max_tokens, Some(8192));
    assert_eq!(
        adapter.request_for(vec![message.clone(), message], None, None, None),
        Err(ChatError::ContextOverflow {
            total_bytes: 32,
            max_bytes: 16
        })
    );
}

#[test]
fn tool_results_count_with_their_json() {
    let adapter = CodeGraphChatAdapter::new(ContextTier::Small, Some("5"));
    let empty = ChatMessage {
        role: ChatRole::Tool,
        message_type: MessageType::ToolResult(vec![]),
        content: String::new(),
    };
    assert_eq!(
        adapter.prepare_request(&[empty], None, None, None),
        Err(ChatError::ContextOverflow {
            total_bytes: 17,
            max_bytes: 16
        })
    );
}

#[test]
fn a_refused_conversation_stays_refused() {
    let adapter = CodeGraphChatAdapter::new(ContextTier::Small, Some("5"));
    let mut conversation = vec![user("this is more than it takes")];
    for _ in 0..3 {
        assert!(adapter
            .prepare_request(&conversation, None, None, None)
            .is_err());
        conversation.push(user(""));
    }
}

#[test]
fn without_a_callback_nothing_is_reported() {
    let mut adapter = CodeGraphChatAdapter::new(ContextTier::Medium, None);
    let (response, progress) = adapter.accept_response(answer("Echo: Hello", None));
    assert_eq!(response.text(), Some("Echo: Hello".to_string()));
    assert_eq!(response.total_tokens, 10);
    assert_eq!(progress, None);
    assert_eq!(adapter.step_counter, 1);
}

#[test]
fn steps_are_reported_in_order() {
    let mut adapter = CodeGraphChatAdapter::with_progress_callback(ContextTier::Medium, None);
    let (_, first) = adapter.accept_response(answer("thinking", None));
    let first = first.expect("a step is reported");
    assert_eq!(first.step, 1);
    assert_eq!(first.message, "Step 1: Agent reasoning...");
    let calls = vec![native("get_hub_nodes"), native("detect_cycles")];
    let (response, second) = adapter.accept_response(answer("calling", Some(calls.clone())));
    let second = second.expect("a step is reported");
    assert_eq!(second.step, 2);
    assert_eq!(
        second.message,
        "Step 2: Calling get_hub_nodes, detect_cycles"
    );
    assert_eq!(response.tool_calls, Some(calls));
    assert_eq!(adapter.tier, ContextTier::Medium);
    assert_eq!(adapter.max_context_bytes, 409_600);
}

#[test]
fn failures_are_handed_on_and_use_up_no_step() {
    let mut adapter = CodeGraphChatAdapter::with_progress_callback(ContextTier::Medium, None);
    let before = adapter;
    for _ in 0..3 {
        assert_eq!(
            adapter.take_reply(Err("rate limited".to_string())),
            Err("rate limited".to_string())
        );
        assert_eq!(adapter, before);
    }
    let (response, progress) = adapter
        .take_reply(Ok(answer("done", None)))
        .expect("the provider answered");
    assert_eq!(response.content, "done");
    assert_eq!(response.total_tokens, 10);
    let progress = progress.expect("a step is reported");
    assert_eq!(progress.step, 1);
    assert_eq!(progress.message, "Step 1: Agent reasoning...");
    assert!(adapter.take_reply(Err(String::new())).is_err());
    let (_, progress) = adapter
        .take_reply(Ok(answer("more", Some(vec![native("detect_cycles")]))))
        .expect("the provider answered");
    assert_eq!(
        progress.expect("a step is reported").message,
        "Step 2: Calling detect_cycles"
    );
    assert_eq!(adapter.step_counter, 3);
}

#[test]
fn missing_token_counts_are_zero() {
    let mut adapter = CodeGraphChatAdapter::new(ContextTier::Small, None);
    let (response, _) = adapter.accept_response(LLMResponse {
        content: String::new(),
        tool_calls: None,
        total_tokens: None,
    });
    assert_eq!(response.total_tokens, 0);
}

#[test]
fn step_numbers_start_over_after_the_last() {
    let mut adapter = CodeGraphChatAdapter::with_progress_callback(ContextTier::Small, None);
    adapter.step_counter = usize::MAX;
    let (_, progress) = adapter.accept_response(answer("", None));
    assert_eq!(progress.expect("a step is reported").step, usize::MAX);
    assert_eq!(adapter.step_counter, 0);
}

#[test]
fn progress_messages() {
    assert_eq!(progress_message(3, &None), "Step 3: Agent reasoning...");
    assert_eq!(
        progress_message(4, &Some(vec![])),
        "Step 4: Agent reasoning..."
    );
    assert_eq!(
        progress_message(5, &Some(vec![native("")])),
        "Step 5: Agent reasoning..."
    );
    assert_eq!(
        progress_message(6, &Some(vec![native(""), native("")])),
        "Step 6: Calling , "
    );
    assert_eq!(
        progress_message(120, &Some(vec![native("trace_call_chain")])),
        "Step 120: Calling trace_call_chain"
    );
}

#[test]
fn refusals() {
    assert_eq!(
        UnsupportedOperation::Streaming.message(),
        "Streaming not supported"
    );
    assert_eq!(
        UnsupportedOperation::StructuredStreaming.message(),
        "Structured streaming not supported"
    );
    assert_eq!(
        UnsupportedOperation::Completion.message(),
        "Completion not supported - use ChatProvider instead"
    );
    assert_eq!(
        UnsupportedOperation::Embedding.message(),
        "Embedding not supported - CodeGraph uses separate embedding providers"
    );
    assert_eq!(
        UnsupportedOperation::ModelListing.message(),
        "Model listing not supported"
    );
}
