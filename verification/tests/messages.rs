use codegraph_agent::chat::{
    add_json_block, convert_messages, convert_output_format, convert_to_chat_message,
    convert_to_provider_message, convert_to_provider_messages, ChatMessage, ChatRole, FunctionCall,
    MessageType, StructuredOutputFormat, ToolCall,
};
use codegraph_agent::provider::{JsonSchema, Message, MessageRole, ResponseFormat};
use serde_json::Value;

fn call(id: &str, name: &str, arguments: &str) -> ToolCall {
    ToolCall {
        id: id.to_string(),
        call_type: "function".to_string(),
        function: FunctionCall {
            name: name.to_string(),
            arguments: arguments.to_string(),
        },
    }
}

fn message(role: ChatRole, message_type: MessageType, content: &str) -> ChatMessage {
    ChatMessage {
        role,
        message_type,
        content: content.to_string(),
    }
}

#[test]
fn test_message_conversion_user() {
    let cg_msg = Message {
        role: MessageRole::User,
        content: "Hello".to_string(),
    };

    let aa_msg = convert_to_chat_message(&cg_msg);

    assert_eq!(aa_msg.role, ChatRole::User);
    assert_eq!(aa_msg.content, "Hello");
    assert_eq!(aa_msg.message_type, MessageType::Text);
}

#[test]
fn test_message_conversion_system() {
    let cg_msg = Message {
        role: MessageRole::System,
        content: "You are helpful".to_string(),
    };

    let aa_msg = convert_to_chat_message(&cg_msg);

    assert_eq!(aa_msg.role, ChatRole::System);
}

#[test]
fn test_message_conversion_assistant() {
    let cg_msg = Message {
        role: MessageRole::Assistant,
        content: "I can help".to_string(),
    };

    let aa_msg = convert_to_chat_message(&cg_msg);

    assert_eq!(aa_msg.role, ChatRole::Assistant);
}

#[test]
fn test_convert_messages_batch() {
    let cg_messages = vec![
        Message {
            role: MessageRole::System,
            content: "System".to_string(),
        },
        Message {
            role: MessageRole::User,
            content: "User".to_string(),
        },
    ];

    let aa_messages = convert_messages(&cg_messages);

    assert_eq!(aa_messages.len(), 2);
    assert_eq!(aa_messages[0].role, ChatRole::System);
    assert_eq!(aa_messages[1].role, ChatRole::User);
}

#[test]
fn provider_messages_come_back_unchanged() {
    for role in [
        MessageRole::System,
        MessageRole::User,
        MessageRole::Assistant,
    ] {
        let original = Message {
            role,
            content: "Grüße".to_string(),
        };
        let back = convert_to_provider_message(&convert_to_chat_message(&original));
        assert_eq!(back, original);
    }
}

#[test]
fn tool_messages_go_to_the_provider_as_user_messages() {
    let sent =
        convert_to_provider_message(&message(ChatRole::Tool, MessageType::Text, "forty-two"));
    assert_eq!(sent.role, MessageRole::User);
    assert_eq!(sent.content, "forty-two");
}

#[test]
fn pictures_and_documents_leave_only_their_text() {
    for kind in [MessageType::Image, MessageType::Pdf, MessageType::ImageURL] {
        let sent = convert_to_provider_message(&message(ChatRole::User, kind, "see this"));
        assert_eq!(sent.content, "see this");
    }
}

#[test]
fn tool_calls_are_written_below_the_text() {
    let calls = vec![call("call_7", "detect_cycles", "{\"edge\":\"Imports\"}")];
    let sent = convert_to_provider_message(&message(
        ChatRole::Assistant,
        MessageType::ToolUse(calls),
        "Looking for cycles",
    ));
    assert_eq!(sent.role, MessageRole::Assistant);
    assert_eq!(
        sent.content,
        "Looking for cycles\n\n[Tool calls made]\n[\n  {\n    \"id\": \"call_7\",\n    \
         \"type\": \"function\",\n    \"function\": {\n      \"name\": \"detect_cycles\",\n      \
         \"arguments\": \"{\\\"edge\\\":\\\"Imports\\\"}\"\n    }\n  }\n]"
    );
}

#[test]
fn tool_results_without_text_start_with_the_heading() {
    let calls = vec![call("a", "one", "1"), call("b", "two", "2")];
    let sent = convert_to_provider_message(&message(
        ChatRole::Tool,
        MessageType::ToolResult(calls),
        "",
    ));
    assert_eq!(sent.role, MessageRole::User);
    assert_eq!(
        sent.content,
        "[Tool results]\n[\n  {\n    \"id\": \"a\",\n    \"type\": \"function\",\n    \
         \"function\": {\n      \"name\": \"one\",\n      \"arguments\": \"1\"\n    }\n  },\n  \
         {\n    \"id\": \"b\",\n    \"type\": \"function\",\n    \"function\": {\n      \
         \"name\": \"two\",\n      \"arguments\": \"2\"\n    }\n  }\n]"
    );
}

#[test]
fn tool_messages_without_calls() {
    let used = convert_to_provider_message(&message(
        ChatRole::Assistant,
        MessageType::ToolUse(vec![]),
        "",
    ));
    assert_eq!(used.content, "[Tool calls made]\n[]");
    let results = convert_to_provider_message(&message(
        ChatRole::Tool,
        MessageType::ToolResult(vec![]),
        "done",
    ));
    assert_eq!(results.content, "done\n\n[Tool results]\n[]");
}

#[test]
fn json_that_cannot_be_written_becomes_an_empty_list() {
    assert_eq!(
        add_json_block("", "[Tool results]", None),
        "[Tool results]\n[]"
    );
    assert_eq!(
        add_json_block("text", "[Tool results]", None),
        "text\n\n[Tool results]\n[]"
    );
    assert_eq!(
        add_json_block("text", "[Tool calls made]", Some("[1]")),
        "text\n\n[Tool calls made]\n[1]"
    );
}

#[test]
fn conversations_keep_their_order() {
    let sent = convert_to_provider_messages(&[
        message(ChatRole::System, MessageType::Text, "one"),
        message(ChatRole::User, MessageType::Text, "two"),
        message(ChatRole::Assistant, MessageType::Text, "three"),
    ]);
    let contents: Vec<&str> = sent.iter().map(|m| m.content.as_str()).collect();
    assert_eq!(contents, vec!["one", "two", "three"]);
    assert_eq!(sent[2].role, MessageRole::Assistant);
    assert!(convert_to_provider_messages(&[]).is_empty());
}

#[test]
fn output_formats() {
    let schema = Value::Bool(true);
    let full = convert_output_format(StructuredOutputFormat {
        name: "Answer".to_string(),
        description: Some("An answer".to_string()),
        schema: Some(schema.clone()),
        strict: Some(false),
    });
    assert_eq!(
        full,
        ResponseFormat::JsonSchema(JsonSchema {
            name: "Answer".to_string(),
            schema,
            strict: false,
        })
    );
    let bare = convert_output_format(StructuredOutputFormat {
        name: "Bare".to_string(),
        description: None,
        schema: None,
        strict: None,
    });
    assert_eq!(
        bare,
        ResponseFormat::JsonSchema(JsonSchema {
            name: "Bare".to_string(),
            schema: Value::Null,
            strict: true,
        })
    );
}
