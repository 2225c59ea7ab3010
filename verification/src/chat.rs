//! The conversation as the agent framework keeps it, and its form for the provider.

use vstd::prelude::*;
use vstd::string::StringExecFns;

use serde_json::Value;

use crate::json::{compact_json, pretty_tool_calls, tool_calls_json};
use crate::provider::{Message, MessageRole, MessageView, ToolDefinitionView};
use crate::provider::{JsonSchema, ResponseFormat};
use crate::text::views;

verus! {

/// Who wrote a message.
#[derive(Debug, Clone, Copy, PartialEq, Eq, Structural)]
pub enum ChatRole {
    System,
    User,
    Assistant,
    Tool,
}

/// The function to call, with its arguments as JSON text.
#[derive(Debug, Clone, PartialEq, Eq)]
pub struct FunctionCall {
    pub name: String,
    pub arguments: String,
}

/// A call of a tool that the agent makes.
#[derive(Debug, Clone, PartialEq, Eq)]
pub struct ToolCall {
    pub id: String,
    pub call_type: String,
    pub function: FunctionCall,
}

pub struct ToolCallView {
    pub id: Seq<char>,
    pub call_type: Seq<char>,
    pub name: Seq<char>,
    pub arguments: Seq<char>,
}

impl View for ToolCall {
    type V = ToolCallView;

    open spec fn view(&self) -> ToolCallView {
        ToolCallView {
            id: self.id@,
            call_type: self.call_type@,
            name: self.function.name@,
            arguments: self.function.arguments@,
        }
    }
}

/// What a message carries besides its text. Pictures and documents are not sent on, so only
/// their presence is kept.
#[derive(Debug, Clone, PartialEq, Eq)]
pub enum MessageType {
    Text,
    Image,
    Pdf,
    ImageURL,
    ToolUse(Vec<ToolCall>),
    ToolResult(Vec<ToolCall>),
}

pub enum MessageTypeView {
    Text,
    Image,
    Pdf,
    ImageURL,
    ToolUse(Seq<ToolCallView>),
    ToolResult(Seq<ToolCallView>),
}

impl View for MessageType {
    type V = MessageTypeView;

    open spec fn view(&self) -> MessageTypeView {
        match self {
            MessageType::Text => MessageTypeView::Text,
            MessageType::Image => MessageTypeView::Image,
            MessageType::Pdf => MessageTypeView::Pdf,
            MessageType::ImageURL => MessageTypeView::ImageURL,
            MessageType::ToolUse(calls) => MessageTypeView::ToolUse(views(calls@)),
            MessageType::ToolResult(calls) => MessageTypeView::ToolResult(views(calls@)),
        }
    }
}

/// A message of the conversation.
#[derive(Debug, Clone, PartialEq, Eq)]
pub struct ChatMessage {
    pub role: ChatRole,
    pub message_type: MessageType,
    pub content: String,
}

pub struct ChatMessageView {
    pub role: ChatRole,
    pub message_type: MessageTypeView,
    pub content: Seq<char>,
}

impl View for ChatMessage {
    type V = ChatMessageView;

    open spec fn view(&self) -> ChatMessageView {
        ChatMessageView {
            role: self.role,
            message_type: self.message_type@,
            content: self.content@,
        }
    }
}

/// The role in the conversation of the author of a provider's message.
pub open spec fn chat_role(role: MessageRole) -> ChatRole {
    match role {
        MessageRole::System => ChatRole::System,
        MessageRole::User => ChatRole::User,
        MessageRole::Assistant => ChatRole::Assistant,
    }
}

/// A provider's message as a text message of the conversation.
pub open spec fn as_chat_message(message: MessageView) -> ChatMessageView {
    ChatMessageView {
        role: chat_role(message.role),
        message_type: MessageTypeView::Text,
        content: message.content,
    }
}

/// Takes a provider's message into the conversation.
pub fn convert_to_chat_message(msg: &Message) -> (chat: ChatMessage)
    ensures
        chat@ == as_chat_message(msg@),
        chat.content@ == msg.content@,
        chat.message_type is Text,
        msg.role is System ==> chat.role is System,
        msg.role is User ==> chat.role is User,
        msg.role is Assistant ==> chat.role is Assistant,
{
    let role = match msg.role {
        MessageRole::System => ChatRole::System,
        MessageRole::User => ChatRole::User,
        MessageRole::Assistant => ChatRole::Assistant,
    };
    ChatMessage { role, message_type: MessageType::Text, content: msg.content.clone() }
}

/// Takes a provider's messages into the conversation, in their order.
pub fn convert_messages(messages: &[Message]) -> (chat: Vec<ChatMessage>)
    ensures
        views(chat@) == views(messages@).map_values(|m: MessageView| as_chat_message(m)),
        chat@.len() == messages@.len(),
        forall|i: int|
            0 <= i < messages@.len() ==> {
                let message = messages@[i];
                &&& (#[trigger] chat@[i]).content@ == message.content@
                &&& chat@[i].message_type is Text
                &&& message.role is System ==> chat@[i].role is System
                &&& message.role is User ==> chat@[i].role is User
                &&& message.role is Assistant ==> chat@[i].role is Assistant
            },
{
    let mut chat: Vec<ChatMessage> = Vec::new();
    for i in 0..messages.len()
        invariant
            chat@.len() == i,
            forall|j: int| 0 <= j < i ==> (#[trigger] chat@[j])@ == as_chat_message(messages@[j]@),
            forall|j: int|
                0 <= j < i ==> (#[trigger] chat@[j]).content@ == messages@[j].content@
                    && chat@[j].message_type is Text,
    {
        chat.push(convert_to_chat_message(&messages[i]));
    }
    chat
}

/// The provider's role for an author in the conversation. Results of tools are handed to it as
/// messages of the user.
pub open spec fn provider_role(role: ChatRole) -> MessageRole {
    match role {
        ChatRole::System => MessageRole::System,
        ChatRole::User => MessageRole::User,
        ChatRole::Assistant => MessageRole::Assistant,
        ChatRole::Tool => MessageRole::User,
    }
}

/// The text of a message with a block of JSON below it: a heading line, then the JSON, or an empty
/// list where it could not be written. An empty line stands between the text and the heading,
/// unless the text is empty.
pub open spec fn with_json_block(
    content: Seq<char>,
    heading: Seq<char>,
    json: Option<Seq<char>>,
) -> Seq<char> {
    let json = match json {
        Some(json) => json,
        None => "[]"@,
    };
    if content.len() == 0 {
        heading + "\n"@ + json
    } else {
        content + "\n\n"@ + heading + "\n"@ + json
    }
}

/// The text of a message for the provider: its own, and below it the tool calls it carries.
pub open spec fn provider_content(message: ChatMessageView) -> Seq<char> {
    match message.message_type {
        MessageTypeView::ToolUse(calls) => with_json_block(
            message.content,
            "[Tool calls made]"@,
            Some(tool_calls_json(calls)),
        ),
        MessageTypeView::ToolResult(calls) => with_json_block(
            message.content,
            "[Tool results]"@,
            Some(tool_calls_json(calls)),
        ),
        _ => message.content,
    }
}

/// A message of the conversation as the provider gets it.
pub open spec fn as_provider_message(message: ChatMessageView) -> MessageView {
    MessageView { role: provider_role(message.role), content: provider_content(message) }
}

/// Adds a block of JSON below the text of a message; `None` stands for JSON that could not be
/// written.
pub fn add_json_block(content: &str, heading: &str, json: Option<&str>) -> (text: String)
    ensures
        text@ == with_json_block(
            content@,
            heading@,
            match json {
                Some(json) => Some(json@),
                None => None,
            },
        ),
{
    let json = match json {
        Some(json) => json,
        None => "[]",
    };
    let mut text = content.to_owned();
    if !content.is_empty() {
        text.append("\n\n");
    }
    text.append(heading);
    text.append("\n");
    text.append(json);
    proof {
        if content@.len() == 0 {
            assert(text@ =~= heading@ + "\n"@ + json@);
        }
    }
    text
}

fn add_tool_calls(content: &str, heading: &str, calls: &Vec<ToolCall>) -> (text: String)
    ensures
        text@ == with_json_block(content@, heading@, Some(tool_calls_json(views(calls@)))),
        calls@.len() == 0 ==> text@ == with_json_block(content@, heading@, Some("[]"@)),
{
    match pretty_tool_calls(calls) {
        Ok(json) => add_json_block(content, heading, Some(json.as_str())),
        Err(_) => add_json_block(content, heading, None),
    }
}

/// Turns a message of the conversation into one for the provider.
pub fn convert_to_provider_message(msg: &ChatMessage) -> (message: Message)
    ensures
        message@ == as_provider_message(msg@),
        msg@.message_type matches MessageTypeView::ToolUse(calls) && calls.len() == 0
            ==> message@.content == with_json_block(
            msg@.content,
            "[Tool calls made]"@,
            Some("[]"@),
        ),
        msg@.message_type matches MessageTypeView::ToolResult(calls) && calls.len() == 0
            ==> message@.content == with_json_block(msg@.content, "[Tool results]"@, Some("[]"@)),
        msg.role is System ==> message.role is System,
        msg.role is User || msg.role is Tool ==> message.role is User,
        msg.role is Assistant ==> message.role is Assistant,
        match msg.message_type {
            MessageType::ToolUse(calls) => message.content@ == if msg.content@.len() == 0 {
                "[Tool calls made]\n"@ + tool_calls_json(views(calls@))
            } else {
                msg.content@ + "\n\n[Tool calls made]\n"@ + tool_calls_json(views(calls@))
            },
            MessageType::ToolResult(calls) => message.content@ == if msg.content@.len() == 0 {
                "[Tool results]\n"@ + tool_calls_json(views(calls@))
            } else {
                msg.content@ + "\n\n[Tool results]\n"@ + tool_calls_json(views(calls@))
            },
            _ => message.content@ == msg.content@,
        },
{
    proof {
        law_message_reaches_the_provider(msg@);
    }
    let content = match &msg.message_type {
        MessageType::ToolUse(calls) => add_tool_calls(
            msg.content.as_str(),
            "[Tool calls made]",
            calls,
        ),
        MessageType::ToolResult(calls) => add_tool_calls(
            msg.content.as_str(),
            "[Tool results]",
            calls,
        ),
        MessageType::Text | MessageType::Image | MessageType::Pdf | MessageType::ImageURL => {
            msg.content.clone()
        },
    };
    let role = match msg.role {
        ChatRole::System => MessageRole::System,
        ChatRole::User => MessageRole::User,
        ChatRole::Assistant => MessageRole::Assistant,
        ChatRole::Tool => MessageRole::User,
    };
    Message { role, content }
}

/// The conversation as the provider gets it, message by message.
pub open spec fn as_provider_messages(messages: Seq<ChatMessageView>) -> Seq<MessageView> {
    messages.map_values(|m: ChatMessageView| as_provider_message(m))
}

/// Turns a conversation into messages for the provider, in their order.
pub fn convert_to_provider_messages(messages: &[ChatMessage]) -> (converted: Vec<Message>)
    ensures
        views(converted@) == as_provider_messages(views(messages@)),
        converted@.len() == messages@.len(),
{
    let mut converted: Vec<Message> = Vec::new();
    for i in 0..messages.len()
        invariant
            converted@.len() == i,
            forall|j: int|
                0 <= j < i ==> (#[trigger] converted@[j])@ == as_provider_message(messages@[j]@),
    {
        converted.push(convert_to_provider_message(&messages[i]));
    }
    converted
}

/// The function behind a tool of the agent, with the JSON schema of its parameters.
#[derive(Debug, Clone, PartialEq)]
pub struct FunctionTool {
    pub name: String,
    pub description: String,
    pub parameters: Value,
}

/// A tool of the agent.
#[derive(Debug, Clone, PartialEq)]
pub struct Tool {
    pub tool_type: String,
    pub function: FunctionTool,
}

/// A tool of the agent as it is offered to the model. The kind of the tool is not handed on: every
/// tool is offered as a function.
pub open spec fn as_tool_definition(tool: Tool) -> ToolDefinitionView {
    ToolDefinitionView {
        name: tool.function.name@,
        description: tool.function.description@,
        parameters: tool.function.parameters,
    }
}

/// The tools of the agent as they are offered to the model.
pub open spec fn as_tool_definitions(tools: Seq<Tool>) -> Seq<ToolDefinitionView> {
    tools.map_values(|tool: Tool| as_tool_definition(tool))
}

/// The form that the agent wants an answer in.
#[derive(Debug, Clone, PartialEq)]
pub struct StructuredOutputFormat {
    pub name: String,
    pub description: Option<String>,
    pub schema: Option<Value>,
    pub strict: Option<bool>,
}

/// Whether `format` asks the provider for what `wanted` describes: the same name and schema,
/// followed strictly unless `wanted` says otherwise. A missing schema becomes the JSON value
/// `null`; the description is not handed on.
pub open spec fn asks_for(format: ResponseFormat, wanted: StructuredOutputFormat) -> bool {
    let ResponseFormat::JsonSchema(asked) = format;
    &&& asked.name@ == wanted.name@
    &&& match wanted.schema {
        Some(schema) => asked.schema == schema,
        None => compact_json(asked.schema) == "null"@,
    }
    &&& asked.strict == (match wanted.strict {
        Some(strict) => strict,
        None => true,
    })
}

/// Turns the form that the agent wants into the provider's.
pub fn convert_output_format(wanted: StructuredOutputFormat) -> (format: ResponseFormat)
    ensures
        asks_for(format, wanted),
        match format {
            ResponseFormat::JsonSchema(asked) => {
                &&& asked.name@ == wanted.name@
                &&& wanted.schema is Some ==> asked.schema == wanted.schema->0
                &&& wanted.schema is None ==> compact_json(asked.schema) == "null"@
                &&& wanted.strict is Some ==> asked.strict == wanted.strict->0
                &&& wanted.strict is None ==> asked.strict
            },
        },
{
    let schema = match wanted.schema {
        Some(schema) => schema,
        None => Value::default(),
    };
    let strict = match wanted.strict {
        Some(strict) => strict,
        None => true,
    };
    ResponseFormat::JsonSchema(JsonSchema { name: wanted.name, schema, strict })
}

/// A provider's message that is taken into the conversation goes back to the provider unchanged.
pub proof fn law_provider_message_round_trip(message: MessageView)
    ensures
        as_provider_message(as_chat_message(message)) == message,
{
}

/// What a tool call and a message of the conversation are taken to be leaves out none of their
/// fields.
pub proof fn law_chat_views_are_complete(call: ToolCall, message: ChatMessage)
    ensures
        call@.id == call.id@,
        call@.call_type == call.call_type@,
        call@.name == call.function.name@,
        call@.arguments == call.function.arguments@,
        message@.role == message.role,
        message@.content == message.content@,
        match message.message_type {
            MessageType::Text => message@.message_type is Text,
            MessageType::Image => message@.message_type is Image,
            MessageType::Pdf => message@.message_type is Pdf,
            MessageType::ImageURL => message@.message_type is ImageURL,
            MessageType::ToolUse(calls) => message@.message_type matches MessageTypeView::ToolUse(
                seen,
            ) && seen.len() == calls@.len() && forall|i: int|
                0 <= i < calls@.len() ==> #[trigger] seen[i] == calls@[i]@,
            MessageType::ToolResult(calls) => message@.message_type
                matches MessageTypeView::ToolResult(seen) && seen.len() == calls@.len() && forall|
                i: int,
            |
                0 <= i < calls@.len() ==> #[trigger] seen[i] == calls@[i]@,
        },
{
}

/// A provider's message that is taken into the conversation is a text message in the same words,
/// by the same author.
pub proof fn law_message_enters_the_conversation(message: MessageView)
    ensures
        as_chat_message(message).content == message.content,
        as_chat_message(message).message_type is Text,
        as_chat_message(message).role is System <==> message.role is System,
        as_chat_message(message).role is User <==> message.role is User,
        as_chat_message(message).role is Assistant <==> message.role is Assistant,
{
}

/// A block of JSON stands at the end, below its heading, and the text of the message stands
/// unchanged at the start. Between the text and the heading there is an empty line, unless there
/// is no text. JSON that could not be written is an empty list.
pub proof fn law_json_block_stands_below_the_text(
    content: Seq<char>,
    heading: Seq<char>,
    json: Option<Seq<char>>,
)
    ensures
        json is Some ==> json->0.is_suffix_of(with_json_block(content, heading, json)),
        with_json_block(content, heading, None) == with_json_block(content, heading, Some("[]"@)),
        content.is_prefix_of(with_json_block(content, heading, json)),
        json is Some && content.len() == 0 ==> with_json_block(content, heading, json) == heading
            + seq!['\n'] + json->0,
        json is Some && content.len() > 0 ==> with_json_block(content, heading, json) == content
            + seq!['\n', '\n'] + heading + seq!['\n'] + json->0,
{
    reveal_strlit("\n");
    reveal_strlit("\n\n");
    assert("\n"@ =~= seq!['\n']);
    assert("\n\n"@ =~= seq!['\n', '\n']);
    let text = with_json_block(content, heading, json);
    assert(content =~= text.subrange(0, content.len() as int));
    if json is Some {
        assert(json->0 =~= text.subrange(text.len() - json->0.len(), text.len() as int));
    }
}

/// What the provider gets of a message. Its author is the same, a tool being heard as the user. A
/// message without tool calls is sent in its own words. One that made tool calls or brings results
/// is sent with exactly those calls as JSON at its end, below a heading that says which of the two
/// they are, and with its own words, if it has any, above.
pub proof fn law_message_reaches_the_provider(message: ChatMessageView)
    ensures
        as_provider_message(message).role is System <==> message.role is System,
        as_provider_message(message).role is Assistant <==> message.role is Assistant,
        as_provider_message(message).role is User <==> message.role is User || message.role is Tool,
        match message.message_type {
            MessageTypeView::ToolUse(calls) => {
                let sent = as_provider_message(message).content;
                let json = tool_calls_json(calls);
                &&& sent.skip(sent.len() - json.len()) == json
                &&& message.content.len() == 0 ==> sent == "[Tool calls made]\n"@ + json
                &&& message.content.len() > 0 ==> sent == message.content
                    + "\n\n[Tool calls made]\n"@ + json
            },
            MessageTypeView::ToolResult(calls) => {
                let sent = as_provider_message(message).content;
                let json = tool_calls_json(calls);
                &&& sent.skip(sent.len() - json.len()) == json
                &&& message.content.len() == 0 ==> sent == "[Tool results]\n"@ + json
                &&& message.content.len() > 0 ==> sent == message.content
                    + "\n\n[Tool results]\n"@ + json
            },
            _ => as_provider_message(message).content == message.content,
        },
{
    reveal_strlit("\n");
    reveal_strlit("\n\n");
    reveal_strlit("[Tool calls made]");
    reveal_strlit("[Tool calls made]\n");
    reveal_strlit("\n\n[Tool calls made]\n");
    reveal_strlit("[Tool results]");
    reveal_strlit("[Tool results]\n");
    reveal_strlit("\n\n[Tool results]\n");
    assert("[Tool calls made]\n"@ =~= "[Tool calls made]"@ + "\n"@);
    assert("\n\n[Tool calls made]\n"@ =~= "\n\n"@ + "[Tool calls made]"@ + "\n"@);
    assert("[Tool results]\n"@ =~= "[Tool results]"@ + "\n"@);
    assert("\n\n[Tool results]\n"@ =~= "\n\n"@ + "[Tool results]"@ + "\n"@);
    let sent = as_provider_message(message).content;
    match message.message_type {
        MessageTypeView::ToolUse(calls) => {
            let json = tool_calls_json(calls);
            assert(sent.skip(sent.len() - json.len()) =~= json);
            if message.content.len() > 0 {
                assert(sent =~= message.content + "\n\n[Tool calls made]\n"@ + json);
            }
        },
        MessageTypeView::ToolResult(calls) => {
            let json = tool_calls_json(calls);
            assert(sent.skip(sent.len() - json.len()) =~= json);
            if message.content.len() > 0 {
                assert(sent =~= message.content + "\n\n[Tool results]\n"@ + json);
            }
        },
        _ => {},
    }
}

/// The provider gets every message of a conversation, each in its place and as it would get it
/// alone.
pub proof fn law_conversation_reaches_the_provider(messages: Seq<ChatMessageView>)
    ensures
        as_provider_messages(messages).len() == messages.len(),
        forall|i: int|
            0 <= i < messages.len() ==> #[trigger] as_provider_messages(messages)[i]
                == as_provider_message(messages[i]),
{
}

/// Every tool is offered, in its place, under its own name, with its own description and
/// parameters.
pub proof fn law_tools_are_offered_as_they_are(tools: Seq<Tool>)
    ensures
        as_tool_definitions(tools).len() == tools.len(),
        forall|i: int|
            0 <= i < tools.len() ==> {
                let offered = #[trigger] as_tool_definitions(tools)[i];
                &&& offered.name == tools[i].function.name@
                &&& offered.description == tools[i].function.description@
                &&& offered.parameters == tools[i].function.parameters
            },
{
}

/// The provider is asked for the form that is wanted: under its name, with its schema, which is
/// `null` where none is given, and as strictly as is said, which is strictly where nothing is said.
pub proof fn law_wanted_form_is_asked_for(
    asked: JsonSchema,
    wanted: StructuredOutputFormat,
    strict: bool,
)
    requires
        asks_for(ResponseFormat::JsonSchema(asked), wanted),
    ensures
        asked.name@ == wanted.name@,
        wanted.schema is Some ==> asked.schema == wanted.schema->0,
        wanted.schema is None ==> compact_json(asked.schema) == "null"@,
        wanted.strict == Some(strict) ==> asked.strict == strict,
        wanted.strict is None ==> asked.strict,
{
}

} // verus!
