//! What the language model provider takes and gives.

use vstd::prelude::*;
use vstd::string::StringExecFns;

use serde_json::Value;

use crate::text::{joined, law_parts_are_joined, views};

verus! {

/// Who wrote a message, as the provider tells authors apart.
#[derive(Debug, Clone, Copy, PartialEq, Eq, Structural)]
pub enum MessageRole {
    System,
    User,
    Assistant,
}

/// A message as the provider takes it.
#[derive(Debug, Clone, PartialEq, Eq)]
pub struct Message {
    pub role: MessageRole,
    pub content: String,
}

pub struct MessageView {
    pub role: MessageRole,
    pub content: Seq<char>,
}

impl View for Message {
    type V = MessageView;

    open spec fn view(&self) -> MessageView {
        MessageView { role: self.role, content: self.content@ }
    }
}

/// A function that the model may call, with the JSON schema of its parameters.
#[derive(Debug, Clone, PartialEq)]
pub struct FunctionDefinition {
    pub name: String,
    pub description: String,
    pub parameters: Value,
}

/// A tool that is offered to the model.
#[derive(Debug, Clone, PartialEq)]
pub struct ToolDefinition {
    pub function: FunctionDefinition,
}

pub struct ToolDefinitionView {
    pub name: Seq<char>,
    pub description: Seq<char>,
    pub parameters: Value,
}

impl View for ToolDefinition {
    type V = ToolDefinitionView;

    open spec fn view(&self) -> ToolDefinitionView {
        ToolDefinitionView {
            name: self.function.name@,
            description: self.function.description@,
            parameters: self.function.parameters,
        }
    }
}

impl ToolDefinition {
    /// A tool that is a function of the given name.
    pub fn function(name: &str, description: &str, parameters: Value) -> (tool: Self)
        ensures
            tool@ == (ToolDefinitionView {
                name: name@,
                description: description@,
                parameters,
            }),
            tool.function.name@ == name@,
            tool.function.description@ == description@,
            tool.function.parameters == parameters,
    {
        ToolDefinition {
            function: FunctionDefinition {
                name: name.to_owned(),
                description: description.to_owned(),
                parameters,
            },
        }
    }
}

/// The JSON schema that an answer has to follow.
#[derive(Debug, Clone, PartialEq)]
pub struct JsonSchema {
    pub name: String,
    pub schema: Value,
    pub strict: bool,
}

/// The form that an answer has to take.
#[derive(Debug, Clone, PartialEq)]
pub enum ResponseFormat {
    JsonSchema(JsonSchema),
}

/// The function that the model wants to call, with its arguments as JSON text.
#[derive(Debug, Clone, PartialEq, Eq)]
pub struct NativeFunctionCall {
    pub name: String,
    pub arguments: String,
}

/// A tool call that the provider reports by itself, apart from the text of the answer.
#[derive(Debug, Clone, PartialEq, Eq)]
pub struct NativeToolCall {
    pub id: String,
    pub call_type: String,
    pub function: NativeFunctionCall,
}

pub struct NativeToolCallView {
    pub id: Seq<char>,
    pub call_type: Seq<char>,
    pub name: Seq<char>,
    pub arguments: Seq<char>,
}

impl View for NativeToolCall {
    type V = NativeToolCallView;

    open spec fn view(&self) -> NativeToolCallView {
        NativeToolCallView {
            id: self.id@,
            call_type: self.call_type@,
            name: self.function.name@,
            arguments: self.function.arguments@,
        }
    }
}

/// An answer of the provider.
#[derive(Debug, Clone, PartialEq, Eq)]
pub struct LLMResponse {
    pub content: String,
    pub tool_calls: Option<Vec<NativeToolCall>>,
    pub total_tokens: Option<usize>,
}

/// The contents of a list of native tool calls that may be missing.
pub open spec fn native_calls(calls: Option<Vec<NativeToolCall>>) -> Option<
    Seq<NativeToolCallView>,
> {
    match calls {
        Some(calls) => Some(views(calls@)),
        None => None,
    }
}

/// The names of the functions that are called, in order, separated by commas.
pub open spec fn called_names(calls: Seq<NativeToolCallView>) -> Seq<char> {
    joined(calls.map_values(|call: NativeToolCallView| call.name), ", "@)
}

/// Lists the names of the functions that are called, in order, separated by commas.
pub fn join_called_names(calls: &Vec<NativeToolCall>) -> (names: String)
    ensures
        names@ == called_names(views(calls@)),
{
    let mut names = String::new();
    let ghost all = views(calls@).map_values(|call: NativeToolCallView| call.name);
    proof {
        assert(all.take(0) =~= Seq::<Seq<char>>::empty());
    }
    for i in 0..calls.len()
        invariant
            all == views(calls@).map_values(|call: NativeToolCallView| call.name),
            names@ == joined(all.take(i as int), ", "@),
    {
        proof {
            assert(all.take(i + 1).drop_last() =~= all.take(i as int));
            assert(all.take(i + 1).last() == calls@[i as int]@.name);
        }
        if i > 0 {
            names.append(", ");
        }
        names.append(calls[i].function.name.as_str());
        proof {
            assert(names@ =~= joined(all.take(i + 1), ", "@));
        }
    }
    proof {
        assert(all.take(calls@.len() as int) =~= all);
    }
    names
}

/// What a message, a tool and a tool call are taken to be leaves out none of their fields.
pub proof fn law_provider_views_are_complete(
    message: Message,
    tool: ToolDefinition,
    call: NativeToolCall,
)
    ensures
        message@.role == message.role,
        message@.content == message.content@,
        tool@.name == tool.function.name@,
        tool@.description == tool.function.description@,
        tool@.parameters == tool.function.parameters,
        call@.id == call.id@,
        call@.call_type == call.call_type@,
        call@.name == call.function.name@,
        call@.arguments == call.function.arguments@,
{
}

/// A list of native tool calls holds its calls in order, and a missing list is none.
pub proof fn law_native_calls_are_those_in_the_list(calls: Vec<NativeToolCall>)
    ensures
        native_calls(None) is None,
        native_calls(Some(calls)) is Some,
        native_calls(Some(calls))->0.len() == calls@.len(),
        forall|i: int|
            0 <= i < calls@.len() ==> #[trigger] native_calls(Some(calls))->0[i] == calls@[i]@,
{
}

/// No calls have no names, one call has the name of its function, and the names of two lists of
/// calls stand one after the other with a comma and a space in between.
pub proof fn law_names_are_listed_in_order(
    call: NativeToolCallView,
    first: Seq<NativeToolCallView>,
    second: Seq<NativeToolCallView>,
)
    ensures
        called_names(Seq::empty()) == Seq::<char>::empty(),
        called_names(seq![call]) == call.name,
        first.len() > 0 && second.len() > 0 ==> called_names(first + second) == called_names(first)
            + ", "@ + called_names(second),
{
    let name = |call: NativeToolCallView| call.name;
    assert(Seq::<NativeToolCallView>::empty().map_values(name) =~= Seq::<Seq<char>>::empty());
    assert(seq![call].map_values(name) =~= seq![call.name]);
    assert((first + second).map_values(name) =~= first.map_values(name) + second.map_values(name));
    law_parts_are_joined(call.name, first.map_values(name), second.map_values(name), ", "@);
}

} // verus!
