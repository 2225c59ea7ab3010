//! Tool calls that the model writes into the text of its answer, as a JSON object.
//!
//! Whoever reads the text hands over the shape of the JSON in it: the members of an object with
//! their names, in order and with none left out, or the items of a list. What a member of an
//! unknown name holds need not be read: it makes no difference.

use vstd::prelude::*;

use serde_json::Value;

use crate::json::{compact_json, to_compact_json};
use crate::text::text_is;

verus! {

/// A value in a tool call. Only text and objects matter; the other kinds are told apart from them.
#[derive(Debug, Clone, PartialEq)]
pub enum FieldValue {
    Null,
    Text(String),
    Object(Value),
    /// A number, a truth value or a list.
    Other,
}

/// A member of the object that describes a tool call.
#[derive(Debug, Clone, PartialEq)]
pub struct ToolCallMember {
    pub key: String,
    pub value: FieldValue,
}

/// A value in an answer.
#[derive(Debug, Clone, PartialEq)]
pub enum ReplyValue {
    Null,
    Text(String),
    Object(Vec<ToolCallMember>),
    List(Vec<FieldValue>),
    /// A number or a truth value.
    Other,
}

/// A member of the object that an answer is.
#[derive(Debug, Clone, PartialEq)]
pub struct ReplyMember {
    pub key: String,
    pub value: ReplyValue,
}

/// The JSON that an answer is.
#[derive(Debug, Clone, PartialEq)]
pub enum ReplySource {
    Object(Vec<ReplyMember>),
    List(Vec<ReplyValue>),
    /// Text, a number, a truth value or `null`.
    Other,
}

/// JSON that is no answer with a tool call or without one.
#[derive(Debug, Clone, Copy, PartialEq, Eq, Structural)]
pub struct InvalidReply;

/// A tool call that the model wrote.
#[derive(Debug, Clone, PartialEq, Eq)]
pub struct CodeGraphToolCall {
    pub tool_name: String,
    /// The parameters as JSON text.
    pub parameters_json: String,
}

pub struct CodeGraphToolCallView {
    pub tool_name: Seq<char>,
    pub parameters_json: Seq<char>,
}

impl View for CodeGraphToolCall {
    type V = CodeGraphToolCallView;

    open spec fn view(&self) -> CodeGraphToolCallView {
        CodeGraphToolCallView {
            tool_name: self.tool_name@,
            parameters_json: self.parameters_json@,
        }
    }
}

/// An answer in which the model may think aloud and may call a tool.
#[derive(Debug, Clone, PartialEq, Eq)]
pub struct CodeGraphLLMResponse {
    pub reasoning: Option<String>,
    pub tool_call: Option<CodeGraphToolCall>,
}

pub struct CodeGraphLLMResponseView {
    pub reasoning: Option<Seq<char>>,
    pub tool_call: Option<CodeGraphToolCallView>,
}

impl View for CodeGraphLLMResponse {
    type V = CodeGraphLLMResponseView;

    open spec fn view(&self) -> CodeGraphLLMResponseView {
        CodeGraphLLMResponseView {
            reasoning: match self.reasoning {
                Some(reasoning) => Some(reasoning@),
                None => None,
            },
            tool_call: match self.tool_call {
                Some(call) => Some(call@),
                None => None,
            },
        }
    }
}

/// The names that the name of the tool goes by.
pub open spec fn names_the_tool(key: Seq<char>) -> bool {
    key == "tool_name"@ || key == "name"@ || key == "function"@ || key == "tool"@
}

/// The names that the parameters of the tool go by.
pub open spec fn names_the_parameters(key: Seq<char>) -> bool {
    key == "parameters_json"@ || key == "parameters"@ || key == "arguments"@ || key == "args"@
}

/// What a member of a tool call is about.
#[derive(Debug, Clone, Copy, PartialEq, Eq, Structural)]
pub enum ToolCallField {
    ToolName,
    Parameters,
    Unknown,
}

/// What a member of a tool call with the given name is about.
pub open spec fn tool_call_field_of(key: Seq<char>) -> ToolCallField {
    if names_the_tool(key) {
        ToolCallField::ToolName
    } else if names_the_parameters(key) {
        ToolCallField::Parameters
    } else {
        ToolCallField::Unknown
    }
}

/// Tells what a member of a tool call is about by its name.
pub fn tool_call_field(key: &String) -> (field: ToolCallField)
    ensures
        field == tool_call_field_of(key@),
{
    if text_is(key, "tool_name") || text_is(key, "name") || text_is(key, "function") || text_is(
        key,
        "tool",
    ) {
        ToolCallField::ToolName
    } else if text_is(key, "parameters_json") || text_is(key, "parameters") || text_is(
        key,
        "arguments",
    ) || text_is(key, "args") {
        ToolCallField::Parameters
    } else {
        ToolCallField::Unknown
    }
}

/// What a member of an answer is about.
#[derive(Debug, Clone, Copy, PartialEq, Eq, Structural)]
pub enum ReplyField {
    Reasoning,
    ToolCall,
    Unknown,
}

/// What a member of an answer with the given name is about.
pub open spec fn reply_field_of(key: Seq<char>) -> ReplyField {
    if key == "reasoning"@ {
        ReplyField::Reasoning
    } else if key == "tool_call"@ {
        ReplyField::ToolCall
    } else {
        ReplyField::Unknown
    }
}

/// Tells what a member of an answer is about by its name.
pub fn reply_field(key: &String) -> (field: ReplyField)
    ensures
        field == reply_field_of(key@),
{
    if text_is(key, "reasoning") {
        ReplyField::Reasoning
    } else if text_is(key, "tool_call") {
        ReplyField::ToolCall
    } else {
        ReplyField::Unknown
    }
}

/// The parameters of a tool call as JSON text: text as it stands, an object as it is written
/// without spaces. Other kinds of values are no parameters.
pub open spec fn parameters_text(value: FieldValue) -> Option<Seq<char>> {
    match value {
        FieldValue::Text(text) => Some(text@),
        FieldValue::Object(object) => Some(compact_json(object)),
        FieldValue::Null | FieldValue::Other => None,
    }
}

/// Gives the parameters of a tool call as JSON text, whether the model wrote them as text or as an
/// object; it fails on nothing else than the other kinds of values.
pub fn deserialize_parameters(value: FieldValue) -> (text: Result<String, InvalidReply>)
    ensures
        match text {
            Ok(text) => parameters_text(value) == Some(text@),
            Err(_) => parameters_text(value) is None,
        },
        text is Ok <==> value is Text || value is Object,
        match (value, text) {
            (FieldValue::Text(given), Ok(text)) => text@ == given@,
            (FieldValue::Object(given), Ok(text)) => text@ == compact_json(given),
            _ => true,
        },
{
    match value {
        FieldValue::Text(text) => Ok(text),
        FieldValue::Object(object) => match to_compact_json(&object) {
            Ok(text) => Ok(text),
            Err(_) => Err(InvalidReply),
        },
        FieldValue::Null | FieldValue::Other => Err(InvalidReply),
    }
}

/// The tool call with the given name and parameters, if the name is text and the parameters are
/// some.
pub open spec fn tool_call_of(name: FieldValue, parameters: FieldValue) -> Option<
    CodeGraphToolCallView,
> {
    match (name, parameters_text(parameters)) {
        (FieldValue::Text(name), Some(parameters)) => Some(
            CodeGraphToolCallView { tool_name: name@, parameters_json: parameters },
        ),
        _ => None,
    }
}

/// The members of a tool call that are about `field`, in order.
pub open spec fn tool_call_members(
    members: Seq<ToolCallMember>,
    field: ToolCallField,
) -> Seq<ToolCallMember> {
    members.filter(|member: ToolCallMember| tool_call_field_of(member.key@) == field)
}

/// The tool call that an object describes: one member names the tool, one gives the parameters,
/// and the others do not matter.
pub open spec fn tool_call_in_object(members: Seq<ToolCallMember>) -> Option<
    CodeGraphToolCallView,
> {
    let names = tool_call_members(members, ToolCallField::ToolName);
    let parameters = tool_call_members(members, ToolCallField::Parameters);
    if names.len() == 1 && parameters.len() == 1 {
        tool_call_of(names[0].value, parameters[0].value)
    } else {
        None
    }
}

/// The tool call that a list describes: the name, then the parameters.
pub open spec fn tool_call_in_list(items: Seq<FieldValue>) -> Option<CodeGraphToolCallView> {
    if items.len() == 2 {
        tool_call_of(items[0], items[1])
    } else {
        None
    }
}

fn make_tool_call(name: FieldValue, parameters: FieldValue) -> (call: Result<
    CodeGraphToolCall,
    InvalidReply,
>)
    ensures
        match call {
            Ok(call) => tool_call_of(name, parameters) == Some(call@),
            Err(_) => tool_call_of(name, parameters) is None,
        },
{
    match name {
        FieldValue::Text(tool_name) => match deserialize_parameters(parameters) {
            Ok(parameters_json) => Ok(CodeGraphToolCall { tool_name, parameters_json }),
            Err(_) => Err(InvalidReply),
        },
        _ => Err(InvalidReply),
    }
}

proof fn lemma_filter_step<A>(items: Seq<A>, n: int, pred: spec_fn(A) -> bool)
    requires
        0 <= n < items.len(),
    ensures
        items.take(n + 1).filter(pred) == (if pred(items[n]) {
            items.take(n).filter(pred).push(items[n])
        } else {
            items.take(n).filter(pred)
        }),
{
    reveal(Seq::filter);
    assert(items.take(n + 1).drop_last() =~= items.take(n));
}

proof fn lemma_filter_prefix<A>(items: Seq<A>, n: int, pred: spec_fn(A) -> bool)
    requires
        0 <= n <= items.len(),
    ensures
        items.take(n).filter(pred).len() <= items.filter(pred).len(),
    decreases items.len() - n,
{
    if n < items.len() {
        lemma_filter_step(items, n, pred);
        lemma_filter_prefix(items, n + 1, pred);
    } else {
        assert(items.take(n) =~= items);
    }
}

/// Whether `found` is the value of the only one of `members`, or `None` and there is none.
spec fn is_only_value(found: Option<FieldValue>, members: Seq<ToolCallMember>) -> bool {
    match found {
        Some(value) => members.len() == 1 && members[0].value == value,
        None => members.len() == 0,
    }
}

/// Reads the tool call that an object describes.
pub fn decode_tool_call_object(members: Vec<ToolCallMember>) -> (call: Result<
    CodeGraphToolCall,
    InvalidReply,
>)
    ensures
        match call {
            Ok(call) => tool_call_in_object(members@) == Some(call@),
            Err(_) => tool_call_in_object(members@) is None,
        },
{
    let mut tool_name: Option<FieldValue> = None;
    let mut parameters: Option<FieldValue> = None;
    let ghost all = members@;
    let ghost is_name = |member: ToolCallMember|
        tool_call_field_of(member.key@) == ToolCallField::ToolName;
    let ghost is_parameters = |member: ToolCallMember|
        tool_call_field_of(member.key@) == ToolCallField::Parameters;
    proof {
        reveal(Seq::filter);
        assert(all.take(0).filter(is_name).len() == 0);
        assert(all.take(0).filter(is_parameters).len() == 0);
    }
    for member in rest: members
        invariant
            rest.seq() == all,
            is_name == (|member: ToolCallMember|
                tool_call_field_of(member.key@) == ToolCallField::ToolName),
            is_parameters == (|member: ToolCallMember|
                tool_call_field_of(member.key@) == ToolCallField::Parameters),
            is_only_value(tool_name, all.take(rest.index() as int).filter(is_name)),
            is_only_value(parameters, all.take(rest.index() as int).filter(is_parameters)),
    {
        proof {
            let n = rest.index() as int;
            lemma_filter_step(all, n, is_name);
            lemma_filter_step(all, n, is_parameters);
            lemma_filter_prefix(all, n + 1, is_name);
            lemma_filter_prefix(all, n + 1, is_parameters);
        }
        match tool_call_field(&member.key) {
            ToolCallField::ToolName => {
                if tool_name.is_some() {
                    return Err(InvalidReply);
                }
                tool_name = Some(member.value);
            },
            ToolCallField::Parameters => {
                if parameters.is_some() {
                    return Err(InvalidReply);
                }
                parameters = Some(member.value);
            },
            ToolCallField::Unknown => {},
        }
    }
    proof {
        assert(all.take(all.len() as int) =~= all);
        assert(tool_call_members(all, ToolCallField::ToolName) == all.filter(is_name));
        assert(tool_call_members(all, ToolCallField::Parameters) == all.filter(is_parameters));
    }
    match (tool_name, parameters) {
        (Some(tool_name), Some(parameters)) => make_tool_call(tool_name, parameters),
        _ => Err(InvalidReply),
    }
}

/// Reads the tool call that a list describes.
pub fn decode_tool_call_list(items: Vec<FieldValue>) -> (call: Result<
    CodeGraphToolCall,
    InvalidReply,
>)
    ensures
        match call {
            Ok(call) => tool_call_in_list(items@) == Some(call@),
            Err(_) => tool_call_in_list(items@) is None,
        },
{
    let mut items = items;
    if items.len() != 2 {
        return Err(InvalidReply);
    }
    let parameters = items.pop();
    let tool_name = items.pop();
    match (tool_name, parameters) {
        (Some(tool_name), Some(parameters)) => make_tool_call(tool_name, parameters),
        _ => Err(InvalidReply),
    }
}

/// The reasoning that a value gives: text, or `null` for none. `None` where the value is neither.
pub open spec fn reasoning_of(value: ReplyValue) -> Option<Option<Seq<char>>> {
    match value {
        ReplyValue::Null => Some(None),
        ReplyValue::Text(text) => Some(Some(text@)),
        _ => None,
    }
}

/// The tool call that a value gives: an object or a list, or `null` for none. `None` where the
/// value is no tool call.
pub open spec fn tool_call_in(value: ReplyValue) -> Option<Option<CodeGraphToolCallView>> {
    let call = match value {
        ReplyValue::Object(members) => tool_call_in_object(members@),
        ReplyValue::List(items) => tool_call_in_list(items@),
        _ => None,
    };
    if value is Null {
        Some(None)
    } else if call is Some {
        Some(call)
    } else {
        None
    }
}

/// The answer with the given reasoning and tool call, either of which may be missing.
pub open spec fn reply_with(
    reasoning: Option<ReplyValue>,
    tool_call: Option<ReplyValue>,
) -> Option<CodeGraphLLMResponseView> {
    let reasoning = match reasoning {
        Some(value) => reasoning_of(value),
        None => Some(None),
    };
    let tool_call = match tool_call {
        Some(value) => tool_call_in(value),
        None => Some(None),
    };
    match (reasoning, tool_call) {
        (Some(reasoning), Some(tool_call)) => Some(
            CodeGraphLLMResponseView { reasoning, tool_call },
        ),
        _ => None,
    }
}

/// The members of an answer that are about `field`, in order.
pub open spec fn reply_members(members: Seq<ReplyMember>, field: ReplyField) -> Seq<ReplyMember> {
    members.filter(|member: ReplyMember| reply_field_of(member.key@) == field)
}

/// The value of the first of the members, if there is one.
pub open spec fn first_value(members: Seq<ReplyMember>) -> Option<ReplyValue> {
    if members.len() > 0 {
        Some(members[0].value)
    } else {
        None
    }
}

/// The answer that an object is: at most one member is the reasoning, at most one is the tool
/// call, and the others do not matter.
pub open spec fn reply_in_object(members: Seq<ReplyMember>) -> Option<CodeGraphLLMResponseView> {
    let reasoning = reply_members(members, ReplyField::Reasoning);
    let tool_call = reply_members(members, ReplyField::ToolCall);
    if reasoning.len() <= 1 && tool_call.len() <= 1 {
        reply_with(first_value(reasoning), first_value(tool_call))
    } else {
        None
    }
}

/// The answer that a list is: the reasoning, then the tool call, as far as they are there.
pub open spec fn reply_in_list(items: Seq<ReplyValue>) -> Option<CodeGraphLLMResponseView> {
    if items.len() <= 2 {
        reply_with(
            if items.len() > 0 {
                Some(items[0])
            } else {
                None
            },
            if items.len() > 1 {
                Some(items[1])
            } else {
                None
            },
        )
    } else {
        None
    }
}

/// The answer that a piece of JSON is, if it is one.
pub open spec fn reply_in(source: ReplySource) -> Option<CodeGraphLLMResponseView> {
    match source {
        ReplySource::Object(members) => reply_in_object(members@),
        ReplySource::List(items) => reply_in_list(items@),
        ReplySource::Other => None,
    }
}

fn decode_reasoning(value: ReplyValue) -> (reasoning: Result<Option<String>, InvalidReply>)
    ensures
        match reasoning {
            Ok(Some(text)) => reasoning_of(value) == Some(Some(text@)),
            Ok(None) => reasoning_of(value) == Some(None::<Seq<char>>),
            Err(_) => reasoning_of(value) is None,
        },
{
    match value {
        ReplyValue::Null => Ok(None),
        ReplyValue::Text(text) => Ok(Some(text)),
        _ => Err(InvalidReply),
    }
}

fn decode_tool_call(value: ReplyValue) -> (call: Result<Option<CodeGraphToolCall>, InvalidReply>)
    ensures
        match call {
            Ok(Some(call)) => tool_call_in(value) == Some(Some(call@)),
            Ok(None) => tool_call_in(value) == Some(None::<CodeGraphToolCallView>),
            Err(_) => tool_call_in(value) is None,
        },
{
    let call = match value {
        ReplyValue::Null => {
            return Ok(None);
        },
        ReplyValue::Object(members) => decode_tool_call_object(members),
        ReplyValue::List(items) => decode_tool_call_list(items),
        _ => Err(InvalidReply),
    };
    match call {
        Ok(call) => Ok(Some(call)),
        Err(_) => Err(InvalidReply),
    }
}

fn make_reply(reasoning: Option<ReplyValue>, tool_call: Option<ReplyValue>) -> (reply: Result<
    CodeGraphLLMResponse,
    InvalidReply,
>)
    ensures
        match reply {
            Ok(reply) => reply_with(reasoning, tool_call) == Some(reply@),
            Err(_) => reply_with(reasoning, tool_call) is None,
        },
{
    let reasoning = match reasoning {
        Some(value) => decode_reasoning(value),
        None => Ok(None),
    };
    let tool_call = match tool_call {
        Some(value) => decode_tool_call(value),
        None => Ok(None),
    };
    match (reasoning, tool_call) {
        (Ok(reasoning), Ok(tool_call)) => Ok(CodeGraphLLMResponse { reasoning, tool_call }),
        _ => Err(InvalidReply),
    }
}

/// Reads the answer that an object is.
pub fn decode_reply_object(members: Vec<ReplyMember>) -> (reply: Result<
    CodeGraphLLMResponse,
    InvalidReply,
>)
    ensures
        match reply {
            Ok(reply) => reply_in_object(members@) == Some(reply@),
            Err(_) => reply_in_object(members@) is None,
        },
{
    let mut reasoning: Option<ReplyValue> = None;
    let mut tool_call: Option<ReplyValue> = None;
    let ghost all = members@;
    let ghost is_reasoning = |member: ReplyMember|
        reply_field_of(member.key@) == ReplyField::Reasoning;
    let ghost is_tool_call = |member: ReplyMember|
        reply_field_of(member.key@) == ReplyField::ToolCall;
    proof {
        reveal(Seq::filter);
        assert(all.take(0).filter(is_reasoning).len() == 0);
        assert(all.take(0).filter(is_tool_call).len() == 0);
    }
    for member in rest: members
        invariant
            rest.seq() == all,
            is_reasoning == (|member: ReplyMember|
                reply_field_of(member.key@) == ReplyField::Reasoning),
            is_tool_call == (|member: ReplyMember|
                reply_field_of(member.key@) == ReplyField::ToolCall),
            all.take(rest.index() as int).filter(is_reasoning).len() <= 1,
            all.take(rest.index() as int).filter(is_tool_call).len() <= 1,
            reasoning == first_value(all.take(rest.index() as int).filter(is_reasoning)),
            tool_call == first_value(all.take(rest.index() as int).filter(is_tool_call)),
    {
        proof {
            let n = rest.index() as int;
            lemma_filter_step(all, n, is_reasoning);
            lemma_filter_step(all, n, is_tool_call);
            lemma_filter_prefix(all, n + 1, is_reasoning);
            lemma_filter_prefix(all, n + 1, is_tool_call);
        }
        match reply_field(&member.key) {
            ReplyField::Reasoning => {
                if reasoning.is_some() {
                    return Err(InvalidReply);
                }
                reasoning = Some(member.value);
            },
            ReplyField::ToolCall => {
                if tool_call.is_some() {
                    return Err(InvalidReply);
                }
                tool_call = Some(member.value);
            },
            ReplyField::Unknown => {},
        }
    }
    proof {
        assert(all.take(all.len() as int) =~= all);
        assert(reply_members(all, ReplyField::Reasoning) == all.filter(is_reasoning));
        assert(reply_members(all, ReplyField::ToolCall) == all.filter(is_tool_call));
    }
    make_reply(reasoning, tool_call)
}

/// Reads the answer that a list is.
pub fn decode_reply_list(items: Vec<ReplyValue>) -> (reply: Result<
    CodeGraphLLMResponse,
    InvalidReply,
>)
    ensures
        match reply {
            Ok(reply) => reply_in_list(items@) == Some(reply@),
            Err(_) => reply_in_list(items@) is None,
        },
{
    let mut items = items;
    if items.len() > 2 {
        return Err(InvalidReply);
    }
    let tool_call = if items.len() == 2 {
        items.pop()
    } else {
        None
    };
    let reasoning = items.pop();
    make_reply(reasoning, tool_call)
}

/// Reads the answer that a piece of JSON is.
pub fn decode_reply(source: ReplySource) -> (reply: Result<CodeGraphLLMResponse, InvalidReply>)
    ensures
        match reply {
            Ok(reply) => reply_in(source) == Some(reply@),
            Err(_) => reply_in(source) is None,
        },
{
    match source {
        ReplySource::Object(members) => decode_reply_object(members),
        ReplySource::List(items) => decode_reply_list(items),
        ReplySource::Other => Err(InvalidReply),
    }
}

proof fn lemma_filter_around<A>(before: Seq<A>, item: A, after: Seq<A>, pred: spec_fn(A) -> bool)
    ensures
        (before + seq![item] + after).filter(pred) == before.filter(pred) + (if pred(item) {
            seq![item]
        } else {
            Seq::<A>::empty()
        }) + after.filter(pred),
{
    Seq::filter_distributes_over_add(before + seq![item], after, pred);
    Seq::filter_distributes_over_add(before, seq![item], pred);
    reveal(Seq::filter);
    assert(seq![item].drop_last() =~= Seq::<A>::empty());
    assert(Seq::<A>::empty().filter(pred) =~= Seq::<A>::empty());
    assert(seq![item].filter(pred) =~= (if pred(item) {
        seq![item]
    } else {
        Seq::<A>::empty()
    }));
}

proof fn lemma_filter_swapped<A>(
    before: Seq<A>,
    first: A,
    second: A,
    after: Seq<A>,
    pred: spec_fn(A) -> bool,
)
    ensures
        ({
            let one = (before + seq![first, second] + after).filter(pred);
            let other = (before + seq![second, first] + after).filter(pred);
            &&& one.len() == other.len()
            &&& one.len() <= 1 ==> one == other
        }),
{
    assert(before + seq![first, second] + after =~= before + seq![first] + (seq![second] + after));
    assert(before + seq![second, first] + after =~= before + seq![second] + (seq![first] + after));
    assert(seq![second] + after =~= Seq::empty() + seq![second] + after);
    assert(seq![first] + after =~= Seq::empty() + seq![first] + after);
    lemma_filter_around(before, first, seq![second] + after, pred);
    lemma_filter_around(before, second, seq![first] + after, pred);
    lemma_filter_around(Seq::empty(), second, after, pred);
    lemma_filter_around(Seq::empty(), first, after, pred);
    reveal(Seq::filter);
    assert(Seq::<A>::empty().filter(pred) =~= Seq::<A>::empty());
    let one = (before + seq![first, second] + after).filter(pred);
    let other = (before + seq![second, first] + after).filter(pred);
    if one.len() <= 1 {
        assert(one =~= other);
    }
}

/// A member of a tool call that is about nothing known makes no difference.
pub proof fn law_unknown_tool_call_members_are_ignored(
    before: Seq<ToolCallMember>,
    member: ToolCallMember,
    after: Seq<ToolCallMember>,
)
    requires
        !names_the_tool(member.key@),
        !names_the_parameters(member.key@),
    ensures
        tool_call_in_object(before + seq![member] + after) == tool_call_in_object(before + after),
{
    let is_name = |m: ToolCallMember| tool_call_field_of(m.key@) == ToolCallField::ToolName;
    let is_parameters = |m: ToolCallMember|
        tool_call_field_of(m.key@) == ToolCallField::Parameters;
    lemma_filter_around(before, member, after, is_name);
    lemma_filter_around(before, member, after, is_parameters);
    Seq::filter_distributes_over_add(before, after, is_name);
    Seq::filter_distributes_over_add(before, after, is_parameters);
    assert((before + seq![member] + after).filter(is_name) =~= (before + after).filter(is_name));
    assert((before + seq![member] + after).filter(is_parameters) =~= (before + after).filter(
        is_parameters,
    ));
}

/// The name of the tool, and its parameters, may each go by any of their names.
pub proof fn law_names_of_a_field_are_interchangeable(
    before: Seq<ToolCallMember>,
    member: ToolCallMember,
    renamed: ToolCallMember,
    after: Seq<ToolCallMember>,
)
    requires
        member.value == renamed.value,
        names_the_tool(member.key@) && names_the_tool(renamed.key@) || names_the_parameters(
            member.key@,
        ) && names_the_parameters(renamed.key@),
    ensures
        tool_call_in_object(before + seq![member] + after) == tool_call_in_object(
            before + seq![renamed] + after,
        ),
{
    lemma_field_names_are_distinct(member.key@);
    lemma_field_names_are_distinct(renamed.key@);
    let is_name = |m: ToolCallMember| tool_call_field_of(m.key@) == ToolCallField::ToolName;
    let is_parameters = |m: ToolCallMember|
        tool_call_field_of(m.key@) == ToolCallField::Parameters;
    lemma_filter_around(before, member, after, is_name);
    lemma_filter_around(before, member, after, is_parameters);
    lemma_filter_around(before, renamed, after, is_name);
    lemma_filter_around(before, renamed, after, is_parameters);
    assert(tool_call_members(before + seq![member] + after, ToolCallField::ToolName).len()
        == tool_call_members(before + seq![renamed] + after, ToolCallField::ToolName).len());
    assert(tool_call_members(before + seq![member] + after, ToolCallField::Parameters).len()
        == tool_call_members(before + seq![renamed] + after, ToolCallField::Parameters).len());
}

proof fn lemma_field_names_are_distinct(key: Seq<char>)
    ensures
        !(names_the_tool(key) && names_the_parameters(key)),
{
    reveal_strlit("tool_name");
    reveal_strlit("name");
    reveal_strlit("function");
    reveal_strlit("tool");
    reveal_strlit("parameters_json");
    reveal_strlit("parameters");
    reveal_strlit("arguments");
    reveal_strlit("args");
    if names_the_tool(key) && names_the_parameters(key) {
        assert(key[0] == 'p' || key[0] == 'a');
        assert(key[0] == 't' || key[0] == 'n' || key[0] == 'f');
    }
}

/// The order of the members of a tool call makes no difference.
pub proof fn law_order_of_tool_call_members_is_free(
    before: Seq<ToolCallMember>,
    first: ToolCallMember,
    second: ToolCallMember,
    after: Seq<ToolCallMember>,
)
    ensures
        tool_call_in_object(before + seq![first, second] + after) == tool_call_in_object(
            before + seq![second, first] + after,
        ),
{
    let is_name = |m: ToolCallMember| tool_call_field_of(m.key@) == ToolCallField::ToolName;
    let is_parameters = |m: ToolCallMember|
        tool_call_field_of(m.key@) == ToolCallField::Parameters;
    lemma_filter_swapped(before, first, second, after, is_name);
    lemma_filter_swapped(before, first, second, after, is_parameters);
}

/// A member of an answer that is about nothing known makes no difference.
pub proof fn law_unknown_reply_members_are_ignored(
    before: Seq<ReplyMember>,
    member: ReplyMember,
    after: Seq<ReplyMember>,
)
    requires
        member.key@ != "reasoning"@,
        member.key@ != "tool_call"@,
    ensures
        reply_in_object(before + seq![member] + after) == reply_in_object(before + after),
{
    let is_reasoning = |m: ReplyMember| reply_field_of(m.key@) == ReplyField::Reasoning;
    let is_tool_call = |m: ReplyMember| reply_field_of(m.key@) == ReplyField::ToolCall;
    lemma_filter_around(before, member, after, is_reasoning);
    lemma_filter_around(before, member, after, is_tool_call);
    Seq::filter_distributes_over_add(before, after, is_reasoning);
    Seq::filter_distributes_over_add(before, after, is_tool_call);
    assert((before + seq![member] + after).filter(is_reasoning) =~= (before + after).filter(
        is_reasoning,
    ));
    assert((before + seq![member] + after).filter(is_tool_call) =~= (before + after).filter(
        is_tool_call,
    ));
}

/// The order of the members of an answer makes no difference.
pub proof fn law_order_of_reply_members_is_free(
    before: Seq<ReplyMember>,
    first: ReplyMember,
    second: ReplyMember,
    after: Seq<ReplyMember>,
)
    ensures
        reply_in_object(before + seq![first, second] + after) == reply_in_object(
            before + seq![second, first] + after,
        ),
{
    let is_reasoning = |m: ReplyMember| reply_field_of(m.key@) == ReplyField::Reasoning;
    let is_tool_call = |m: ReplyMember| reply_field_of(m.key@) == ReplyField::ToolCall;
    lemma_filter_swapped(before, first, second, after, is_reasoning);
    lemma_filter_swapped(before, first, second, after, is_tool_call);
}

/// Whatever names the model uses for the two fields of a tool call, the call carries the name that
/// it gave and its parameters as text: text unchanged, an object as it is written without spaces.
/// A name that is text and parameters that are text or an object always make a call.
pub proof fn law_tool_call_is_read(name: ToolCallMember, parameters: ToolCallMember)
    requires
        names_the_tool(name.key@),
        names_the_parameters(parameters.key@),
    ensures
        tool_call_in_object(seq![name, parameters]) == tool_call_of(name.value, parameters.value),
        tool_call_in_object(seq![name, parameters]) is Some <==> name.value is Text && (
        parameters.value is Text || parameters.value is Object),
{
    lemma_field_names_are_distinct(name.key@);
    lemma_field_names_are_distinct(parameters.key@);
    let is_name = |m: ToolCallMember| tool_call_field_of(m.key@) == ToolCallField::ToolName;
    let is_parameters = |m: ToolCallMember|
        tool_call_field_of(m.key@) == ToolCallField::Parameters;
    let none = Seq::<ToolCallMember>::empty();
    assert(seq![name, parameters] =~= seq![name] + seq![parameters]);
    assert(seq![name] =~= none + seq![name] + none);
    assert(seq![parameters] =~= none + seq![parameters] + none);
    reveal(Seq::filter);
    lemma_filter_around(none, name, none, is_name);
    lemma_filter_around(none, name, none, is_parameters);
    lemma_filter_around(none, parameters, none, is_name);
    lemma_filter_around(none, parameters, none, is_parameters);
    Seq::filter_distributes_over_add(seq![name], seq![parameters], is_name);
    Seq::filter_distributes_over_add(seq![name], seq![parameters], is_parameters);
    assert(none.filter(is_name) =~= none);
    assert(none.filter(is_parameters) =~= none);
}

proof fn lemma_filter_none<A>(items: Seq<A>, pred: spec_fn(A) -> bool)
    requires
        forall|k: int| 0 <= k < items.len() ==> !pred(#[trigger] items[k]),
    ensures
        items.filter(pred) == Seq::<A>::empty(),
    decreases items.len(),
{
    reveal(Seq::filter);
    if items.len() > 0 {
        lemma_filter_none(items.drop_last(), pred);
    }
}

proof fn lemma_filter_only<A>(items: Seq<A>, place: int, pred: spec_fn(A) -> bool)
    requires
        0 <= place < items.len(),
        forall|k: int| 0 <= k < items.len() ==> (pred(#[trigger] items[k]) <==> k == place),
    ensures
        items.filter(pred) == seq![items[place]],
{
    let before = items.take(place);
    let after = items.skip(place + 1);
    assert(items =~= before + seq![items[place]] + after);
    lemma_filter_around(before, items[place], after, pred);
    lemma_filter_none(before, pred);
    assert forall|k: int| 0 <= k < after.len() implies !pred(#[trigger] after[k]) by {
        assert(after[k] == items[place + 1 + k]);
    }
    lemma_filter_none(after, pred);
}

proof fn lemma_filter_two<A>(items: Seq<A>, i: int, j: int, pred: spec_fn(A) -> bool)
    requires
        0 <= i < j < items.len(),
        pred(items[i]),
        pred(items[j]),
    ensures
        items.filter(pred).len() >= 2,
{
    let front = items.take(j);
    assert(items =~= front + seq![items[j]] + items.skip(j + 1));
    lemma_filter_around(front, items[j], items.skip(j + 1), pred);
    assert(front =~= front.take(i) + seq![front[i]] + front.skip(i + 1));
    lemma_filter_around(front.take(i), front[i], front.skip(i + 1), pred);
}

/// What a tool call and an answer are taken to be leaves out none of their fields.
pub proof fn law_reply_views_are_complete(call: CodeGraphToolCall, reply: CodeGraphLLMResponse)
    ensures
        call@.tool_name == call.tool_name@,
        call@.parameters_json == call.parameters_json@,
        match reply.reasoning {
            Some(reasoning) => reply@.reasoning == Some(reasoning@),
            None => reply@.reasoning is None,
        },
        match reply.tool_call {
            Some(call) => reply@.tool_call == Some(call@),
            None => reply@.tool_call is None,
        },
{
}

/// Each field goes by its own names and by no others.
pub proof fn law_fields_go_by_their_names_alone(key: Seq<char>)
    ensures
        names_the_tool(key) <==> seq!["tool_name"@, "name"@, "function"@, "tool"@].contains(key),
        names_the_parameters(key) <==> seq![
            "parameters_json"@,
            "parameters"@,
            "arguments"@,
            "args"@,
        ].contains(key),
        tool_call_field_of(key) is ToolName <==> names_the_tool(key),
        tool_call_field_of(key) is Parameters <==> names_the_parameters(key),
        reply_field_of(key) is Reasoning <==> key == "reasoning"@,
        reply_field_of(key) is ToolCall <==> key == "tool_call"@,
{
    lemma_field_names_are_distinct(key);
    lemma_reply_names_are_distinct();
    let tool = seq!["tool_name"@, "name"@, "function"@, "tool"@];
    let parameters = seq!["parameters_json"@, "parameters"@, "arguments"@, "args"@];
    assert(tool[0] == "tool_name"@ && tool[1] == "name"@ && tool[2] == "function"@ && tool[3]
        == "tool"@);
    assert(parameters[0] == "parameters_json"@ && parameters[1] == "parameters"@ && parameters[2]
        == "arguments"@ && parameters[3] == "args"@);
}

proof fn lemma_reply_names_are_distinct()
    ensures
        "reasoning"@ != "tool_call"@,
{
    reveal_strlit("reasoning");
    reveal_strlit("tool_call");
    assert("reasoning"@[0] == 'r');
    assert("tool_call"@[0] == 't');
}

/// Parameters that are text are that text, character for character and however long it is; an
/// object is its JSON; nothing else is parameters.
pub proof fn law_parameters_are_kept(text: String, object: Value)
    ensures
        parameters_text(FieldValue::Text(text)) == Some(text@),
        parameters_text(FieldValue::Object(object)) == Some(compact_json(object)),
        parameters_text(FieldValue::Null) is None,
        parameters_text(FieldValue::Other) is None,
{
}

/// Where one member of an object names the tool and one gives its parameters, whatever else the
/// object holds and in whatever order, the call carries the very text of the name, and with it the
/// very text of the parameters or the JSON of the object that they are. A name that is no text, or
/// parameters that are neither, make no call.
pub proof fn law_tool_call_carries_its_fields(
    members: Seq<ToolCallMember>,
    name: int,
    parameters: int,
)
    requires
        0 <= name < members.len(),
        0 <= parameters < members.len(),
        forall|k: int|
            0 <= k < members.len() ==> (names_the_tool((#[trigger] members[k]).key@) <==> k
                == name),
        forall|k: int|
            0 <= k < members.len() ==> (names_the_parameters((#[trigger] members[k]).key@) <==> k
                == parameters),
    ensures
        match (members[name].value, members[parameters].value) {
            (FieldValue::Text(tool), FieldValue::Text(text)) => {
                &&& tool_call_in_object(members) is Some
                &&& tool_call_in_object(members)->0.tool_name == tool@
                &&& tool_call_in_object(members)->0.parameters_json == text@
            },
            (FieldValue::Text(tool), FieldValue::Object(object)) => {
                &&& tool_call_in_object(members) is Some
                &&& tool_call_in_object(members)->0.tool_name == tool@
                &&& tool_call_in_object(members)->0.parameters_json == compact_json(object)
            },
            _ => tool_call_in_object(members) is None,
        },
{
    let is_name = |m: ToolCallMember| tool_call_field_of(m.key@) == ToolCallField::ToolName;
    let is_parameters = |m: ToolCallMember|
        tool_call_field_of(m.key@) == ToolCallField::Parameters;
    assert forall|k: int| 0 <= k < members.len() implies (is_name(#[trigger] members[k]) <==> k
        == name) && (is_parameters(members[k]) <==> k == parameters) by {
        lemma_field_names_are_distinct(members[k].key@);
    }
    lemma_filter_only(members, name, is_name);
    lemma_filter_only(members, parameters, is_parameters);
}

/// An object in which the name of the tool or its parameters are missing, or are given twice, is
/// no tool call.
pub proof fn law_tool_call_needs_each_field_once(members: Seq<ToolCallMember>, i: int, j: int)
    requires
        ({
            ||| forall|k: int|
                0 <= k < members.len() ==> !names_the_tool((#[trigger] members[k]).key@)
            ||| forall|k: int|
                0 <= k < members.len() ==> !names_the_parameters((#[trigger] members[k]).key@)
            ||| 0 <= i < j < members.len() && names_the_tool(members[i].key@) && names_the_tool(
                members[j].key@,
            )
            ||| 0 <= i < j < members.len() && names_the_parameters(members[i].key@)
                && names_the_parameters(members[j].key@)
        }),
    ensures
        tool_call_in_object(members) is None,
{
    let is_name = |m: ToolCallMember| tool_call_field_of(m.key@) == ToolCallField::ToolName;
    let is_parameters = |m: ToolCallMember|
        tool_call_field_of(m.key@) == ToolCallField::Parameters;
    if forall|k: int| 0 <= k < members.len() ==> !names_the_tool((#[trigger] members[k]).key@) {
        lemma_filter_none(members, is_name);
    } else if forall|k: int|
        0 <= k < members.len() ==> !names_the_parameters((#[trigger] members[k]).key@) {
        lemma_filter_none(members, is_parameters);
    } else if names_the_tool(members[i].key@) && names_the_tool(members[j].key@) {
        lemma_filter_two(members, i, j, is_name);
    } else {
        lemma_field_names_are_distinct(members[i].key@);
        lemma_field_names_are_distinct(members[j].key@);
        lemma_filter_two(members, i, j, is_parameters);
    }
}

/// A list says the same as an object that gives the name of the tool and then the parameters,
/// under any of their names. A list of any other length is no tool call.
pub proof fn law_tool_call_may_be_a_list(items: Seq<FieldValue>, members: Seq<ToolCallMember>)
    requires
        items.len() == 2 ==> {
            &&& members.len() == 2
            &&& names_the_tool(members[0].key@) && members[0].value == items[0]
            &&& names_the_parameters(members[1].key@) && members[1].value == items[1]
        },
    ensures
        items.len() == 2 ==> tool_call_in_list(items) == tool_call_in_object(members),
        items.len() != 2 ==> tool_call_in_list(items) is None,
{
    if items.len() == 2 {
        assert(members =~= seq![members[0], members[1]]);
        law_tool_call_is_read(members[0], members[1]);
    }
}

/// What is read of an object in which the reasoning and the tool call each stand at one place or
/// at none. It is an answer where the reasoning, if there is any, is text or `null` and the tool
/// call, if there is any, is one or is `null`. The answer then has the very text of the reasoning
/// and that tool call.
pub proof fn law_reply_carries_its_fields(
    members: Seq<ReplyMember>,
    reasoning: Option<int>,
    tool_call: Option<int>,
)
    requires
        reasoning is Some ==> 0 <= reasoning->0 < members.len(),
        tool_call is Some ==> 0 <= tool_call->0 < members.len(),
        forall|k: int|
            0 <= k < members.len() ==> ((#[trigger] members[k]).key@ == "reasoning"@ <==> reasoning
                == Some(k)),
        forall|k: int|
            0 <= k < members.len() ==> ((#[trigger] members[k]).key@ == "tool_call"@ <==> tool_call
                == Some(k)),
    ensures
        reply_in_object(members) is Some <==> {
            &&& reasoning is None || members[reasoning->0].value is Null
                || members[reasoning->0].value is Text
            &&& tool_call is None || match members[tool_call->0].value {
                ReplyValue::Null => true,
                ReplyValue::Object(fields) => tool_call_in_object(fields@) is Some,
                ReplyValue::List(items) => tool_call_in_list(items@) is Some,
                _ => false,
            }
        },
        reply_in_object(members) is Some ==> {
            let reply = reply_in_object(members)->0;
            &&& reasoning is None ==> reply.reasoning is None
            &&& reasoning is Some ==> match members[reasoning->0].value {
                ReplyValue::Text(text) => reply.reasoning == Some(text@),
                _ => reply.reasoning is None,
            }
            &&& tool_call is None ==> reply.tool_call is None
            &&& tool_call is Some ==> match members[tool_call->0].value {
                ReplyValue::Object(fields) => reply.tool_call == tool_call_in_object(fields@),
                ReplyValue::List(items) => reply.tool_call == tool_call_in_list(items@),
                _ => reply.tool_call is None,
            }
        },
{
    lemma_reply_names_are_distinct();
    let is_reasoning = |m: ReplyMember| reply_field_of(m.key@) == ReplyField::Reasoning;
    let is_tool_call = |m: ReplyMember| reply_field_of(m.key@) == ReplyField::ToolCall;
    match reasoning {
        Some(place) => lemma_filter_only(members, place, is_reasoning),
        None => lemma_filter_none(members, is_reasoning),
    }
    match tool_call {
        Some(place) => lemma_filter_only(members, place, is_tool_call),
        None => lemma_filter_none(members, is_tool_call),
    }
}

/// An object in which the reasoning or the tool call is given twice is no answer.
pub proof fn law_reply_has_each_field_once(members: Seq<ReplyMember>, i: int, j: int)
    requires
        0 <= i < j < members.len(),
        members[i].key@ == members[j].key@,
        members[i].key@ == "reasoning"@ || members[i].key@ == "tool_call"@,
    ensures
        reply_in_object(members) is None,
{
    lemma_reply_names_are_distinct();
    let is_reasoning = |m: ReplyMember| reply_field_of(m.key@) == ReplyField::Reasoning;
    let is_tool_call = |m: ReplyMember| reply_field_of(m.key@) == ReplyField::ToolCall;
    if members[i].key@ == "reasoning"@ {
        lemma_filter_two(members, i, j, is_reasoning);
    } else {
        lemma_filter_two(members, i, j, is_tool_call);
    }
}

/// A list says the same as an object that gives the reasoning and then the tool call, as far as
/// the list goes. A longer list is no answer.
pub proof fn law_reply_may_be_a_list(items: Seq<ReplyValue>, members: Seq<ReplyMember>)
    requires
        items.len() <= 2 ==> {
            &&& members.len() == items.len()
            &&& items.len() > 0 ==> members[0].key@ == "reasoning"@ && members[0].value == items[0]
            &&& items.len() > 1 ==> members[1].key@ == "tool_call"@ && members[1].value == items[1]
        },
    ensures
        items.len() <= 2 ==> reply_in_list(items) == reply_in_object(members),
        items.len() > 2 ==> reply_in_list(items) is None,
{
    if items.len() <= 2 {
        lemma_reply_names_are_distinct();
        let is_reasoning = |m: ReplyMember| reply_field_of(m.key@) == ReplyField::Reasoning;
        let is_tool_call = |m: ReplyMember| reply_field_of(m.key@) == ReplyField::ToolCall;
        if items.len() > 0 {
            lemma_filter_only(members, 0, is_reasoning);
        } else {
            lemma_filter_none(members, is_reasoning);
        }
        if items.len() > 1 {
            lemma_filter_only(members, 1, is_tool_call);
        } else {
            lemma_filter_none(members, is_tool_call);
        }
    }
}

/// An answer is an object or a list; other JSON is none.
pub proof fn law_replies_are_objects_or_lists(members: Vec<ReplyMember>, items: Vec<ReplyValue>)
    ensures
        reply_in(ReplySource::Object(members)) == reply_in_object(members@),
        reply_in(ReplySource::List(items)) == reply_in_list(items@),
        reply_in(ReplySource::Other) is None,
{
}

} // verus!
