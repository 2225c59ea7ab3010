//! The answers of the model as the agent reads them.

use vstd::prelude::*;
use vstd::string::StringExecFns;

use crate::chat::{FunctionCall, ToolCall, ToolCallView};
use crate::provider::{called_names, join_called_names, native_calls};
use crate::provider::{NativeToolCall, NativeToolCallView};
use crate::reply::{decode_reply, reply_in, ReplyMember, ReplySource, ReplyValue};
use crate::reply::{law_reply_carries_its_fields, law_tool_call_carries_its_fields};
use crate::reply::{names_the_parameters, names_the_tool, FieldValue, ToolCallMember};
use crate::reply::{CodeGraphLLMResponseView, CodeGraphToolCallView};
use crate::text::{decimal, decimal_text, law_decimal_is_injective, views};

verus! {

/// The identifiers of the tool calls that are read from the text of answers.
#[derive(Debug, Clone, Copy, PartialEq, Eq, Structural)]
pub struct ToolCallCounter {
    /// The number in the next identifier.
    pub next: u64,
}

/// The number that is given out after `number`. After the largest one comes zero.
pub open spec fn number_after(number: u64) -> u64 {
    if number == u64::MAX {
        0
    } else {
        (number + 1) as u64
    }
}

/// The identifier with the given number.
pub open spec fn call_id(number: u64) -> Seq<char> {
    "call_"@ + decimal(number as nat)
}

impl ToolCallCounter {
    /// A counter that has given out no identifier yet.
    pub fn new() -> (counter: Self)
        ensures
            counter.next == 0,
    {
        ToolCallCounter { next: 0 }
    }

    /// Gives out the next identifier.
    pub fn next_id(&mut self) -> (id: String)
        ensures
            id@ == call_id(old(self).next),
            final(self).next == number_after(old(self).next),
    {
        let number = self.next;
        self.next = number.wrapping_add(1);
        let mut id = "call_".to_owned();
        id.append(decimal_text(number as u128).as_str());
        id
    }
}

/// What the agent thought and did in a step, for those who follow its work.
#[derive(Debug, Clone, PartialEq, Eq)]
pub struct ReasoningStep {
    pub thought: String,
    pub action: Option<String>,
}

pub struct ReasoningStepView {
    pub thought: Seq<char>,
    pub action: Option<Seq<char>>,
}

impl View for ReasoningStep {
    type V = ReasoningStepView;

    open spec fn view(&self) -> ReasoningStepView {
        ReasoningStepView {
            thought: self.thought@,
            action: match self.action {
                Some(action) => Some(action@),
                None => None,
            },
        }
    }
}

/// Numbers the steps that an answer is read as.
#[derive(Debug, Clone, Copy, PartialEq, Eq, Structural)]
pub struct ReasoningStepCounter {
    /// The number of the next step.
    pub next: u64,
}

impl ReasoningStepCounter {
    /// A counter whose first step is number one.
    pub fn new() -> (counter: Self)
        ensures
            counter.next == 1,
    {
        ReasoningStepCounter { next: 1 }
    }

    /// The number of a step, where there is one. A reading that is no step gets no number and uses
    /// up none.
    pub fn number_step(&mut self, step: &Option<ReasoningStep>) -> (number: Option<u64>)
        ensures
            number == (match *step {
                Some(_) => Some(old(self).next),
                None => None,
            }),
            final(self).next == (match *step {
                Some(_) => number_after(old(self).next),
                None => old(self).next,
            }),
    {
        match step {
            Some(_) => {
                let number = self.next;
                self.next = number.wrapping_add(1);
                Some(number)
            },
            None => None,
        }
    }
}

/// A tool call that the provider reported as one of the agent, field by field.
pub open spec fn as_tool_call(call: NativeToolCallView) -> ToolCallView {
    ToolCallView {
        id: call.id,
        call_type: call.call_type,
        name: call.name,
        arguments: call.arguments,
    }
}

/// The tool call of the agent for one that the model wrote, under the identifier with the given
/// number.
pub open spec fn as_written_call(call: CodeGraphToolCallView, number: u64) -> ToolCallView {
    ToolCallView {
        id: call_id(number),
        call_type: "function"@,
        name: call.tool_name,
        arguments: call.parameters_json,
    }
}

/// The answer that is in the text, where the text is JSON and the JSON is an answer.
pub open spec fn reply_in_text(source: Option<ReplySource>) -> Option<CodeGraphLLMResponseView> {
    match source {
        Some(source) => reply_in(source),
        None => None,
    }
}

/// The tool call that the model wrote into the text, if it wrote one.
pub open spec fn call_in_text(source: Option<ReplySource>) -> Option<CodeGraphToolCallView> {
    match reply_in_text(source) {
        Some(reply) => reply.tool_call,
        None => None,
    }
}

/// Whether the provider reported tool calls by itself. If it did, the text is not looked into.
pub open spec fn reports_calls(native: Option<Seq<NativeToolCallView>>) -> bool {
    match native {
        Some(calls) => calls.len() > 0,
        None => false,
    }
}

/// The tool calls of an answer, or `None` where it calls for none and the agent is done: those
/// that the provider reported, else the one that the model wrote into the text.
pub open spec fn calls_of(
    native: Option<Seq<NativeToolCallView>>,
    source: Option<ReplySource>,
    number: u64,
) -> Option<Seq<ToolCallView>> {
    if reports_calls(native) {
        Some(native->0.map_values(|call: NativeToolCallView| as_tool_call(call)))
    } else {
        match call_in_text(source) {
            Some(call) => Some(seq![as_written_call(call, number)]),
            None => None,
        }
    }
}

/// The step that an answer is, where it is one: of native tool calling, else what the text says.
pub open spec fn step_of(
    native: Option<Seq<NativeToolCallView>>,
    source: Option<ReplySource>,
) -> Option<ReasoningStepView> {
    if reports_calls(native) {
        Some(
            ReasoningStepView {
                thought: "Native tool calling"@,
                action: Some(called_names(native->0)),
            },
        )
    } else {
        match reply_in_text(source) {
            Some(reply) => Some(
                ReasoningStepView {
                    thought: match reply.reasoning {
                        Some(reasoning) => reasoning,
                        None => ""@,
                    },
                    action: match reply.tool_call {
                        Some(call) => Some(call.tool_name),
                        None => None,
                    },
                },
            ),
            None => None,
        }
    }
}

/// The contents of a list of tool calls that may be missing.
pub open spec fn tool_call_views(calls: Option<Vec<ToolCall>>) -> Option<Seq<ToolCallView>> {
    match calls {
        Some(calls) => Some(views(calls@)),
        None => None,
    }
}

/// The contents of a step that may be missing.
pub open spec fn step_view(step: Option<ReasoningStep>) -> Option<ReasoningStepView> {
    match step {
        Some(step) => Some(step@),
        None => None,
    }
}

fn convert_native_calls(native: &Vec<NativeToolCall>) -> (calls: Vec<ToolCall>)
    ensures
        views(calls@) == views(native@).map_values(
            |call: NativeToolCallView| as_tool_call(call),
        ),
        calls@.len() == native@.len(),
        forall|i: int|
            0 <= i < native@.len() ==> {
                &&& (#[trigger] calls@[i]).id@ == native@[i].id@
                &&& calls@[i].call_type@ == native@[i].call_type@
                &&& calls@[i].function.name@ == native@[i].function.name@
                &&& calls@[i].function.arguments@ == native@[i].function.arguments@
            },
{
    let mut calls: Vec<ToolCall> = Vec::new();
    for i in 0..native.len()
        invariant
            calls@.len() == i,
            forall|j: int| 0 <= j < i ==> (#[trigger] calls@[j])@ == as_tool_call(native@[j]@),
            forall|j: int|
                0 <= j < i ==> {
                    &&& (#[trigger] calls@[j]).id@ == native@[j].id@
                    &&& calls@[j].call_type@ == native@[j].call_type@
                    &&& calls@[j].function.name@ == native@[j].function.name@
                    &&& calls@[j].function.arguments@ == native@[j].function.arguments@
                },
    {
        let call = &native[i];
        calls.push(
            ToolCall {
                id: call.id.clone(),
                call_type: call.call_type.clone(),
                function: FunctionCall {
                    name: call.function.name.clone(),
                    arguments: call.function.arguments.clone(),
                },
            },
        );
    }
    calls
}

/// An answer of the model.
#[derive(Debug, Clone, PartialEq, Eq)]
pub struct CodeGraphChatResponse {
    pub content: String,
    /// Tool calls that the provider reports by itself.
    pub tool_calls: Option<Vec<NativeToolCall>>,
    pub total_tokens: usize,
}

impl CodeGraphChatResponse {
    /// The text of the answer.
    pub fn text(&self) -> (text: Option<String>)
        ensures
            match text {
                Some(text) => text@ == self.content@,
                None => false,
            },
    {
        Some(self.content.clone())
    }

    /// Whether the provider reported tool calls by itself.
    pub fn has_native_calls(&self) -> (has: bool)
        ensures
            has == reports_calls(native_calls(self.tool_calls)),
            has <==> self.tool_calls is Some && self.tool_calls->0@.len() > 0,
    {
        match &self.tool_calls {
            Some(calls) => calls.len() > 0,
            None => false,
        }
    }

    /// The tool calls that the answer asks for, and the step that it is. `source` is the JSON that
    /// the text is, or `None` where it is none; it does not matter where the provider reported tool
    /// calls. An identifier is taken from `ids` for a call that the model wrote into the text, and
    /// only then.
    pub fn tool_calls(&self, source: Option<ReplySource>, ids: &mut ToolCallCounter) -> (read: (
        Option<Vec<ToolCall>>,
        Option<ReasoningStep>,
    ))
        ensures
            tool_call_views(read.0) == calls_of(
                native_calls(self.tool_calls),
                source,
                old(ids).next,
            ),
            step_view(read.1) == step_of(native_calls(self.tool_calls), source),
            final(ids).next == (if !reports_calls(native_calls(self.tool_calls))
                && call_in_text(source) is Some {
                number_after(old(ids).next)
            } else {
                old(ids).next
            }),
            self.tool_calls is Some && self.tool_calls->0@.len() > 0 ==> {
                let native = self.tool_calls->0@;
                &&& read.0 is Some
                &&& read.0->0@.len() == native.len()
                &&& forall|i: int|
                    0 <= i < native.len() ==> {
                        let call = #[trigger] read.0->0@[i];
                        &&& call.id@ == native[i].id@
                        &&& call.call_type@ == native[i].call_type@
                        &&& call.function.name@ == native[i].function.name@
                        &&& call.function.arguments@ == native[i].function.arguments@
                    }
            },
    {
        if let Some(native) = &self.tool_calls {
            if native.len() > 0 {
                let step = ReasoningStep {
                    thought: "Native tool calling".to_owned(),
                    action: Some(join_called_names(native)),
                };
                return (Some(convert_native_calls(native)), Some(step));
            }
        }
        let reply = match source {
            Some(source) => decode_reply(source),
            None => {
                return (None, None);
            },
        };
        match reply {
            Ok(reply) => {
                let thought = match reply.reasoning {
                    Some(reasoning) => reasoning,
                    None => "".to_owned(),
                };
                match reply.tool_call {
                    Some(call) => {
                        let step = ReasoningStep { thought, action: Some(call.tool_name.clone()) };
                        let mut calls: Vec<ToolCall> = Vec::new();
                        calls.push(
                            ToolCall {
                                id: ids.next_id(),
                                call_type: "function".to_owned(),
                                function: FunctionCall {
                                    name: call.tool_name,
                                    arguments: call.parameters_json,
                                },
                            },
                        );
                        proof {
                            assert(views(calls@) =~= seq![calls@[0]@]);
                        }
                        (Some(calls), Some(step))
                    },
                    None => (None, Some(ReasoningStep { thought, action: None })),
                }
            },
            Err(_) => (None, None),
        }
    }
}

/// Identifiers with different numbers are different.
pub proof fn law_call_ids_are_unique(a: u64, b: u64)
    requires
        a != b,
    ensures
        call_id(a) != call_id(b),
{
    if call_id(a) == call_id(b) {
        let prefix = "call_"@;
        assert(decimal(a as nat) =~= call_id(a).skip(prefix.len() as int));
        assert(decimal(b as nat) =~= call_id(b).skip(prefix.len() as int));
        law_decimal_is_injective(a as nat, b as nat);
    }
}

/// The number that a counter gives out after `given` others.
pub open spec fn number_given(start: u64, given: nat) -> u64
    decreases given,
{
    if given == 0 {
        start
    } else {
        number_after(number_given(start, (given - 1) as nat))
    }
}

proof fn lemma_number_given(start: u64, given: nat)
    ensures
        number_given(start, given) as int == (start + given) % (u64::MAX + 1),
    decreases given,
{
    if given > 0 {
        lemma_number_given(start, (given - 1) as nat);
    }
}

/// Steps are numbered one after the other: a counter that starts at one gives its n-th step the
/// number n, as long as there are numbers left.
pub proof fn law_reasoning_steps_are_counted(steps: nat)
    requires
        steps < u64::MAX,
    ensures
        number_given(1, steps) == steps + 1,
{
    lemma_number_given(1, steps);
}

/// A counter gives out no identifier twice before it has given out every one of them.
pub proof fn law_counter_does_not_repeat(start: u64, earlier: nat, later: nat)
    requires
        earlier < later,
        later - earlier <= u64::MAX,
    ensures
        call_id(number_given(start, earlier)) != call_id(number_given(start, later)),
{
    lemma_number_given(start, earlier);
    lemma_number_given(start, later);
    law_call_ids_are_unique(number_given(start, earlier), number_given(start, later));
}

/// Where the provider reports tool calls, they are the tool calls of the answer, whatever its text
/// says.
pub proof fn law_native_calls_come_first(
    native: Option<Seq<NativeToolCallView>>,
    source: Option<ReplySource>,
    other: Option<ReplySource>,
    number: u64,
)
    requires
        reports_calls(native),
    ensures
        calls_of(native, source, number) == calls_of(native, other, number),
        calls_of(native, source, number)->0.len() == native->0.len(),
{
}

/// An answer without native tool calls whose text is no JSON answer calls for nothing.
pub proof fn law_plain_text_calls_nothing(
    native: Option<Seq<NativeToolCallView>>,
    source: Option<ReplySource>,
    number: u64,
)
    requires
        !reports_calls(native),
        reply_in_text(source) is None,
    ensures
        calls_of(native, source, number) is None,
        step_of(native, source) is None,
{
}

/// What a step is taken to be, and what lists of tool calls and steps that may be missing are
/// taken to be, leaves out nothing.
pub proof fn law_response_views_are_complete(step: ReasoningStep, calls: Vec<ToolCall>)
    ensures
        step@.thought == step.thought@,
        match step.action {
            Some(action) => step@.action == Some(action@),
            None => step@.action is None,
        },
        step_view(None) is None,
        step_view(Some(step)) == Some(step@),
        tool_call_views(None) is None,
        tool_call_views(Some(calls)) is Some,
        tool_call_views(Some(calls))->0.len() == calls@.len(),
        forall|i: int|
            0 <= i < calls@.len() ==> #[trigger] tool_call_views(Some(calls))->0[i] == calls@[i]@,
{
}

/// Numbers are given out one after the other, and the largest is followed by zero.
pub proof fn law_numbers_follow_each_other(number: u64)
    ensures
        number < u64::MAX ==> number_after(number) == number + 1,
        number_after(u64::MAX) == 0,
{
}

/// An identifier is made of a fixed word and, after it, the decimal notation of its number.
pub proof fn law_call_id_shows_its_number(number: u64)
    ensures
        call_id(number).take(5) == seq!['c', 'a', 'l', 'l', '_'],
        call_id(number).skip(5) == decimal(number as nat),
{
    reveal_strlit("call_");
    assert(call_id(number).take(5) =~= seq!['c', 'a', 'l', 'l', '_']);
    assert(call_id(number).skip(5) =~= decimal(number as nat));
}

/// The provider has reported tool calls where its list of them is there and is not empty.
pub proof fn law_an_empty_list_reports_nothing(native: Seq<NativeToolCallView>)
    ensures
        reports_calls(Some(native)) <==> native.len() > 0,
        !reports_calls(None),
{
}

/// Where the provider reports tool calls, the agent gets each of them in its place, with the same
/// identifier, type, name and arguments, whatever these are and whatever the text says. The step
/// lists the names.
pub proof fn law_native_calls_are_handed_on(
    native: Seq<NativeToolCallView>,
    source: Option<ReplySource>,
    number: u64,
)
    requires
        native.len() > 0,
    ensures
        calls_of(Some(native), source, number) is Some,
        calls_of(Some(native), source, number)->0.len() == native.len(),
        forall|i: int|
            0 <= i < native.len() ==> {
                let call = #[trigger] calls_of(Some(native), source, number)->0[i];
                &&& call.id == native[i].id
                &&& call.call_type == native[i].call_type
                &&& call.name == native[i].name
                &&& call.arguments == native[i].arguments
            },
        step_of(Some(native), source) is Some,
        step_of(Some(native), source)->0.thought == "Native tool calling"@,
        step_of(Some(native), source)->0.action == Some(called_names(native)),
{
}

/// Where the provider reports no tool calls and the text is an answer, the tool call in it, if it
/// has one, is the only call: a function under the next identifier, with the name and the
/// parameters that the model wrote. The step has the reasoning, or no words where there is none,
/// and the name of the tool that is called, if one is.
pub proof fn law_written_answer_is_followed(
    native: Option<Seq<NativeToolCallView>>,
    source: ReplySource,
    reply: CodeGraphLLMResponseView,
    number: u64,
)
    requires
        native is None || native->0.len() == 0,
        reply_in(source) == Some(reply),
    ensures
        reply.tool_call is None ==> calls_of(native, Some(source), number) is None,
        reply.tool_call is Some ==> {
            let calls = calls_of(native, Some(source), number);
            &&& calls is Some
            &&& calls->0.len() == 1
            &&& calls->0[0].id == "call_"@ + decimal(number as nat)
            &&& calls->0[0].call_type == "function"@
            &&& calls->0[0].name == reply.tool_call->0.tool_name
            &&& calls->0[0].arguments == reply.tool_call->0.parameters_json
        },
        call_in_text(Some(source)) == reply.tool_call,
        step_of(native, Some(source)) is Some,
        reply.reasoning is Some ==> step_of(native, Some(source))->0.thought == reply.reasoning->0,
        reply.reasoning is None ==> step_of(native, Some(source))->0.thought.len() == 0,
        reply.tool_call is Some ==> step_of(native, Some(source))->0.action == Some(
            reply.tool_call->0.tool_name,
        ),
        reply.tool_call is None ==> step_of(native, Some(source))->0.action is None,
{
    reveal_strlit("");
}

/// A text that is no JSON, or JSON that is no answer, holds no tool call.
pub proof fn law_other_text_holds_no_call(source: Option<ReplySource>)
    requires
        source is None || reply_in(source->0) is None,
    ensures
        reply_in_text(source) is None,
        call_in_text(source) is None,
{
}

/// What the model writes is what is called. The text is an object whose only tool call is an
/// object with one member that names the tool and one that gives its parameters, both as text, and
/// its reasoning, if there is any, is text or `null`. Then one function is called, with the name
/// and the arguments that stand there, character for character.
pub proof fn law_tool_is_called_as_it_is_written(
    members: Vec<ReplyMember>,
    reasoning: Option<int>,
    tool_call: int,
    fields: Vec<ToolCallMember>,
    name: int,
    parameters: int,
    tool: String,
    text: String,
    number: u64,
)
    requires
        0 <= tool_call < members@.len(),
        members@[tool_call].value == ReplyValue::Object(fields),
        forall|k: int|
            0 <= k < members@.len() ==> ((#[trigger] members@[k]).key@ == "tool_call"@ <==> k
                == tool_call),
        forall|k: int|
            0 <= k < members@.len() ==> ((#[trigger] members@[k]).key@ == "reasoning"@
                <==> reasoning == Some(k)),
        reasoning is Some ==> 0 <= reasoning->0 < members@.len() && (
        members@[reasoning->0].value is Text || members@[reasoning->0].value is Null),
        0 <= name < fields@.len(),
        0 <= parameters < fields@.len(),
        forall|k: int|
            0 <= k < fields@.len() ==> (names_the_tool((#[trigger] fields@[k]).key@) <==> k
                == name),
        forall|k: int|
            0 <= k < fields@.len() ==> (names_the_parameters((#[trigger] fields@[k]).key@) <==> k
                == parameters),
        fields@[name].value == FieldValue::Text(tool),
        fields@[parameters].value == FieldValue::Text(text),
    ensures
        calls_of(None, Some(ReplySource::Object(members)), number) == Some(
            seq![
                (ToolCallView {
                    id: "call_"@ + decimal(number as nat),
                    call_type: "function"@,
                    name: tool@,
                    arguments: text@,
                }),
            ],
        ),
{
    law_reply_carries_its_fields(members@, reasoning, Some(tool_call));
    law_tool_call_carries_its_fields(fields@, name, parameters);
}

} // verus!
