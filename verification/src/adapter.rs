//! The chat between the agent and the provider: requests within the limits, answers, and the
//! progress that is reported on the way.

use vstd::prelude::*;
use vstd::string::StringExecFns;
use vstd::utf8::encode_utf8;

use crate::chat::{as_provider_messages, as_tool_definition, as_tool_definitions, asks_for};
use crate::chat::{convert_output_format, convert_to_provider_messages};
use crate::chat::{ChatMessage, ChatMessageView, StructuredOutputFormat, Tool};
use crate::json::compact_json;
use crate::limits::{context_window_fits, max_context_bytes, max_tokens, ContextTier};
use crate::provider::{called_names, join_called_names, law_names_are_listed_in_order, native_calls};
use crate::provider::{LLMResponse, Message, MessageView, NativeToolCall};
use crate::provider::{NativeToolCallView, ResponseFormat, ToolDefinition};
use crate::response::CodeGraphChatResponse;
use crate::text::{decimal, decimal_text, law_views_keep_every_item, parsed_setting};
use crate::text::{read_setting, views};

verus! {

/// The number of bytes of a text in UTF-8.
pub open spec fn byte_len(text: Seq<char>) -> nat {
    encode_utf8(text).len()
}

/// The number of bytes that the texts of the messages have together.
pub open spec fn total_bytes(messages: Seq<MessageView>) -> nat
    decreases messages.len(),
{
    if messages.len() == 0 {
        0
    } else {
        total_bytes(messages.drop_last()) + byte_len(messages.last().content)
    }
}

/// Counts the bytes that the texts of the messages have together.
pub fn count_bytes(messages: &Vec<Message>) -> (total: u128)
    ensures
        total == total_bytes(views(messages@)),
        messages@.len() == 0 ==> total == 0,
        messages@.len() == 1 ==> total == encode_utf8(messages@[0].content@).len(),
{
    let mut total: u128 = 0;
    let ghost contents = views(messages@);
    for i in 0..messages.len()
        invariant
            contents == views(messages@),
            total == total_bytes(contents.take(i as int)),
            total <= i * usize::MAX,
    {
        let bytes = messages[i].content.as_str().as_bytes();
        proof {
            assert(contents.take(i + 1).drop_last() =~= contents.take(i as int));
            assert(contents.take(i + 1).last() == messages@[i as int]@);
            assert(bytes@.len() == byte_len(messages@[i as int]@.content));
            assert(i * usize::MAX + usize::MAX == (i + 1) * usize::MAX) by (nonlinear_arith);
            assert((i + 1) * usize::MAX <= u128::MAX) by (nonlinear_arith)
                requires
                    i < usize::MAX,
            ;
        }
        total = total + bytes.len() as u128;
    }
    proof {
        assert(contents.take(messages@.len() as int) =~= contents);
        if messages@.len() == 1 {
            assert(contents =~= seq![messages@[0]@]);
            law_bytes_of_one_message(messages@[0]@);
        }
    }
    total
}

/// Why a request is not sent.
#[derive(Debug, Clone, Copy, PartialEq, Eq, Structural)]
pub enum ChatError {
    /// The messages have more bytes together than may be sent.
    ContextOverflow { total_bytes: u128, max_bytes: usize },
}

/// The words for a context overflow, where `ratio` tells how many times the limit was reached.
pub open spec fn overflow_text(total_bytes: nat, max_bytes: nat, ratio: Seq<char>) -> Seq<char> {
    "Context overflow: "@ + decimal(total_bytes) + " bytes exceeds "@ + decimal(max_bytes)
        + " byte limit ("@ + ratio
        + "x). Tool results accumulated too much data. Try reducing result limits or query scope."@
}

impl ChatError {
    /// Puts the error into words; `ratio` tells how many times the limit was reached.
    pub fn message(&self, ratio: &str) -> (text: String)
        ensures
            match *self {
                ChatError::ContextOverflow { total_bytes, max_bytes } => text@ == overflow_text(
                    total_bytes as nat,
                    max_bytes as nat,
                    ratio@,
                ),
            },
    {
        let ChatError::ContextOverflow { total_bytes, max_bytes } = *self;
        let mut text = "Context overflow: ".to_owned();
        text.append(decimal_text(total_bytes).as_str());
        text.append(" bytes exceeds ");
        text.append(decimal_text(max_bytes as u128).as_str());
        text.append(" byte limit (");
        text.append(ratio);
        text.append(
            "x). Tool results accumulated too much data. Try reducing result limits or query scope.",
        );
        text
    }
}

/// What the provider can do but the chat does not offer.
#[derive(Debug, Clone, Copy, PartialEq, Eq, Structural)]
pub enum UnsupportedOperation {
    Streaming,
    StructuredStreaming,
    Completion,
    Embedding,
    ModelListing,
}

/// The words with which an operation is refused.
pub open spec fn refusal(operation: UnsupportedOperation) -> Seq<char> {
    match operation {
        UnsupportedOperation::Streaming => "Streaming not supported"@,
        UnsupportedOperation::StructuredStreaming => "Structured streaming not supported"@,
        UnsupportedOperation::Completion => "Completion not supported - use ChatProvider instead"@,
        UnsupportedOperation::Embedding => {
            "Embedding not supported - CodeGraph uses separate embedding providers"@
        },
        UnsupportedOperation::ModelListing => "Model listing not supported"@,
    }
}

impl UnsupportedOperation {
    /// The words with which the operation is refused.
    pub fn message(&self) -> (text: String)
        ensures
            text@ == refusal(*self),
    {
        let text = match self {
            UnsupportedOperation::Streaming => "Streaming not supported",
            UnsupportedOperation::StructuredStreaming => "Structured streaming not supported",
            UnsupportedOperation::Completion => {
                "Completion not supported - use ChatProvider instead"
            },
            UnsupportedOperation::Embedding => {
                "Embedding not supported - CodeGraph uses separate embedding providers"
            },
            UnsupportedOperation::ModelListing => "Model listing not supported",
        };
        text.to_owned()
    }
}

/// What is sent to the provider.
#[derive(Debug, Clone, PartialEq)]
pub struct ChatRequest {
    pub messages: Vec<Message>,
    pub tools: Option<Vec<ToolDefinition>>,
    pub max_tokens: Option<usize>,
    pub response_format: Option<ResponseFormat>,
}

/// A step of the agent, for whoever watches it work.
#[derive(Debug, Clone, PartialEq, Eq)]
pub struct Progress {
    pub step: usize,
    pub message: String,
}

/// The words for a step of the agent: the functions that it calls, or that it thinks where none
/// is named.
pub open spec fn progress_text(step: nat, calls: Option<Seq<NativeToolCallView>>) -> Seq<char> {
    let names = match calls {
        Some(calls) => called_names(calls),
        None => Seq::empty(),
    };
    if names.len() == 0 {
        "Step "@ + decimal(step) + ": Agent reasoning..."@
    } else {
        "Step "@ + decimal(step) + ": Calling "@ + names
    }
}

/// Puts a step of the agent into words.
pub fn progress_message(step: usize, calls: &Option<Vec<NativeToolCall>>) -> (message: String)
    ensures
        message@ == progress_text(step as nat, native_calls(*calls)),
{
    let names = match calls {
        Some(calls) => join_called_names(calls),
        None => String::new(),
    };
    let mut message = "Step ".to_owned();
    message.append(decimal_text(step as u128).as_str());
    if names.as_str().is_empty() {
        message.append(": Agent reasoning...");
    } else {
        message.append(": Calling ");
        message.append(names.as_str());
    }
    message
}

/// The agent's side of the chat with the provider.
#[derive(Debug, Clone, Copy, PartialEq, Eq, Structural)]
pub struct CodeGraphChatAdapter {
    pub tier: ContextTier,
    /// Whether somebody is told about each step.
    pub reports_progress: bool,
    /// The number of the next step that is reported.
    pub step_counter: usize,
    /// The bytes of context that may be sent, so that tool results cannot pile up beyond what the
    /// model takes.
    pub max_context_bytes: usize,
}

/// Whether `request` is what becomes of messages that are to be sent. Where they have at most the
/// bytes that may be sent, it carries them all, offers the tools, asks for the form and limits the
/// answer; where they have more, it is refused with both numbers.
pub open spec fn is_request_for(
    request: Result<ChatRequest, ChatError>,
    adapter: CodeGraphChatAdapter,
    messages: Seq<MessageView>,
    tools: Option<&[Tool]>,
    json_schema: Option<StructuredOutputFormat>,
    max_output_tokens: Option<&str>,
) -> bool {
    match request {
        Ok(request) => {
            &&& total_bytes(messages) <= adapter.max_context_bytes
            &&& views(request.messages@) == messages
            &&& match (tools, request.tools) {
                (Some(tools), Some(offered)) => views(offered@) == as_tool_definitions(tools@),
                (None, None) => true,
                _ => false,
            }
            &&& request.max_tokens == Some(max_tokens(adapter.tier, max_output_tokens))
            &&& match (json_schema, request.response_format) {
                (Some(wanted), Some(format)) => asks_for(format, wanted),
                (None, None) => true,
                _ => false,
            }
        },
        Err(ChatError::ContextOverflow { total_bytes: total, max_bytes }) => {
            &&& total_bytes(messages) > adapter.max_context_bytes
            &&& total == total_bytes(messages)
            &&& max_bytes == adapter.max_context_bytes
        },
    }
}

impl CodeGraphChatAdapter {
    /// The bytes of context that may be sent: for the window that the setting gives, else for that
    /// of the tier.
    pub fn calculate_max_context_bytes(tier: ContextTier, context_window: Option<&str>) -> (bytes:
        usize)
        requires
            context_window_fits(context_window),
        ensures
            bytes == max_context_bytes(tier, context_window),
    {
        match read_setting(context_window) {
            Some(window) => window * 4 * 8 / 10,
            None => match tier {
                ContextTier::Small => 50_000 * 4 * 8 / 10,
                ContextTier::Medium => 128_000 * 4 * 8 / 10,
                ContextTier::Large => 200_000 * 4 * 8 / 10,
                ContextTier::Massive => 2_000_000 * 4 * 8 / 10,
            },
        }
    }

    /// A chat for models of a tier, with the given value of the context window setting.
    pub fn new(tier: ContextTier, context_window: Option<&str>) -> (adapter: Self)
        requires
            context_window_fits(context_window),
        ensures
            adapter.tier == tier,
            !adapter.reports_progress,
            adapter.step_counter == 1,
            adapter.max_context_bytes == max_context_bytes(tier, context_window),
    {
        CodeGraphChatAdapter {
            tier,
            reports_progress: false,
            step_counter: 1,
            max_context_bytes: Self::calculate_max_context_bytes(tier, context_window),
        }
    }

    /// A chat like that of `new` whose steps are reported.
    pub fn with_progress_callback(tier: ContextTier, context_window: Option<&str>) -> (adapter:
        Self)
        requires
            context_window_fits(context_window),
        ensures
            adapter.tier == tier,
            adapter.reports_progress,
            adapter.step_counter == 1,
            adapter.max_context_bytes == max_context_bytes(tier, context_window),
    {
        CodeGraphChatAdapter {
            tier,
            reports_progress: true,
            step_counter: 1,
            max_context_bytes: Self::calculate_max_context_bytes(tier, context_window),
        }
    }

    /// Turns the tools of the agent into the definitions that the provider takes, in their order.
    pub fn convert_tools(tools: &[Tool]) -> (definitions: Vec<ToolDefinition>)
        ensures
            views(definitions@) == as_tool_definitions(tools@),
            definitions@.len() == tools@.len(),
            forall|i: int|
                0 <= i < tools@.len() ==> {
                    let function = (#[trigger] definitions@[i]).function;
                    &&& function.name@ == tools@[i].function.name@
                    &&& function.description@ == tools@[i].function.description@
                    &&& function.parameters == tools@[i].function.parameters
                },
    {
        let mut definitions: Vec<ToolDefinition> = Vec::new();
        for i in 0..tools.len()
            invariant
                definitions@.len() == i,
                forall|j: int|
                    0 <= j < i ==> (#[trigger] definitions@[j])@ == as_tool_definition(tools@[j]),
                forall|j: int|
                    0 <= j < i ==> {
                        let function = (#[trigger] definitions@[j]).function;
                        &&& function.name@ == tools@[j].function.name@
                        &&& function.description@ == tools@[j].function.description@
                        &&& function.parameters == tools@[j].function.parameters
                    },
        {
            let function = &tools[i].function;
            definitions.push(
                ToolDefinition::function(
                    function.name.as_str(),
                    function.description.as_str(),
                    function.parameters.clone(),
                ),
            );
        }
        definitions
    }

    /// The longest answer to ask for, in tokens: what the setting gives, else what suits the tier.
    pub fn get_max_tokens(&self, max_output_tokens: Option<&str>) -> (tokens: Option<usize>)
        ensures
            tokens == Some(max_tokens(self.tier, max_output_tokens)),
    {
        if let Some(tokens) = read_setting(max_output_tokens) {
            return Some(tokens);
        }
        let tokens: usize = match self.tier {
            ContextTier::Small => 2048,
            ContextTier::Medium => 4096,
            ContextTier::Large => 8192,
            ContextTier::Massive => 16384,
        };
        Some(tokens)
    }

    /// Makes the request that sends the given messages, with the tools that the model may call, the
    /// form that the answer has to take and the value of the output setting. Messages of more bytes
    /// than may be sent are refused.
    pub fn request_for(
        &self,
        messages: Vec<Message>,
        tools: Option<&[Tool]>,
        json_schema: Option<StructuredOutputFormat>,
        max_output_tokens: Option<&str>,
    ) -> (request: Result<ChatRequest, ChatError>)
        ensures
            is_request_for(
                request,
                *self,
                views(messages@),
                tools,
                json_schema,
                max_output_tokens,
            ),
            request is Err <==> total_bytes(views(messages@)) > self.max_context_bytes,
            request matches Ok(request) ==> request.messages@ == messages@,
    {
        let total_bytes = count_bytes(&messages);
        if total_bytes > self.max_context_bytes as u128 {
            return Err(
                ChatError::ContextOverflow { total_bytes, max_bytes: self.max_context_bytes },
            );
        }
        let tools = match tools {
            Some(tools) => Some(Self::convert_tools(tools)),
            None => None,
        };
        let response_format = match json_schema {
            Some(wanted) => Some(convert_output_format(wanted)),
            None => None,
        };
        Ok(
            ChatRequest {
                messages,
                tools,
                max_tokens: self.get_max_tokens(max_output_tokens),
                response_format,
            },
        )
    }

    /// Makes the request for a turn of the conversation, as `request_for` does for its messages in
    /// the form that the provider takes.
    pub fn prepare_request(
        &self,
        messages: &[ChatMessage],
        tools: Option<&[Tool]>,
        json_schema: Option<StructuredOutputFormat>,
        max_output_tokens: Option<&str>,
    ) -> (request: Result<ChatRequest, ChatError>)
        ensures
            is_request_for(
                request,
                *self,
                as_provider_messages(views(messages@)),
                tools,
                json_schema,
                max_output_tokens,
            ),
            request is Err <==> total_bytes(as_provider_messages(views(messages@)))
                > self.max_context_bytes,
    {
        self.request_for(
            convert_to_provider_messages(messages),
            tools,
            json_schema,
            max_output_tokens,
        )
    }

    /// Takes an answer of the provider, and tells what there is to report about it.
    pub fn accept_response(&mut self, response: LLMResponse) -> (accepted: (
        CodeGraphChatResponse,
        Option<Progress>,
    ))
        ensures
            is_accepted(accepted, *old(self), response),
            *final(self) == after_reply(*old(self), true),
            accepted.0.content@ == response.content@,
            accepted.0.tool_calls == response.tool_calls,
            response.total_tokens is Some ==> accepted.0.total_tokens == response.total_tokens->0,
            response.total_tokens is None ==> accepted.0.total_tokens == 0,
            accepted.1 is Some <==> old(self).reports_progress,
            accepted.1 is Some ==> accepted.1->0.step == old(self).step_counter,
    {
        let progress = if self.reports_progress {
            let step = self.step_counter;
            self.step_counter = step.wrapping_add(1);
            Some(Progress { step, message: progress_message(step, &response.tool_calls) })
        } else {
            None
        };
        let total_tokens: usize = match response.total_tokens {
            Some(tokens) => tokens,
            None => 0,
        };
        let accepted = CodeGraphChatResponse {
            content: response.content,
            tool_calls: response.tool_calls,
            total_tokens,
        };
        (accepted, progress)
    }

    /// Takes what came back from the provider: an answer, as `accept_response` does, or the words
    /// for its failure. A failure is handed on in the same words, reports nothing and uses up no
    /// step number.
    pub fn take_reply(&mut self, reply: Result<LLMResponse, String>) -> (taken: Result<
        (CodeGraphChatResponse, Option<Progress>),
        String,
    >)
        ensures
            match (reply, taken) {
                (Ok(response), Ok(accepted)) => is_accepted(accepted, *old(self), response),
                (Err(given), Err(reason)) => reason@ == given@,
                _ => false,
            },
            *final(self) == after_reply(*old(self), reply is Ok),
            reply is Err ==> *final(self) == *old(self),
            taken is Ok <==> reply is Ok,
            reply is Ok ==> {
                &&& taken->Ok_0.0.content@ == reply->Ok_0.content@
                &&& taken->Ok_0.0.tool_calls == reply->Ok_0.tool_calls
                &&& taken->Ok_0.1 is Some <==> old(self).reports_progress
            },
    {
        match reply {
            Ok(response) => Ok(self.accept_response(response)),
            Err(reason) => Err(reason),
        }
    }
}

/// Whether `accepted` is what a chat makes of an answer: its text, its native tool calls and its
/// tokens, zero where they are not counted, and the step to report where steps are reported.
pub open spec fn is_accepted(
    accepted: (CodeGraphChatResponse, Option<Progress>),
    adapter: CodeGraphChatAdapter,
    response: LLMResponse,
) -> bool {
    &&& accepted.0.content@ == response.content@
    &&& native_calls(accepted.0.tool_calls) == native_calls(response.tool_calls)
    &&& accepted.0.total_tokens == (match response.total_tokens {
        Some(tokens) => tokens,
        None => 0,
    })
    &&& match accepted.1 {
        Some(progress) => {
            &&& adapter.reports_progress
            &&& progress.step == adapter.step_counter
            &&& progress.message@ == progress_text(
                adapter.step_counter as nat,
                native_calls(response.tool_calls),
            )
        },
        None => !adapter.reports_progress,
    }
}

/// The number of the next reported step, after one more answer. After the largest number comes
/// zero.
pub open spec fn next_step(adapter: CodeGraphChatAdapter) -> usize {
    if !adapter.reports_progress {
        adapter.step_counter
    } else if adapter.step_counter == usize::MAX {
        0
    } else {
        (adapter.step_counter + 1) as usize
    }
}

/// The chat after one more reply, which is an answer or a failure of the provider.
pub open spec fn after_reply(adapter: CodeGraphChatAdapter, answered: bool) -> CodeGraphChatAdapter {
    if answered {
        CodeGraphChatAdapter { step_counter: next_step(adapter), ..adapter }
    } else {
        adapter
    }
}

/// The chat after it has taken a number of answers.
pub open spec fn after_answers(adapter: CodeGraphChatAdapter, answers: nat) -> CodeGraphChatAdapter
    decreases answers,
{
    if answers == 0 {
        adapter
    } else {
        after_reply(after_answers(adapter, (answers - 1) as nat), true)
    }
}

/// The chat after replies of which each is an answer or a failure.
pub open spec fn after_replies(
    adapter: CodeGraphChatAdapter,
    answered: Seq<bool>,
) -> CodeGraphChatAdapter
    decreases answered.len(),
{
    if answered.len() == 0 {
        adapter
    } else {
        after_reply(after_replies(adapter, answered.drop_last()), answered.last())
    }
}

/// How many of the replies are answers.
pub open spec fn count_answers(answered: Seq<bool>) -> nat
    decreases answered.len(),
{
    if answered.len() == 0 {
        0
    } else if answered.last() {
        count_answers(answered.drop_last()) + 1
    } else {
        count_answers(answered.drop_last())
    }
}

/// Failures of the provider leave no trace in the chat: after any replies it is as if there had
/// been the answers alone, so the next answer is reported under the number that it would have had
/// without the failures.
pub proof fn law_failures_use_up_no_step(adapter: CodeGraphChatAdapter, answered: Seq<bool>)
    ensures
        after_replies(adapter, answered) == after_answers(adapter, count_answers(answered)),
    decreases answered.len(),
{
    if answered.len() > 0 {
        law_failures_use_up_no_step(adapter, answered.drop_last());
    }
}

/// Steps are numbered one after the other: once a chat that reports its steps has taken some
/// answers, the next is numbered that much higher. A new chat starts at one, so its n-th answer is
/// reported as step n, as long as there are numbers left.
pub proof fn law_steps_are_counted(adapter: CodeGraphChatAdapter, answers: nat)
    requires
        adapter.reports_progress,
        adapter.step_counter + answers <= usize::MAX,
    ensures
        after_answers(adapter, answers).step_counter == adapter.step_counter + answers,
        after_answers(adapter, answers).reports_progress,
    decreases answers,
{
    if answers > 0 {
        law_steps_are_counted(adapter, (answers - 1) as nat);
    }
}

/// Answers change neither the tier nor the limit of a chat, nor whether it reports its steps.
pub proof fn law_limits_stay(adapter: CodeGraphChatAdapter, answers: nat)
    ensures
        after_answers(adapter, answers).tier == adapter.tier,
        after_answers(adapter, answers).max_context_bytes == adapter.max_context_bytes,
        after_answers(adapter, answers).reports_progress == adapter.reports_progress,
    decreases answers,
{
    if answers > 0 {
        law_limits_stay(adapter, (answers - 1) as nat);
    }
}

/// Together, two lists of messages have the bytes of the one and of the other.
pub proof fn law_bytes_accumulate(first: Seq<MessageView>, second: Seq<MessageView>)
    ensures
        total_bytes(first + second) == total_bytes(first) + total_bytes(second),
    decreases second.len(),
{
    if second.len() == 0 {
        assert(first + second =~= first);
    } else {
        assert((first + second).drop_last() =~= first + second.drop_last());
        law_bytes_accumulate(first, second.drop_last());
    }
}

/// A conversation that is too long to be sent stays too long, whatever is said next.
pub proof fn law_overflow_persists(
    conversation: Seq<ChatMessageView>,
    more: Seq<ChatMessageView>,
    max_bytes: nat,
)
    requires
        total_bytes(as_provider_messages(conversation)) > max_bytes,
    ensures
        total_bytes(as_provider_messages(conversation + more)) > max_bytes,
{
    assert(as_provider_messages(conversation + more) =~= as_provider_messages(conversation)
        + as_provider_messages(more));
    law_bytes_accumulate(as_provider_messages(conversation), as_provider_messages(more));
}

/// A message counts with the bytes of its text in UTF-8, however long it is, and no messages count
/// nothing.
pub proof fn law_bytes_of_one_message(message: MessageView)
    ensures
        total_bytes(Seq::empty()) == 0,
        total_bytes(seq![message]) == encode_utf8(message.content).len(),
{
    assert(seq![message].drop_last() =~= Seq::<MessageView>::empty());
    assert(total_bytes(seq![message].drop_last()) == 0);
}

/// Messages have no fewer bytes together than any one of them has.
pub proof fn law_every_message_counts(messages: Seq<MessageView>, i: int)
    requires
        0 <= i < messages.len(),
    ensures
        total_bytes(messages) >= encode_utf8(messages[i].content).len(),
{
    let before = messages.take(i);
    let after = messages.skip(i + 1);
    assert(messages =~= before + seq![messages[i]] + after);
    law_bytes_accumulate(before + seq![messages[i]], after);
    law_bytes_accumulate(before, seq![messages[i]]);
    law_bytes_of_one_message(messages[i]);
}

/// Messages are refused where they have more bytes than may be sent, and only there; the refusal
/// gives both numbers.
pub proof fn law_overlong_messages_are_refused(
    request: Result<ChatRequest, ChatError>,
    adapter: CodeGraphChatAdapter,
    messages: Seq<MessageView>,
    tools: Option<&[Tool]>,
    json_schema: Option<StructuredOutputFormat>,
    max_output_tokens: Option<&str>,
)
    requires
        is_request_for(request, adapter, messages, tools, json_schema, max_output_tokens),
    ensures
        request is Err <==> total_bytes(messages) > adapter.max_context_bytes,
        match request {
            Err(ChatError::ContextOverflow { total_bytes: total, max_bytes }) => {
                &&& total == total_bytes(messages)
                &&& max_bytes == adapter.max_context_bytes
            },
            Ok(_) => true,
        },
{
}

/// A message that alone has more bytes than may be sent is never sent, whatever it is sent with.
pub proof fn law_overlong_message_is_not_sent(
    request: Result<ChatRequest, ChatError>,
    adapter: CodeGraphChatAdapter,
    messages: Seq<MessageView>,
    tools: Option<&[Tool]>,
    json_schema: Option<StructuredOutputFormat>,
    max_output_tokens: Option<&str>,
    i: int,
)
    requires
        is_request_for(request, adapter, messages, tools, json_schema, max_output_tokens),
        0 <= i < messages.len(),
        encode_utf8(messages[i].content).len() > adapter.max_context_bytes,
    ensures
        request is Err,
{
    law_every_message_counts(messages, i);
}

/// A request carries each message in its place, in the same words and by the same author. It
/// offers each tool in its place, under the same name, with the same description and parameters,
/// and offers none where none are given.
pub proof fn law_request_carries_messages_and_tools(
    request: ChatRequest,
    adapter: CodeGraphChatAdapter,
    messages: Seq<MessageView>,
    tools: Option<&[Tool]>,
    json_schema: Option<StructuredOutputFormat>,
    max_output_tokens: Option<&str>,
)
    requires
        is_request_for(Ok(request), adapter, messages, tools, json_schema, max_output_tokens),
    ensures
        request.messages@.len() == messages.len(),
        forall|i: int|
            0 <= i < messages.len() ==> {
                &&& (#[trigger] request.messages@[i]).content@ == messages[i].content
                &&& request.messages@[i].role == messages[i].role
            },
        request.tools is Some <==> tools is Some,
        tools is Some ==> {
            let given = tools->0@;
            let offered = request.tools->0@;
            &&& offered.len() == given.len()
            &&& forall|i: int|
                0 <= i < given.len() ==> {
                    &&& (#[trigger] offered[i]).function.name@ == given[i].function.name@
                    &&& offered[i].function.description@ == given[i].function.description@
                    &&& offered[i].function.parameters == given[i].function.parameters
                }
        },
{
    law_views_keep_every_item(request.messages@);
    assert forall|i: int| 0 <= i < messages.len() implies {
        &&& (#[trigger] request.messages@[i]).content@ == messages[i].content
        &&& request.messages@[i].role == messages[i].role
    } by {
        assert(views(request.messages@)[i] == request.messages@[i]@);
    }
    if tools is Some {
        let given = tools->0@;
        let offered = request.tools->0@;
        law_views_keep_every_item(offered);
        assert forall|i: int| 0 <= i < given.len() implies {
            &&& (#[trigger] offered[i]).function.name@ == given[i].function.name@
            &&& offered[i].function.description@ == given[i].function.description@
            &&& offered[i].function.parameters == given[i].function.parameters
        } by {
            assert(views(offered)[i] == offered[i]@);
            assert(as_tool_definitions(given)[i] == as_tool_definition(given[i]));
        }
    }
}

/// A request limits the answer to what the output setting says, or, where it says no number, to
/// what suits the tier. It asks for the wanted form, as strictly as is wanted, and for none where
/// none is wanted.
pub proof fn law_request_shapes_the_answer(
    request: ChatRequest,
    adapter: CodeGraphChatAdapter,
    messages: Seq<MessageView>,
    tools: Option<&[Tool]>,
    json_schema: Option<StructuredOutputFormat>,
    max_output_tokens: Option<&str>,
)
    requires
        is_request_for(Ok(request), adapter, messages, tools, json_schema, max_output_tokens),
    ensures
        request.max_tokens is Some,
        parsed_setting(max_output_tokens) is Some ==> request.max_tokens == parsed_setting(
            max_output_tokens,
        ),
        parsed_setting(max_output_tokens) is None ==> match adapter.tier {
            ContextTier::Small => request.max_tokens == Some(2048usize),
            ContextTier::Medium => request.max_tokens == Some(4096usize),
            ContextTier::Large => request.max_tokens == Some(8192usize),
            ContextTier::Massive => request.max_tokens == Some(16384usize),
        },
        request.response_format is Some <==> json_schema is Some,
        json_schema is Some ==> {
            let wanted = json_schema->0;
            let ResponseFormat::JsonSchema(asked) = request.response_format->0;
            &&& asked.name@ == wanted.name@
            &&& wanted.schema is Some ==> asked.schema == wanted.schema->0
            &&& wanted.schema is None ==> compact_json(asked.schema) == "null"@
            &&& wanted.strict is Some ==> asked.strict == wanted.strict->0
            &&& wanted.strict is None ==> asked.strict
        },
{
}

/// The words for a context overflow name, in this order, the bytes that there are, the bytes that
/// may be sent and how many times that is.
pub proof fn law_overflow_is_explained(total: nat, max: nat, ratio: Seq<char>)
    ensures
        ({
            let text = overflow_text(total, max, ratio);
            let after_total = 18 + decimal(total).len() as int;
            let after_max = after_total + 15 + decimal(max).len() as int;
            let after_ratio = after_max + 13 + ratio.len() as int;
            &&& text.take(18) == "Context overflow: "@
            &&& text.subrange(18, after_total) == decimal(total)
            &&& text.subrange(after_total, after_total + 15) == " bytes exceeds "@
            &&& text.subrange(after_total + 15, after_max) == decimal(max)
            &&& text.subrange(after_max, after_max + 13) == " byte limit ("@
            &&& text.subrange(after_max + 13, after_ratio) == ratio
            &&& text.skip(after_ratio)
                == "x). Tool results accumulated too much data. Try reducing result limits or query scope."@
        }),
{
    reveal_strlit("Context overflow: ");
    reveal_strlit(" bytes exceeds ");
    reveal_strlit(" byte limit (");
    let text = overflow_text(total, max, ratio);
    let after_total = 18 + decimal(total).len() as int;
    let after_max = after_total + 15 + decimal(max).len() as int;
    let after_ratio = after_max + 13 + ratio.len() as int;
    assert(text.take(18) =~= "Context overflow: "@);
    assert(text.subrange(18, after_total) =~= decimal(total));
    assert(text.subrange(after_total, after_total + 15) =~= " bytes exceeds "@);
    assert(text.subrange(after_total + 15, after_max) =~= decimal(max));
    assert(text.subrange(after_max, after_max + 13) =~= " byte limit ("@);
    assert(text.subrange(after_max + 13, after_ratio) =~= ratio);
    assert(text.skip(after_ratio)
        =~= "x). Tool results accumulated too much data. Try reducing result limits or query scope."@);
}

/// The refusal of an operation names it, and where there is another way it says so.
pub proof fn law_refusal_names_the_operation(operation: UnsupportedOperation)
    ensures
        operation is Streaming ==> refusal(operation) == "Streaming not supported"@,
        operation is StructuredStreaming ==> refusal(operation) == "Structured streaming not supported"@,
        operation is Completion ==> refusal(operation)
            == "Completion not supported - use ChatProvider instead"@,
        operation is Embedding ==> refusal(operation)
            == "Embedding not supported - CodeGraph uses separate embedding providers"@,
        operation is ModelListing ==> refusal(operation) == "Model listing not supported"@,
{
}

/// The words for a step begin with its number. They go on with the names of the functions that
/// are called; where there are no calls, or these have no name to show, the agent is thinking.
pub proof fn law_progress_tells_the_step(step: nat, calls: Seq<NativeToolCallView>)
    ensures
        progress_text(step, None) == "Step "@ + decimal(step) + ": Agent reasoning..."@,
        called_names(calls).len() == 0 ==> progress_text(step, Some(calls)) == "Step "@ + decimal(
            step,
        ) + ": Agent reasoning..."@,
        called_names(calls).len() > 0 ==> progress_text(step, Some(calls)) == "Step "@ + decimal(
            step,
        ) + ": Calling "@ + called_names(calls),
        calls.len() == 0 ==> progress_text(step, Some(calls)) == progress_text(step, None),
{
    if calls.len() == 0 {
        assert(calls =~= Seq::<NativeToolCallView>::empty());
        law_names_are_listed_in_order(
            NativeToolCallView {
                id: Seq::empty(),
                call_type: Seq::empty(),
                name: Seq::empty(),
                arguments: Seq::empty(),
            },
            calls,
            calls,
        );
    }
}

/// An answer is handed on with its text, each of its native tool calls with every field, and its
/// tokens, which are none where they are not counted. A step is reported where steps are reported,
/// under the number that is next.
pub proof fn law_answer_is_handed_on(
    accepted: (CodeGraphChatResponse, Option<Progress>),
    adapter: CodeGraphChatAdapter,
    response: LLMResponse,
)
    requires
        is_accepted(accepted, adapter, response),
    ensures
        accepted.0.content@ == response.content@,
        accepted.0.tool_calls is Some <==> response.tool_calls is Some,
        response.tool_calls is Some ==> {
            let given = response.tool_calls->0@;
            let calls = accepted.0.tool_calls->0@;
            &&& calls.len() == given.len()
            &&& forall|i: int|
                0 <= i < given.len() ==> {
                    &&& (#[trigger] calls[i]).id@ == given[i].id@
                    &&& calls[i].call_type@ == given[i].call_type@
                    &&& calls[i].function.name@ == given[i].function.name@
                    &&& calls[i].function.arguments@ == given[i].function.arguments@
                }
        },
        response.total_tokens is Some ==> accepted.0.total_tokens == response.total_tokens->0,
        response.total_tokens is None ==> accepted.0.total_tokens == 0,
        accepted.1 is Some <==> adapter.reports_progress,
        accepted.1 is Some ==> {
            &&& accepted.1->0.step == adapter.step_counter
            &&& accepted.1->0.message@ == progress_text(
                adapter.step_counter as nat,
                native_calls(response.tool_calls),
            )
        },
{
    if response.tool_calls is Some {
        let given = response.tool_calls->0@;
        let calls = accepted.0.tool_calls->0@;
        law_views_keep_every_item(given);
        law_views_keep_every_item(calls);
        assert(views(calls) == views(given));
        assert forall|i: int| 0 <= i < given.len() implies {
            &&& (#[trigger] calls[i]).id@ == given[i].id@
            &&& calls[i].call_type@ == given[i].call_type@
            &&& calls[i].function.name@ == given[i].function.name@
            &&& calls[i].function.arguments@ == given[i].function.arguments@
        } by {
            assert(views(calls)[i] == calls[i]@);
            assert(views(given)[i] == given[i]@);
        }
    }
}

/// A reply changes a chat only in the number of its next step: an answer uses up one number where
/// steps are reported, the largest being followed by zero; any other reply uses up none.
pub proof fn law_reply_uses_up_one_step(adapter: CodeGraphChatAdapter, answered: bool)
    ensures
        after_reply(adapter, answered).tier == adapter.tier,
        after_reply(adapter, answered).max_context_bytes == adapter.max_context_bytes,
        after_reply(adapter, answered).reports_progress == adapter.reports_progress,
        after_reply(adapter, false) == adapter,
        !adapter.reports_progress ==> after_reply(adapter, answered) == adapter,
        adapter.reports_progress && adapter.step_counter < usize::MAX ==> after_reply(
            adapter,
            true,
        ).step_counter == adapter.step_counter + 1,
        adapter.reports_progress && adapter.step_counter == usize::MAX ==> after_reply(
            adapter,
            true,
        ).step_counter == 0,
{
}

} // verus!
