//! The conversation state of a tool-using chat agent and the decisions its run loop
//! takes: seeding, recording tool results, folding a response into the conversation,
//! reacting to streamed events, and bounding the number of turns.
use vstd::prelude::*;

use crate::openai::{
    ErrorEvent, FunctionTool, Includable, FunctionToolCall, GPT4_O, InputFunctionCallOutput, InputItem, InputMessage,
    InputMessageContent, MessageRole, OutputContent, OutputItem, OutputTextDone,
};

verus! {

/// Event name of the final event of a streamed run.
pub const AGENT_DONE_EVENT: &'static str = "atb.ai.done";
/// Event name of the event that reports a failed run.
pub const AGENT_ERROR_EVENT: &'static str = "atb.ai.error";

/// The messages and tool results of one conversation. The first `baseline_len` items
/// are the seeded context; later items were added while the agent ran.
#[derive(Clone, Debug)]
pub struct AgentContext {
    conversation: Vec<InputItem>,
    tool_results: Vec<serde_json::Value>,
    baseline_len: usize,
}

/// A plain text message item.
pub open spec fn text_item(role: MessageRole, text: String) -> InputItem {
    InputItem::Message(InputMessage { content: InputMessageContent::Text(text), role, status: None })
}

/// Whether `item` is a plain text message from `role` saying `text`.
pub open spec fn is_text_item(item: InputItem, role: MessageRole, text: Seq<char>) -> bool {
    &&& item matches InputItem::Message(m)
    &&& m.role == role
    &&& m.status is None
    &&& m.content matches InputMessageContent::Text(t)
    &&& t@ == text
}

/// The message items among `items`, in order.
pub open spec fn messages_of(items: Seq<InputItem>) -> Seq<InputMessage>
    decreases items.len(),
{
    if items.len() == 0 {
        Seq::empty()
    } else {
        let rest = messages_of(items.drop_last());
        match items.last() {
            InputItem::Message(m) => rest.push(m),
            _ => rest,
        }
    }
}

impl AgentContext {
    pub closed spec fn conversation(&self) -> Seq<InputItem> {
        self.conversation@
    }

    pub closed spec fn results(&self) -> Seq<serde_json::Value> {
        self.tool_results@
    }

    pub closed spec fn baseline(&self) -> usize {
        self.baseline_len
    }

    /// An empty context.
    pub fn new() -> (res: Self)
        ensures
            res.conversation() == Seq::<InputItem>::empty(),
            res.results() == Seq::<serde_json::Value>::empty(),
            res.baseline() == 0,
    {
        AgentContext { conversation: Vec::new(), tool_results: Vec::new(), baseline_len: 0 }
    }

    /// A context seeded with the system prompt and, when given, the user data, both as
    /// developer messages; the seed is the baseline.
    pub fn seed(system_prompt: &str, user_data: &Option<String>) -> (res: Self)
        ensures
            res.conversation().len() == (if user_data is Some { 2int } else { 1int }),
            is_text_item(res.conversation()[0], MessageRole::Developer, system_prompt@),
            user_data matches Some(d) ==> is_text_item(res.conversation()[1], MessageRole::Developer, d@),
            res.results() == Seq::<serde_json::Value>::empty(),
            res.baseline() == res.conversation().len(),
    {
        let mut conversation: Vec<InputItem> = Vec::new();
        conversation.push(InputItem::from_text(MessageRole::Developer, system_prompt.to_owned()));
        match user_data {
            Some(d) => conversation.push(InputItem::from_text(MessageRole::Developer, d.clone())),
            None => {},
        }
        let baseline_len = conversation.len();
        AgentContext { conversation, tool_results: Vec::new(), baseline_len }
    }

    /// The full history: messages, tool calls and their outputs.
    pub fn history(&self) -> (res: &[InputItem])
        ensures
            res@ == self.conversation(),
    {
        self.conversation.as_slice()
    }

    /// The message items of the history, in order.
    pub fn messages(&self) -> (res: Vec<&InputMessage>)
        ensures
            res@.len() == messages_of(self.conversation()).len(),
            forall|i: int| 0 <= i < res@.len() ==> *res@[i] == messages_of(self.conversation())[i],
    {
        let mut out: Vec<&InputMessage> = Vec::new();
        let mut i: usize = 0;
        while i < self.conversation.len()
            invariant
                i <= self.conversation@.len(),
                out@.len() == messages_of(self.conversation@.take(i as int)).len(),
                forall|j: int|
                    0 <= j < out@.len() ==> *out@[j] == messages_of(self.conversation@.take(i as int))[j],
            decreases self.conversation.len() - i,
        {
            proof {
                assert(self.conversation@.take(i + 1).drop_last() =~= self.conversation@.take(i as int));
            }
            match &self.conversation[i] {
                InputItem::Message(m) => out.push(m),
                _ => {},
            }
            i = i + 1;
        }
        proof {
            assert(self.conversation@.take(i as int) =~= self.conversation@);
        }
        out
    }

    /// The tool results recorded so far.
    pub fn tool_results(&self) -> (res: &[serde_json::Value])
        ensures
            res@ == self.results(),
    {
        self.tool_results.as_slice()
    }

    pub fn baseline_len(&self) -> (res: usize)
        ensures
            res == self.baseline(),
    {
        self.baseline_len
    }

    /// Drops everything added after the baseline, and all tool results.
    pub fn clear_history(&mut self)
        ensures
            final(self).conversation() == (if old(self).baseline() <= old(self).conversation().len() {
                old(self).conversation().take(old(self).baseline() as int)
            } else {
                old(self).conversation()
            }),
            final(self).results() == Seq::<serde_json::Value>::empty(),
            final(self).baseline() == old(self).baseline(),
    {
        self.conversation.truncate(self.baseline_len);
        self.tool_results.clear();
    }

    /// Appends a text message from `role`.
    pub fn push_text(&mut self, role: MessageRole, text: String)
        ensures
            final(self).conversation() == old(self).conversation().push(text_item(role, text)),
            final(self).results() == old(self).results(),
            final(self).baseline() == old(self).baseline(),
    {
        self.conversation.push(InputItem::from_text(role, text));
    }

    /// Records a tool call together with its output: the call, then its output as JSON
    /// text (the value's display form) under the same call id, and the output value
    /// among the tool results.
    pub fn record_tool_output(&mut self, call: FunctionToolCall, json_out: serde_json::Value)
        ensures
            final(self).conversation().len() == old(self).conversation().len() + 2,
            final(self).conversation().take(old(self).conversation().len() as int) == old(
                self,
            ).conversation(),
            final(self).conversation()[old(self).conversation().len() as int] == InputItem::FunctionCall(call),
            final(self).conversation()[old(self).conversation().len() as int + 1] matches InputItem::FunctionCallOutput(o)
                && o.call_id == call.call_id && o.id is None && o.status is None
                && vstd::string::to_string_from_display_ensures::<serde_json::Value>(&json_out, o.output),
            final(self).results() == old(self).results().push(json_out),
            final(self).baseline() == old(self).baseline(),
    {
        let output = InputFunctionCallOutput {
            call_id: call.call_id.clone(),
            output: json_out.to_string(),
            id: None,
            status: None,
        };
        self.conversation.push(InputItem::FunctionCall(call));
        self.conversation.push(InputItem::FunctionCallOutput(output));
        self.tool_results.push(json_out);
        proof {
            assert(self.conversation@.take(old(self).conversation@.len() as int) =~= old(self).conversation@);
        }
    }
}

impl Default for AgentContext {
    fn default() -> (res: Self)
        ensures
            res.conversation() == Seq::<InputItem>::empty(),
            res.results() == Seq::<serde_json::Value>::empty(),
            res.baseline() == 0,
    {
        AgentContext::new()
    }
}

/// Items appended after a seed leave the seed in front, so clearing the history gives
/// the seed back.
pub proof fn law_clear_restores_seed(seed: Seq<InputItem>, added: Seq<InputItem>)
    ensures
        (seed + added).take(seed.len() as int) == seed,
{
    assert((seed + added).take(seed.len() as int) =~= seed);
}

/// The turn limit the agent runs with: at least one turn.
pub fn clamp_max_turns(max_turns: usize) -> (res: usize)
    ensures
        res == (if max_turns < 1 { 1 } else { max_turns }),
{
    if max_turns < 1 {
        1
    } else {
        max_turns
    }
}

/// Whether another turn may start after `turns` turns.
pub fn may_take_turn(turns: usize, max_turns: usize) -> (res: bool)
    ensures
        res == (turns < max_turns),
{
    turns < max_turns
}

/// The assistant text of a message: its text parts joined by newlines, where a part
/// is only preceded by a newline when text came before it.
pub open spec fn joined_text(contents: Seq<OutputContent>) -> Seq<char>
    decreases contents.len(),
{
    if contents.len() == 0 {
        Seq::empty()
    } else {
        let acc = joined_text(contents.drop_last());
        match contents.last() {
            OutputContent::OutputText(t) => if acc.len() == 0 {
                t.text@
            } else {
                acc + seq!['\n'] + t.text@
            },
            _ => acc,
        }
    }
}

fn join_text_parts(contents: &Vec<OutputContent>) -> (res: String)
    ensures
        res@ == joined_text(contents@),
{
    let mut text = String::new();
    let mut i: usize = 0;
    while i < contents.len()
        invariant
            i <= contents@.len(),
            text@ == joined_text(contents@.take(i as int)),
        decreases contents.len() - i,
    {
        proof {
            assert(contents@.take(i + 1).drop_last() =~= contents@.take(i as int));
            reveal_strlit("\n");
        }
        match &contents[i] {
            OutputContent::OutputText(t) => {
                if !text.as_str().is_empty() {
                    text.append("\n");
                }
                text.append(t.text.as_str());
            },
            _ => {},
        }
        i = i + 1;
    }
    proof {
        assert(contents@.take(i as int) =~= contents@);
    }
    text
}

/// The assistant texts a response's output contributes: the joined text of each output
/// message that has any, in order.
pub open spec fn assistant_texts(items: Seq<OutputItem>) -> Seq<Seq<char>>
    decreases items.len(),
{
    if items.len() == 0 {
        Seq::empty()
    } else {
        let before = assistant_texts(items.drop_last());
        match items.last() {
            OutputItem::Message(m) => if joined_text(m.content@).len() > 0 {
                before.push(joined_text(m.content@))
            } else {
                before
            },
            _ => before,
        }
    }
}

/// The function calls a response's output asks for, in order.
pub open spec fn tool_calls_of(items: Seq<OutputItem>) -> Seq<FunctionToolCall>
    decreases items.len(),
{
    if items.len() == 0 {
        Seq::empty()
    } else {
        let before = tool_calls_of(items.drop_last());
        match items.last() {
            OutputItem::FunctionCall(c) => before.push(c),
            _ => before,
        }
    }
}

impl AgentContext {
    /// Folds a (non-streamed) response's output into the conversation: every output
    /// message with text becomes one assistant message; function calls are returned,
    /// in order, to be run before the next turn; file searches and reasoning are skipped.
    pub fn absorb_output(&mut self, items: Vec<OutputItem>) -> (res: Vec<FunctionToolCall>)
        ensures
            final(self).conversation().len() == old(self).conversation().len() + assistant_texts(items@).len(),
            final(self).conversation().take(old(self).conversation().len() as int) == old(self).conversation(),
            forall|i: int|
                0 <= i < assistant_texts(items@).len() ==> is_text_item(
                    #[trigger] final(self).conversation()[old(self).conversation().len() + i],
                    MessageRole::Assistant,
                    assistant_texts(items@)[i],
                ),
            res@ == tool_calls_of(items@),
            final(self).results() == old(self).results(),
            final(self).baseline() == old(self).baseline(),
    {
        let ghost n: int = items@.len() as int;
        let ghost all = items@;
        let mut rest = items;
        let mut pending: Vec<OutputItem> = Vec::new();
        // Reverse the items so that popping hands them out in the order they came.
        while rest.len() > 0
            invariant
                rest@ == all.take(rest@.len() as int),
                pending@.len() + rest@.len() == n,
                n == all.len(),
                forall|j: int| 0 <= j < pending@.len() ==> #[trigger] pending@[j] == all[n - 1 - j],
            decreases rest.len(),
        {
            let it = rest.pop().unwrap();
            pending.push(it);
            proof {
                assert(rest@ =~= all.take(rest@.len() as int));
            }
        }
        let mut calls: Vec<FunctionToolCall> = Vec::new();
        while pending.len() > 0
            invariant
                n == all.len(),
                pending@.len() <= n,
                forall|j: int| 0 <= j < pending@.len() ==> #[trigger] pending@[j] == all[n - 1 - j],
                calls@ == tool_calls_of(all.take(n - pending@.len())),
                self.conversation@.len() == old(self).conversation@.len() + assistant_texts(
                    all.take(n - pending@.len()),
                ).len(),
                self.conversation@.take(old(self).conversation@.len() as int) == old(self).conversation@,
                forall|i: int|
                    0 <= i < assistant_texts(all.take(n - pending@.len())).len() ==> is_text_item(
                        #[trigger] self.conversation@[old(self).conversation@.len() + i],
                        MessageRole::Assistant,
                        assistant_texts(all.take(n - pending@.len()))[i],
                    ),
                self.tool_results@ == old(self).tool_results@,
                self.baseline_len == old(self).baseline_len,
            decreases pending.len(),
        {
            let ghost k: int = n - pending@.len();
            let it = pending.pop().unwrap();
            proof {
                assert(it == all[k]);
                assert(all.take(k + 1).drop_last() =~= all.take(k));
                assert(all.take(k + 1).last() == all[k]);
            }
            let ghost before_conv = self.conversation@;
            match it {
                OutputItem::Message(m) => {
                    let text = join_text_parts(&m.content);
                    if !text.as_str().is_empty() {
                        self.conversation.push(InputItem::from_text(MessageRole::Assistant, text));
                        proof {
                            assert(self.conversation@.take(old(self).conversation@.len() as int)
                                =~= before_conv.take(old(self).conversation@.len() as int));
                        }
                    }
                },
                OutputItem::FunctionCall(c) => {
                    calls.push(c);
                },
                _ => {},
            }
        }
        proof {
            assert(all.take(n) =~= all);
        }
        calls
    }
}

/// A streamed response event, as far as the run loop reads it.
#[derive(Debug)]
pub enum StreamEvent {
    OutputTextDelta,
    OutputTextDone(OutputTextDone),
    OutputItemAdded(OutputItem),
    OutputItemDone(OutputItem),
    FileSearchCallSearching,
    FileSearchCallCompleted,
    Error(ErrorEvent),
    Completed,
    /// Any event the loop does not act on.
    Other,
}

/// What the run loop does after a streamed event.
#[derive(Debug)]
pub enum StreamStep {
    /// Keep reading; `forward` says whether the event goes on to the caller's stream.
    Continue { forward: bool },
    /// The response is complete; the collected tool calls are the turn's result.
    Finish { forward: bool },
    /// The service reported an error with this message.
    Fail(String),
}

impl AgentContext {
    /// Reacts to one streamed event: finished output texts become assistant messages,
    /// finished function calls are collected in `calls`, and the event is forwarded when
    /// the caller's stream shows it. The completion event is forwarded only when no tool
    /// call was collected.
    pub fn absorb_stream_event(
        &mut self,
        calls: &mut Vec<FunctionToolCall>,
        event: StreamEvent,
    ) -> (res: StreamStep)
        ensures
            final(self).results() == old(self).results(),
            final(self).baseline() == old(self).baseline(),
            match event {
                StreamEvent::OutputTextDone(d) => {
                    &&& res == StreamStep::Continue { forward: true }
                    &&& final(self).conversation() == old(self).conversation().push(
                        text_item(MessageRole::Assistant, d.text),
                    )
                    &&& final(calls)@ == old(calls)@
                },
                StreamEvent::OutputItemDone(OutputItem::FunctionCall(c)) => {
                    &&& res == StreamStep::Continue { forward: true }
                    &&& final(self).conversation() == old(self).conversation()
                    &&& final(calls)@ == old(calls)@.push(c)
                },
                _ => {
                    &&& final(self).conversation() == old(self).conversation()
                    &&& final(calls)@ == old(calls)@
                    &&& res == match event {
                        StreamEvent::OutputTextDelta => StreamStep::Continue { forward: true },
                        StreamEvent::OutputItemAdded(item) => StreamStep::Continue {
                            forward: item is FunctionCall,
                        },
                        StreamEvent::FileSearchCallSearching => StreamStep::Continue { forward: true },
                        StreamEvent::FileSearchCallCompleted => StreamStep::Continue { forward: true },
                        StreamEvent::Error(e) => StreamStep::Fail(e.error.message),
                        StreamEvent::Completed => StreamStep::Finish { forward: old(calls)@.len() == 0 },
                        _ => StreamStep::Continue { forward: false },
                    }
                },
            },
    {
        match event {
            StreamEvent::OutputTextDelta => StreamStep::Continue { forward: true },
            StreamEvent::OutputTextDone(d) => {
                self.conversation.push(InputItem::from_text(MessageRole::Assistant, d.text));
                StreamStep::Continue { forward: true }
            },
            StreamEvent::OutputItemAdded(item) => {
                let forward = match item {
                    OutputItem::FunctionCall(_) => true,
                    _ => false,
                };
                StreamStep::Continue { forward }
            },
            StreamEvent::OutputItemDone(item) => match item {
                OutputItem::FunctionCall(c) => {
                    calls.push(c);
                    StreamStep::Continue { forward: true }
                },
                _ => StreamStep::Continue { forward: false },
            },
            StreamEvent::FileSearchCallSearching => StreamStep::Continue { forward: true },
            StreamEvent::FileSearchCallCompleted => StreamStep::Continue { forward: true },
            StreamEvent::Error(e) => StreamStep::Fail(e.error.message),
            StreamEvent::Completed => StreamStep::Finish { forward: calls.len() == 0 },
            StreamEvent::Other => StreamStep::Continue { forward: false },
        }
    }
}

/// The settings an agent runs with: its prompt and user data (the seed of every
/// conversation), the model, the turn limit and the tools it offers.
#[derive(Clone, Debug)]
pub struct AgentConfig {
    system_prompt: String,
    user_data: Option<String>,
    model: String,
    max_turns: usize,
    tools: Vec<FunctionTool>,
}

impl AgentConfig {
    pub closed spec fn spec_system_prompt(&self) -> Seq<char> {
        self.system_prompt@
    }

    pub closed spec fn spec_user_data(&self) -> Option<String> {
        self.user_data
    }

    pub closed spec fn spec_model(&self) -> Seq<char> {
        self.model@
    }

    pub closed spec fn spec_max_turns(&self) -> usize {
        self.max_turns
    }

    pub closed spec fn spec_tools(&self) -> Seq<FunctionTool> {
        self.tools@
    }

    /// An agent with the given prompt and user data, on the default model, with a limit
    /// of ten turns and no tools.
    pub fn new(system_prompt: &str, user_data: Option<String>) -> (res: Self)
        ensures
            res.spec_system_prompt() == system_prompt@,
            res.spec_user_data() == user_data,
            res.spec_model() == GPT4_O@,
            res.spec_max_turns() == 10,
            res.spec_tools() == Seq::<FunctionTool>::empty(),
    {
        AgentConfig {
            system_prompt: system_prompt.to_owned(),
            user_data,
            model: GPT4_O.to_owned(),
            max_turns: 10,
            tools: Vec::new(),
        }
    }

    /// A fresh context seeded with the prompt and, when given, the user data.
    pub fn seed_context(&self) -> (res: AgentContext)
        ensures
            res.conversation().len() == (if self.spec_user_data() is Some { 2int } else { 1int }),
            is_text_item(res.conversation()[0], MessageRole::Developer, self.spec_system_prompt()),
            self.spec_user_data() matches Some(d) ==> is_text_item(
                res.conversation()[1],
                MessageRole::Developer,
                d@,
            ),
            res.results() == Seq::<serde_json::Value>::empty(),
            res.baseline() == res.conversation().len(),
    {
        AgentContext::seed(self.system_prompt.as_str(), &self.user_data)
    }

    /// Sets the turn limit; a limit below one turn is raised to one.
    pub fn set_max_turns(self, max_turns: usize) -> (res: Self)
        ensures
            res.spec_max_turns() == (if max_turns < 1 { 1 } else { max_turns }),
            res.spec_system_prompt() == self.spec_system_prompt(),
            res.spec_user_data() == self.spec_user_data(),
            res.spec_model() == self.spec_model(),
            res.spec_tools() == self.spec_tools(),
    {
        let mut c = self;
        c.max_turns = clamp_max_turns(max_turns);
        c
    }

    /// Offers one more tool.
    pub fn with_tool(self, tool: FunctionTool) -> (res: Self)
        ensures
            res.spec_tools() == self.spec_tools().push(tool),
            res.spec_max_turns() == self.spec_max_turns(),
            res.spec_system_prompt() == self.spec_system_prompt(),
            res.spec_user_data() == self.spec_user_data(),
            res.spec_model() == self.spec_model(),
    {
        let mut c = self;
        c.tools.push(tool);
        c
    }

    /// Runs on `model`.
    pub fn with_model(self, model: String) -> (res: Self)
        ensures
            res.spec_model() == model@,
            res.spec_max_turns() == self.spec_max_turns(),
            res.spec_system_prompt() == self.spec_system_prompt(),
            res.spec_user_data() == self.spec_user_data(),
            res.spec_tools() == self.spec_tools(),
    {
        let mut c = self;
        c.model = model;
        c
    }

    pub fn model(&self) -> (res: &str)
        ensures
            res@ == self.spec_model(),
    {
        self.model.as_str()
    }

    pub fn max_turns(&self) -> (res: usize)
        ensures
            res == self.spec_max_turns(),
    {
        self.max_turns
    }

    pub fn tools(&self) -> (res: &[FunctionTool])
        ensures
            res@ == self.spec_tools(),
    {
        self.tools.as_slice()
    }
}

/// The request for one model turn. The caller's hook may change it, after which
/// `stream`, `model`, `tools` and `included` are set again from here, so that the hook
/// cannot change them.
#[derive(Debug)]
pub struct TurnRequest<'a> {
    /// Whether the response is stored by the service.
    pub store: bool,
    /// The additional output asked back.
    pub included: Vec<Includable>,
    pub model: &'a str,
    /// The conversation so far.
    pub input: &'a [InputItem],
    pub stream: bool,
    /// The tools the model may call, as it chooses.
    pub tools: &'a [FunctionTool],
    /// Whether minimal reasoning effort is asked for.
    pub minimal_reasoning: bool,
}

impl AgentConfig {
    /// The request for the next turn on `ctx`: not stored, asking back the encrypted
    /// reasoning, on the agent's model and tools, with the whole history as input, and
    /// with minimal reasoning effort exactly when streaming.
    pub fn turn_request<'a>(&'a self, ctx: &'a AgentContext, stream: bool) -> (res: TurnRequest<'a>)
        ensures
            !res.store,
            res.included@ == seq![Includable::ReasoningEncryptedContent],
            res.model@ == self.spec_model(),
            res.input@ == ctx.conversation(),
            res.stream == stream,
            res.tools@ == self.spec_tools(),
            res.minimal_reasoning == stream,
    {
        let mut included: Vec<Includable> = Vec::new();
        included.push(Includable::ReasoningEncryptedContent);
        TurnRequest {
            store: false,
            included,
            model: self.model(),
            input: ctx.history(),
            stream,
            tools: self.tools(),
            minimal_reasoning: stream,
        }
    }
}

/// Counts the model turns of one run against the turn limit.
#[derive(Debug)]
pub struct TurnCounter {
    turns: usize,
    max_turns: usize,
}

impl TurnCounter {
    pub closed spec fn spec_turns(&self) -> usize {
        self.turns
    }

    pub closed spec fn spec_max_turns(&self) -> usize {
        self.max_turns
    }

    /// A run never takes more turns than its limit.
    pub closed spec fn wf(&self) -> bool {
        self.turns <= self.max_turns
    }

    pub fn new(max_turns: usize) -> (res: Self)
        ensures
            res.wf(),
            res.spec_turns() == 0,
            res.spec_max_turns() == max_turns,
    {
        TurnCounter { turns: 0, max_turns }
    }

    /// Starts another turn when the limit allows it.
    pub fn try_start_turn(&mut self) -> (res: bool)
        requires
            old(self).wf(),
        ensures
            final(self).wf(),
            res == (old(self).spec_turns() < old(self).spec_max_turns()),
            final(self).spec_turns() == (if res {
                old(self).spec_turns() + 1
            } else {
                old(self).spec_turns() as int
            }),
            final(self).spec_max_turns() == old(self).spec_max_turns(),
    {
        if may_take_turn(self.turns, self.max_turns) {
            self.turns = self.turns + 1;
            true
        } else {
            false
        }
    }

    /// The turns taken so far.
    pub fn turns(&self) -> (res: usize)
        ensures
            res == self.spec_turns(),
    {
        self.turns
    }
}

/// What the agent loop learns between its steps.
#[derive(Debug, Clone, Copy, PartialEq, Eq, Structural)]
pub enum LoopEvent {
    /// The user's input was added; no turn has run yet.
    Started,
    /// A model turn finished and asked for `tool_calls` tool calls.
    TurnFinished { tool_calls: usize },
    /// A model turn failed.
    TurnFailed,
    /// Every tool call of the last turn was answered.
    ToolsAnswered,
    /// A tool handler failed.
    ToolFailed,
}

/// Why the agent loop stopped.
#[derive(Debug, Clone, Copy, PartialEq, Eq, Structural)]
pub enum StopReason {
    /// The model answered without asking for a tool.
    Answered,
    /// The turn limit was reached.
    TurnLimit,
    /// A turn or a tool handler failed.
    Failed,
}

/// What the agent loop does next.
#[derive(Debug, Clone, Copy, PartialEq, Eq, Structural)]
pub enum LoopAction {
    /// Run another model turn.
    RunTurn,
    /// Run the tool calls the last turn asked for.
    RunTools,
    Stop(StopReason),
}

/// The action the agent loop takes after `event`: a new turn is started, within the
/// turn limit, at the start and after the tools answered; a turn without tool calls
/// ends the run, one with tool calls has them run; a failure stops the run.
pub open spec fn loop_action(event: LoopEvent, turn_granted: bool) -> LoopAction {
    match event {
        LoopEvent::Started | LoopEvent::ToolsAnswered => if turn_granted {
            LoopAction::RunTurn
        } else {
            LoopAction::Stop(StopReason::TurnLimit)
        },
        LoopEvent::TurnFinished { tool_calls } => if tool_calls == 0 {
            LoopAction::Stop(StopReason::Answered)
        } else {
            LoopAction::RunTools
        },
        LoopEvent::TurnFailed | LoopEvent::ToolFailed => LoopAction::Stop(StopReason::Failed),
    }
}

impl TurnCounter {
    /// The agent loop's decision after `event`; a new turn is counted when one is
    /// wanted and the limit allows it.
    pub fn next_action(&mut self, event: LoopEvent) -> (res: LoopAction)
        requires
            old(self).wf(),
        ensures
            final(self).wf(),
            final(self).spec_max_turns() == old(self).spec_max_turns(),
            res == loop_action(event, old(self).spec_turns() < old(self).spec_max_turns()),
            final(self).spec_turns() == (if res is RunTurn {
                old(self).spec_turns() + 1
            } else {
                old(self).spec_turns() as int
            }),
    {
        match event {
            LoopEvent::Started | LoopEvent::ToolsAnswered => {
                if self.try_start_turn() {
                    LoopAction::RunTurn
                } else {
                    LoopAction::Stop(StopReason::TurnLimit)
                }
            },
            LoopEvent::TurnFinished { tool_calls } => {
                if tool_calls == 0 {
                    LoopAction::Stop(StopReason::Answered)
                } else {
                    LoopAction::RunTools
                }
            },
            LoopEvent::TurnFailed | LoopEvent::ToolFailed => LoopAction::Stop(StopReason::Failed),
        }
    }
}

/// How many of `attempts` successive turn starts a counter at `turns` of `max_turns`
/// grants.
pub open spec fn turns_granted(turns: int, max_turns: int, attempts: nat) -> nat
    decreases attempts,
{
    if attempts == 0 || turns >= max_turns {
        0
    } else {
        1 + turns_granted(turns + 1, max_turns, (attempts - 1) as nat)
    }
}

/// A run takes at most its turn limit of turns, however often it asks to go on: from a
/// fresh counter, every start that `try_start_turn` grants moves the count one step
/// closer to the limit, and none is granted at the limit.
pub proof fn law_turns_bounded(turns: int, max_turns: int, attempts: nat)
    requires
        0 <= turns <= max_turns,
    ensures
        turns_granted(turns, max_turns, attempts) <= max_turns - turns,
        attempts >= max_turns - turns ==> turns_granted(turns, max_turns, attempts) == max_turns - turns,
    decreases attempts,
{
    if attempts > 0 && turns < max_turns {
        law_turns_bounded(turns + 1, max_turns, (attempts - 1) as nat);
    }
}

} // verus!
