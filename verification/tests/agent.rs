use atb::agent::{
    clamp_max_turns, may_take_turn, AgentConfig, AgentContext, LoopAction, LoopEvent, StopReason, StreamEvent, StreamStep, TurnCounter,
    AGENT_DONE_EVENT, AGENT_ERROR_EVENT,
};
use atb::openai::{
    CustomClient, ErrorEvent, FunctionTool, FunctionToolCall, Includable, InputItem, InputMessageContent,
    ItemStatus, MessageRole, OutpuRefusal, OutputContent, OutputItem, OutputMessage, OutputText,
    OutputTextDone, ResponseError, API_URL_V1, GPT4_O,
};

fn text_of(item: &InputItem) -> Option<(MessageRole, &str)> {
    match item {
        InputItem::Message(m) => match &m.content {
            InputMessageContent::Text(t) => Some((m.role, t.as_str())),
            _ => None,
        },
        _ => None,
    }
}

fn call(name: &str, id: &str) -> FunctionToolCall {
    FunctionToolCall {
        arguments: "{}".to_owned(),
        call_id: id.to_owned(),
        name: name.to_owned(),
        id: None,
        status: None,
    }
}

fn message(parts: &[&str]) -> OutputItem {
    OutputItem::Message(OutputMessage {
        id: "m".to_owned(),
        content: parts
            .iter()
            .map(|p| OutputContent::OutputText(OutputText { annotations: vec![], text: (*p).to_owned() }))
            .collect(),
        role: MessageRole::Assistant,
        status: ItemStatus::Completed,
    })
}

#[test]
fn seeded_context_holds_prompt_and_data() {
    let ctx = AgentContext::seed("sys", &Some("data".to_owned()));
    assert_eq!(ctx.history().len(), 2);
    assert_eq!(ctx.baseline_len(), 2);
    assert_eq!(text_of(&ctx.history()[0]), Some((MessageRole::Developer, "sys")));
    assert_eq!(text_of(&ctx.history()[1]), Some((MessageRole::Developer, "data")));
    let ctx = AgentContext::seed("sys", &None);
    assert_eq!(ctx.baseline_len(), 1);
}

#[test]
fn clearing_history_restores_the_seed() {
    let mut ctx = AgentContext::seed("sys", &None);
    ctx.push_text(MessageRole::User, "hello".to_owned());
    ctx.record_tool_output(call("t", "c1"), serde_json::Value::Bool(true));
    assert_eq!(ctx.history().len(), 4);
    assert_eq!(ctx.tool_results().len(), 1);
    assert_eq!(ctx.messages().len(), 2);
    ctx.clear_history();
    assert_eq!(ctx.history().len(), 1);
    assert!(ctx.tool_results().is_empty());
    assert_eq!(text_of(&ctx.history()[0]), Some((MessageRole::Developer, "sys")));
}

#[test]
fn tool_output_is_recorded_under_the_call_id() {
    let mut ctx = AgentContext::new();
    ctx.record_tool_output(call("lookup", "call-7"), serde_json::Value::from(5));
    match &ctx.history()[0] {
        InputItem::FunctionCall(c) => assert_eq!(c.call_id, "call-7"),
        _ => panic!("expected the call"),
    }
    match &ctx.history()[1] {
        InputItem::FunctionCallOutput(o) => {
            assert_eq!(o.call_id, "call-7");
            assert_eq!(o.output, "5");
        }
        _ => panic!("expected the output"),
    }
    assert_eq!(ctx.tool_results(), &[serde_json::Value::from(5)]);
}

#[test]
fn response_output_is_absorbed_in_order() {
    let mut ctx = AgentContext::new();
    let calls = ctx.absorb_output(vec![
        message(&["a", "b"]),
        OutputItem::FunctionCall(call("f", "1")),
        OutputItem::FileSearchCall,
        message(&[]),
        OutputItem::FunctionCall(call("g", "2")),
        message(&["c"]),
    ]);
    assert_eq!(calls.iter().map(|c| c.name.as_str()).collect::<Vec<_>>(), vec!["f", "g"]);
    assert_eq!(ctx.history().len(), 2);
    assert_eq!(text_of(&ctx.history()[0]), Some((MessageRole::Assistant, "a\nb")));
    assert_eq!(text_of(&ctx.history()[1]), Some((MessageRole::Assistant, "c")));
}

#[test]
fn refusals_are_not_text() {
    let mut ctx = AgentContext::new();
    let item = OutputItem::Message(OutputMessage {
        id: "m".to_owned(),
        content: vec![
            OutputContent::Refusal(OutpuRefusal { refusal: "no".to_owned() }),
            OutputContent::OutputText(OutputText { annotations: vec![], text: "x".to_owned() }),
        ],
        role: MessageRole::Assistant,
        status: ItemStatus::Completed,
    });
    let calls = ctx.absorb_output(vec![item]);
    assert!(calls.is_empty());
    assert_eq!(text_of(&ctx.history()[0]), Some((MessageRole::Assistant, "x")));
}

#[test]
fn stream_events_drive_the_turn() {
    let mut ctx = AgentContext::new();
    let mut calls = Vec::new();
    assert!(matches!(ctx.absorb_stream_event(&mut calls, StreamEvent::OutputTextDelta), StreamStep::Continue { forward: true }));
    let done = OutputTextDone { item_id: "i".to_owned(), output_index: 0, content_index: 0, text: "hi".to_owned() };
    assert!(matches!(ctx.absorb_stream_event(&mut calls, StreamEvent::OutputTextDone(done)), StreamStep::Continue { forward: true }));
    assert_eq!(text_of(&ctx.history()[0]), Some((MessageRole::Assistant, "hi")));
    assert!(matches!(
        ctx.absorb_stream_event(&mut calls, StreamEvent::OutputItemAdded(message(&["x"]))),
        StreamStep::Continue { forward: false }
    ));
    assert!(matches!(
        ctx.absorb_stream_event(&mut calls, StreamEvent::OutputItemAdded(OutputItem::FunctionCall(call("f", "1")))),
        StreamStep::Continue { forward: true }
    ));
    assert!(matches!(
        ctx.absorb_stream_event(&mut calls, StreamEvent::OutputItemDone(OutputItem::FunctionCall(call("f", "1")))),
        StreamStep::Continue { forward: true }
    ));
    assert_eq!(calls.len(), 1);
    assert!(matches!(ctx.absorb_stream_event(&mut calls, StreamEvent::Other), StreamStep::Continue { forward: false }));
    assert!(matches!(ctx.absorb_stream_event(&mut calls, StreamEvent::FileSearchCallSearching), StreamStep::Continue { forward: true }));
    assert!(matches!(ctx.absorb_stream_event(&mut calls, StreamEvent::Completed), StreamStep::Finish { forward: false }));
    let mut none = Vec::new();
    assert!(matches!(ctx.absorb_stream_event(&mut none, StreamEvent::Completed), StreamStep::Finish { forward: true }));
    let err = ErrorEvent { sequence_number: None, error: ResponseError { code: "x".to_owned(), message: "boom".to_owned() } };
    match ctx.absorb_stream_event(&mut none, StreamEvent::Error(err)) {
        StreamStep::Fail(m) => assert_eq!(m, "boom"),
        _ => panic!("expected a failure"),
    }
}

#[test]
fn turns_are_bounded() {
    assert_eq!(clamp_max_turns(0), 1);
    assert_eq!(clamp_max_turns(4), 4);
    assert!(may_take_turn(0, 1) && !may_take_turn(1, 1));
    let mut t = TurnCounter::new(2);
    assert!(t.try_start_turn());
    assert!(t.try_start_turn());
    assert!(!t.try_start_turn());
    assert_eq!(t.turns(), 2);
}

#[test]
fn agent_config_defaults_and_builders() {
    let cfg = AgentConfig::new("sys", None);
    assert_eq!(cfg.model(), GPT4_O);
    assert_eq!(cfg.max_turns(), 10);
    let tool = FunctionTool { name: "demo_tool".to_owned(), parameters: None, strict: None, description: Some("demo".to_owned()) };
    let cfg = cfg.with_tool(tool).with_model("agent-model".to_owned()).set_max_turns(0);
    assert_eq!(cfg.max_turns(), 1);
    assert_eq!(cfg.model(), "agent-model");
    assert_eq!(cfg.tools()[0].name, "demo_tool");
    let ctx = cfg.seed_context();
    assert_eq!(text_of(&ctx.history()[0]), Some((MessageRole::Developer, "sys")));
    assert_eq!(AGENT_DONE_EVENT, "atb.ai.done");
    assert_eq!(AGENT_ERROR_EVENT, "atb.ai.error");
}

#[test]
fn client_request_settings() {
    let client = CustomClient::new("test-key".to_owned());
    assert_eq!(client.request_url(""), format!("{API_URL_V1}/"));
    assert_eq!(client.timeout(), None);
    assert_eq!(client.request_url("responses"), "https://api.openai.com/v1/responses");
    let headers = client.request_headers();
    assert_eq!(headers, vec![
        ("Authorization".to_owned(), "Bearer test-key".to_owned()),
        ("OpenAI-Beta".to_owned(), "assistants=v2".to_owned()),
    ]);
}

#[test]
fn agent_loop_runs_turns_and_tools_until_the_limit() {
    let mut turns = TurnCounter::new(2);
    assert_eq!(turns.next_action(LoopEvent::Started), LoopAction::RunTurn);
    assert_eq!(turns.next_action(LoopEvent::TurnFinished { tool_calls: 2 }), LoopAction::RunTools);
    assert_eq!(turns.next_action(LoopEvent::ToolsAnswered), LoopAction::RunTurn);
    assert_eq!(turns.next_action(LoopEvent::TurnFinished { tool_calls: 1 }), LoopAction::RunTools);
    assert_eq!(turns.next_action(LoopEvent::ToolsAnswered), LoopAction::Stop(StopReason::TurnLimit));
    assert_eq!(turns.turns(), 2);
}

#[test]
fn agent_loop_stops_on_an_answer_or_a_failure() {
    let mut turns = TurnCounter::new(5);
    assert_eq!(turns.next_action(LoopEvent::Started), LoopAction::RunTurn);
    assert_eq!(turns.next_action(LoopEvent::TurnFinished { tool_calls: 0 }), LoopAction::Stop(StopReason::Answered));
    assert_eq!(turns.next_action(LoopEvent::TurnFailed), LoopAction::Stop(StopReason::Failed));
    assert_eq!(turns.next_action(LoopEvent::ToolFailed), LoopAction::Stop(StopReason::Failed));
    assert_eq!(turns.turns(), 1);
}

#[test]
fn turn_request_carries_the_agents_own_fields() {
    let tool = FunctionTool { name: "demo_tool".to_owned(), parameters: None, strict: None, description: Some("demo".to_owned()) };
    let cfg = AgentConfig::new("sys", Some("data".to_owned())).with_tool(tool).with_model("agent-model".to_owned());
    let ctx = cfg.seed_context();
    let req = cfg.turn_request(&ctx, true);
    assert!(!req.store);
    assert_eq!(req.included, vec![Includable::ReasoningEncryptedContent]);
    assert_eq!(req.model, "agent-model");
    assert_eq!(req.input.len(), 2);
    assert!(req.stream && req.minimal_reasoning);
    assert_eq!(req.tools[0].name, "demo_tool");
    let plain = cfg.turn_request(&ctx, false);
    assert!(!plain.stream && !plain.minimal_reasoning);
}
