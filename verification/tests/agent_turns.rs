use llm_agent::agent::dispatch_reply;
use llm_agent::agent::find_target_call;
use llm_agent::agent::take_first_choice;
use llm_agent::agent::target_parse_action;
use llm_agent::agent::tool_error_action;
use llm_agent::agent::until_text_finish;
use llm_agent::agent::until_tool_finish;
use llm_agent::agent::Agent;
use llm_agent::agent::AgentAction;
use llm_agent::agent::DispatchStep;
use llm_agent::agent::ToolTurnPlan;
use llm_agent::agent::TurnEvent;
use llm_agent::error::PromptError;
use llm_agent::message::AssistantContent;
use llm_agent::message::ChatChoice;
use llm_agent::message::ChatMessage;
use llm_agent::message::CompletionResponse;
use llm_agent::message::FinishReason;
use llm_agent::message::RespMessage;
use llm_agent::message::ToolCall;
use llm_agent::tool::ToolBox;
use llm_agent::tool::ToolDescriptor;

fn call(id: &str, name: &str, args: &str) -> ToolCall {
    ToolCall {
        id: id.to_string(),
        name: name.to_string(),
        arguments: args.to_string(),
    }
}

fn descriptor(name: &str) -> ToolDescriptor {
    ToolDescriptor {
        name: name.to_string(),
        description: None,
        parameters: "{}".to_string(),
        strict: false,
    }
}

fn toolcall_choice(calls: Vec<ToolCall>) -> ChatChoice {
    ChatChoice {
        finish_reason: Some(FinishReason::ToolCalls),
        message: RespMessage {
            content: None,
            refusal: None,
            tool_calls: Some(calls),
        },
    }
}

fn agent_with(names: &[&str]) -> Agent {
    let mut tools = ToolBox::new();
    for n in names {
        tools.add_tool(descriptor(n));
    }
    Agent::new(tools, None, "task".to_string())
}

#[test]
fn new_agent_seeds_system_and_user() {
    let a = Agent::new(ToolBox::new(), Some("sys".to_string()), "usr".to_string());
    assert_eq!(a.context.len(), 2);
    assert!(matches!(&a.context[0], ChatMessage::System(s) if s == "sys"));
    assert!(matches!(&a.context[1], ChatMessage::User(u) if u == "usr"));
}

#[test]
fn new_agent_default_system_prompt() {
    let a = Agent::new(ToolBox::new(), None, "usr".to_string());
    assert!(matches!(
        &a.context[0],
        ChatMessage::System(s)
            if s == "You are an expert agent that calls tool to complete your task."
    ));
}

#[test]
fn toolcall_choice_appends_one_assistant_message_in_order() {
    let mut a = agent_with(&["t"]);
    let before = a.context.len();
    let calls = vec![call("1", "x", "{}"), call("2", "y", "{}")];
    let ev = a.accept_choice(toolcall_choice(calls)).unwrap();
    assert_eq!(a.context.len(), before + 1);
    match a.context.last().unwrap() {
        ChatMessage::Assistant(AssistantContent::ToolCalls(recorded)) => {
            assert_eq!(recorded.len(), 2);
            assert_eq!(recorded[0].name, "x");
            assert_eq!(recorded[1].name, "y");
        }
        _ => panic!("expected an assistant tool-call message"),
    }
    match ev {
        TurnEvent::ToolCalls(got) => {
            assert_eq!(got.len(), 2);
            assert_eq!(got[0].id, "1");
            assert_eq!(got[1].id, "2");
        }
        _ => panic!("expected a tool-call event"),
    }
}

#[test]
fn toolcall_list_without_signal_still_classifies() {
    let mut a = agent_with(&[]);
    let choice = ChatChoice {
        finish_reason: None,
        message: RespMessage {
            content: None,
            refusal: None,
            tool_calls: Some(vec![call("1", "t", "{}")]),
        },
    };
    match a.accept_choice(choice).unwrap() {
        TurnEvent::ToolCalls(c) => assert_eq!(c.len(), 1),
        _ => panic!("expected tool calls"),
    }
}

#[test]
fn refusal_choice_appends_refusal() {
    let mut a = agent_with(&[]);
    let choice = ChatChoice {
        finish_reason: Some(FinishReason::ContentFilter),
        message: RespMessage {
            content: None,
            refusal: Some("no".to_string()),
            tool_calls: None,
        },
    };
    match a.accept_choice(choice).unwrap() {
        TurnEvent::Refusal(s) => assert_eq!(s, "no"),
        _ => panic!("expected a refusal event"),
    }
    assert!(matches!(
        a.context.last().unwrap(),
        ChatMessage::Assistant(AssistantContent::Refusal(s)) if s == "no"
    ));
}

#[test]
fn stop_choice_appends_content() {
    let mut a = agent_with(&[]);
    let choice = ChatChoice {
        finish_reason: Some(FinishReason::Stop),
        message: RespMessage {
            content: Some("answer".to_string()),
            refusal: None,
            tool_calls: None,
        },
    };
    match a.accept_choice(choice).unwrap() {
        TurnEvent::Message(s) => assert_eq!(s, "answer"),
        _ => panic!("expected a message event"),
    }
    assert!(matches!(
        a.context.last().unwrap(),
        ChatMessage::Assistant(AssistantContent::Text(s)) if s == "answer"
    ));
}

#[test]
fn refusal_takes_priority_over_content() {
    let mut a = agent_with(&[]);
    let choice = ChatChoice {
        finish_reason: None,
        message: RespMessage {
            content: Some("text".to_string()),
            refusal: Some("refused".to_string()),
            tool_calls: None,
        },
    };
    assert!(matches!(
        a.accept_choice(choice).unwrap(),
        TurnEvent::Refusal(s) if s == "refused"
    ));
}

#[test]
fn shapeless_choice_is_unsupported() {
    let mut a = agent_with(&[]);
    let before = a.context.len();
    let choice = ChatChoice {
        finish_reason: None,
        message: RespMessage {
            content: None,
            refusal: None,
            tool_calls: None,
        },
    };
    assert!(matches!(
        a.accept_choice(choice),
        Err(PromptError::UnsupportedResponse(_))
    ));
    assert_eq!(a.context.len(), before);
}

#[test]
fn empty_content_without_signal_is_unsupported() {
    let mut a = agent_with(&[]);
    let choice = ChatChoice {
        finish_reason: None,
        message: RespMessage {
            content: Some(String::new()),
            refusal: None,
            tool_calls: None,
        },
    };
    assert!(matches!(
        a.accept_choice(choice),
        Err(PromptError::UnsupportedResponse(_))
    ));
}

#[test]
fn response_without_choices_is_unsupported() {
    let resp = CompletionResponse { choices: vec![], usage: None };
    assert!(matches!(
        take_first_choice(resp),
        Err(PromptError::UnsupportedResponse(_))
    ));
}

#[test]
fn first_matching_call_wins_even_among_others() {
    let calls = vec![
        call("1", "other", "{}"),
        call("2", "target", "{\"a\":1}"),
        call("3", "target", "{\"a\":2}"),
    ];
    assert_eq!(find_target_call(&calls, "target"), Some(1));
    assert_eq!(find_target_call(&calls, "missing"), None);
}

#[test]
fn until_tool_turn_picks_first_target() {
    let a = agent_with(&["other"]);
    let calls = vec![
        call("1", "other", "{}"),
        call("2", "target", "{\"a\":1}"),
    ];
    match a.until_tool_turn::<u32>("target", TurnEvent::ToolCalls(calls)) {
        ToolTurnPlan::ParseTarget(c) => {
            assert_eq!(c.id, "2");
            assert_eq!(c.arguments, "{\"a\":1}");
        }
        _ => panic!("expected the target call"),
    }
}

#[test]
fn until_tool_turn_without_target_dispatches() {
    let a = agent_with(&["other"]);
    let calls = vec![call("1", "other", "{}")];
    match a.until_tool_turn::<u32>("target", TurnEvent::ToolCalls(calls)) {
        ToolTurnPlan::Dispatch(d) => {
            assert_eq!(d.calls.len(), 1);
            assert_eq!(d.next, 0);
        }
        _ => panic!("expected a dispatch plan"),
    }
}

#[test]
fn until_tool_turn_terminal_text_is_unexpected() {
    let a = agent_with(&[]);
    match a.until_tool_turn::<u32>("t", TurnEvent::Message("m".to_string())) {
        ToolTurnPlan::Decided(AgentAction::Unexpected(s)) => assert_eq!(s, "m"),
        _ => panic!("expected unexpected text"),
    }
    match a.until_tool_turn::<u32>("t", TurnEvent::Refusal("r".to_string())) {
        ToolTurnPlan::Decided(AgentAction::Unexpected(s)) => assert_eq!(s, "r"),
        _ => panic!("expected unexpected text"),
    }
}

#[test]
fn until_text_turn_policies() {
    let a = agent_with(&[]);
    match a.until_text_turn(TurnEvent::Message("m".to_string())) {
        ToolTurnPlan::Decided(AgentAction::Out(s)) => assert_eq!(s, "m"),
        _ => panic!("a message is the terminal value"),
    }
    match a.until_text_turn(TurnEvent::Refusal("r".to_string())) {
        ToolTurnPlan::Decided(AgentAction::Unexpected(s)) => assert_eq!(s, "r"),
        _ => panic!("a refusal is terminal text of its own kind"),
    }
    match a.until_text_turn(TurnEvent::ToolCalls(vec![call("1", "t", "{}")])) {
        ToolTurnPlan::Dispatch(d) => assert_eq!(d.calls.len(), 1),
        _ => panic!("tool calls are always dispatched"),
    }
}

#[test]
fn matching_name_with_bad_arguments_surfaces_schema_error() {
    let c = call("1", "target", "not json");
    let r: Result<AgentAction<u32>, PromptError> =
        target_parse_action("{\"type\":\"object\"}", &c, None);
    match r {
        Err(PromptError::IncorrectToolCall(schema, raw)) => {
            assert_eq!(schema, "{\"type\":\"object\"}");
            assert_eq!(raw, "not json");
        }
        _ => panic!("expected a schema error for exactly that call"),
    }
    let r: Result<AgentAction<u32>, PromptError> = target_parse_action("{}", &c, Some(7));
    assert!(matches!(r, Ok(AgentAction::Out(7))));
}

#[test]
fn dispatch_walk_joins_replies() {
    let a = agent_with(&["x", "y"]);
    let calls = vec![call("1", "x", "{}"), call("2", "y", "{}")];
    let mut d = match a.until_tool_turn::<u32>("absent", TurnEvent::ToolCalls(calls)) {
        ToolTurnPlan::Dispatch(d) => d,
        _ => panic!("expected a dispatch plan"),
    };
    for reply in ["first", "second"] {
        match a.dispatch_step(&d) {
            DispatchStep::Invoke(c) => {
                assert!(c.name == "x" || c.name == "y");
                dispatch_reply(&mut d, Ok(reply.to_string())).unwrap();
            }
            _ => panic!("expected an invocation"),
        }
    }
    match a.dispatch_step(&d) {
        DispatchStep::Complete(s) => assert_eq!(s, "first\nsecond"),
        _ => panic!("expected the joined replies"),
    }
}

#[test]
fn unknown_tool_rejects_walk_and_is_recoverable() {
    let a = agent_with(&["known"]);
    let calls = vec![call("1", "ghost", "{}")];
    let d = match a.until_tool_turn::<u32>("absent", TurnEvent::ToolCalls(calls)) {
        ToolTurnPlan::Dispatch(d) => d,
        _ => panic!("expected a dispatch plan"),
    };
    let e = match a.dispatch_step(&d) {
        DispatchStep::Reject(e) => e,
        _ => panic!("expected a rejection"),
    };
    match &e {
        PromptError::NoSuchTool(n) => assert_eq!(n, "ghost"),
        _ => panic!("expected an unknown-tool error"),
    }
    assert!(matches!(
        tool_error_action::<u32>(e),
        Ok(AgentAction::Continue)
    ));
}

#[test]
fn malformed_arguments_do_not_end_the_loop_three_times_over() {
    // Three consecutive turns, each answering with malformed tool
    // arguments; each one must come back as Continue, never as an error.
    let mut a = agent_with(&["t"]);
    for round in 0..3 {
        let calls = vec![call("1", "t", "oops")];
        let ev = a.accept_choice(toolcall_choice(calls)).unwrap();
        let mut d = match a.until_tool_turn::<u32>("absent", ev) {
            ToolTurnPlan::Dispatch(d) => d,
            _ => panic!("expected a dispatch plan"),
        };
        match a.dispatch_step(&d) {
            DispatchStep::Invoke(_) => {}
            _ => panic!("expected an invocation"),
        }
        // The tool's own argument parse failed.
        let failure = PromptError::IncorrectToolCall("{}".to_string(), "oops".to_string());
        let e = dispatch_reply(&mut d, Err(failure)).unwrap_err();
        let action = tool_error_action::<u32>(e).expect("recoverable");
        assert!(matches!(action, AgentAction::Continue), "round {}", round);
        assert!(matches!(until_tool_finish::<u32>(action), Ok(None)));
    }
}

#[test]
fn fatal_dispatch_errors_propagate() {
    let e = PromptError::Transport("down".to_string());
    assert!(matches!(
        tool_error_action::<u32>(e),
        Err(PromptError::Transport(_))
    ));
}

#[test]
fn loop_finish_steps() {
    assert!(matches!(
        until_tool_finish::<u32>(AgentAction::Out(3)),
        Ok(Some(3))
    ));
    match until_tool_finish::<u32>(AgentAction::Unexpected("t".to_string())) {
        Err(PromptError::Unexpected(s)) => assert_eq!(s, "t"),
        _ => panic!("unexpected text is an error for run-until-tool"),
    }
    assert_eq!(until_text_finish(AgentAction::Continue), None);
    assert_eq!(
        until_text_finish(AgentAction::Unexpected("refusal".to_string())),
        Some("refusal".to_string())
    );
    assert_eq!(
        until_text_finish(AgentAction::Out("done".to_string())),
        Some("done".to_string())
    );
}

#[test]
fn append_context_pushes_user_message() {
    let mut a = agent_with(&[]);
    let before = a.context.len();
    a.append_context("tool says hi".to_string()).unwrap();
    assert_eq!(a.context.len(), before + 1);
    assert!(matches!(
        a.context.last().unwrap(),
        ChatMessage::User(s) if s == "tool says hi"
    ));
}
