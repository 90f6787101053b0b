use std::cell::Cell;

use steelwool::ContentType;
use steelwool::ContextBuilder;
use steelwool::Message;
use steelwool::MessageRole;
use steelwool::OrchestrationError;
use steelwool::PromptResponse;
use steelwool::StopReason;
use steelwool::ToolCall;
use steelwool::UnresolvedResponse;

fn model_message(content: &str) -> Message {
    Message {
        role: MessageRole::Model,
        content: content.to_string(),
        content_type: ContentType::Text,
    }
}

fn call(id: &str, name: &str) -> ToolCall {
    ToolCall {
        id: id.to_string(),
        name: name.to_string(),
        arguments: "{}".to_string(),
    }
}

fn tool_call_response(content: &str, token_usage: u32, calls: Vec<ToolCall>) -> PromptResponse {
    PromptResponse {
        message: model_message(content),
        stop_reason: StopReason::ToolCalls,
        token_usage,
        tool_calls: Some(calls),
    }
}

fn plain_response(content: &str, stop_reason: StopReason) -> PromptResponse {
    PromptResponse {
        message: model_message(content),
        stop_reason,
        token_usage: 0,
        tool_calls: None,
    }
}

#[test]
fn test_resolve_without_appends_message() {
    let ctx = ContextBuilder { history: vec![] };
    let unresolved = UnresolvedResponse {
        prompt_response: plain_response("answer", StopReason::Stop),
        context_builder: ctx,
    };
    let resolved = unresolved.resolve_without();
    assert_eq!(resolved.history.len(), 1);
    assert_eq!(resolved.history[0].content, "answer");
    assert_eq!(resolved.history[0].role, MessageRole::Model);
}

#[test]
fn test_direct_resolution_idempotent() {
    // Equivalent unresolved values resolve to identical states.
    let make = || UnresolvedResponse {
        prompt_response: tool_call_response("same", 7, vec![call("i", "f")]),
        context_builder: ContextBuilder { history: vec![] },
    };
    let first = make().resolve_without();
    let second = make().resolve_without();
    assert_eq!(first.history.len(), second.history.len());
    for (a, b) in first.history.iter().zip(second.history.iter()) {
        assert_eq!(a.role, b.role);
        assert_eq!(a.content, b.content);
        assert_eq!(a.content_type, b.content_type);
    }
}

#[test]
fn test_complete_submission_success() {
    let ctx = ContextBuilder { history: vec![] };
    let unresolved = ctx
        .complete_submission(Ok(plain_response("fine", StopReason::Stop)))
        .expect("a successful outcome should produce an unresolved response");
    assert_eq!(unresolved.prompt_response.message.content, "fine");
    assert!(unresolved.context_builder.history.is_empty());
}

#[test]
fn test_complete_submission_backend_error() {
    let ctx = ContextBuilder { history: vec![] };
    match ctx.complete_submission(Err("connection refused".to_string())) {
        Err(OrchestrationError::Backend(detail)) => assert_eq!(detail, "connection refused"),
        _ => panic!("expected a backend error"),
    }
}

#[test]
fn test_tool_failure_isolation() {
    // One failing tool call of two: a single tool-role message holds the
    // successful result plus an inline error line, and nothing aborts.
    let unresolved = UnresolvedResponse {
        prompt_response: tool_call_response(
            "using tools",
            0,
            vec![call("id1", "f"), call("id2", "g")],
        ),
        context_builder: ContextBuilder { history: vec![] },
    };
    let executor = |c: &ToolCall| -> Result<String, String> {
        if c.id == "id1" {
            Ok("sunny".to_string())
        } else {
            Err("boom".to_string())
        }
    };
    let resolved = unresolved.resolve(&executor);
    assert_eq!(resolved.history.len(), 2);
    assert_eq!(resolved.history[0].role, MessageRole::Model);
    assert_eq!(resolved.history[1].role, MessageRole::Tool);
    assert_eq!(
        resolved.history[1].content,
        "sunny\nError in tool call id2 of g: boom\n"
    );
}

#[test]
fn test_exec_tool_calls_without_tool_stop_only_appends() {
    let unresolved = UnresolvedResponse {
        prompt_response: plain_response("done", StopReason::Stop),
        context_builder: ContextBuilder { history: vec![] },
    };
    let executor = |_c: &ToolCall| -> Result<String, String> {
        panic!("the executor must not run without a tool-call stop reason")
    };
    let after = unresolved.exec_tool_calls(&executor);
    assert_eq!(after.context_builder.history.len(), 1);
    assert_eq!(after.context_builder.history[0].content, "done");
    assert_eq!(after.prompt_response.message.content, "done");
}

#[test]
fn test_depth_termination() {
    // A backend that always requests tool calls: with depth 2 the loop
    // performs exactly 2 round-trips, then appends the last message.
    let round_trips = Cell::new(0u32);
    let adapter = |_ctx: &ContextBuilder, _budget: u32| -> Result<PromptResponse, String> {
        round_trips.set(round_trips.get() + 1);
        Ok(tool_call_response("again", 1, vec![call("c", "t")]))
    };
    let executor = |_c: &ToolCall| -> Result<String, String> { Ok("result".to_string()) };
    let unresolved = UnresolvedResponse {
        prompt_response: tool_call_response("start", 1, vec![call("c0", "t")]),
        context_builder: ContextBuilder { history: vec![] },
    };
    let (resolved, rounds) = unresolved
        .resolve_tool_calls_counted(&adapter, &executor, 2, 1000)
        .expect("resolution should succeed");
    assert_eq!(round_trips.get(), 2);
    assert_eq!(rounds, 2);
    // Two full tool rounds (model message + tool message each), then the
    // last response appended directly.
    assert_eq!(resolved.history.len(), 5);
    assert_eq!(resolved.history[0].content, "start");
    assert_eq!(resolved.history[1].role, MessageRole::Tool);
    assert_eq!(resolved.history[2].content, "again");
    assert_eq!(resolved.history[3].role, MessageRole::Tool);
    assert_eq!(resolved.history[4].content, "again");
}

#[test]
fn test_token_termination() {
    // A first response reporting more usage than the budget: no second
    // round is attempted.
    let round_trips = Cell::new(0u32);
    let adapter = |_ctx: &ContextBuilder, _budget: u32| -> Result<PromptResponse, String> {
        round_trips.set(round_trips.get() + 1);
        Ok(tool_call_response("again", 1, vec![call("c", "t")]))
    };
    let executor = |_c: &ToolCall| -> Result<String, String> { Ok("result".to_string()) };
    let unresolved = UnresolvedResponse {
        prompt_response: tool_call_response("expensive", 150, vec![call("c0", "t")]),
        context_builder: ContextBuilder { history: vec![] },
    };
    let (resolved, rounds) = unresolved
        .resolve_tool_calls_counted(&adapter, &executor, 5, 100)
        .expect("resolution should succeed");
    assert_eq!(round_trips.get(), 0);
    assert_eq!(rounds, 0);
    assert_eq!(resolved.history.len(), 1);
    assert_eq!(resolved.history[0].content, "expensive");
}

#[test]
fn test_resolution_stops_on_plain_termination() {
    let round_trips = Cell::new(0u32);
    let adapter = |_ctx: &ContextBuilder, _budget: u32| -> Result<PromptResponse, String> {
        round_trips.set(round_trips.get() + 1);
        Ok(plain_response("final answer", StopReason::Stop))
    };
    let executor = |_c: &ToolCall| -> Result<String, String> { Ok("42".to_string()) };
    let unresolved = UnresolvedResponse {
        prompt_response: tool_call_response("asking", 10, vec![call("c0", "calc")]),
        context_builder: ContextBuilder { history: vec![] },
    };
    let resolved = unresolved
        .resolve_tool_calls(&adapter, &executor, 5, 1000)
        .expect("resolution should succeed");
    assert_eq!(round_trips.get(), 1);
    assert_eq!(resolved.history.len(), 3);
    assert_eq!(resolved.history[0].content, "asking");
    assert_eq!(resolved.history[1].content, "42\n");
    assert_eq!(resolved.history[2].content, "final answer");
}

#[test]
fn test_resolution_surfaces_backend_error() {
    let adapter = |_ctx: &ContextBuilder, _budget: u32| -> Result<PromptResponse, String> {
        Err("backend down".to_string())
    };
    let executor = |_c: &ToolCall| -> Result<String, String> { Ok("ok".to_string()) };
    let unresolved = UnresolvedResponse {
        prompt_response: tool_call_response("asking", 10, vec![call("c0", "t")]),
        context_builder: ContextBuilder { history: vec![] },
    };
    match unresolved.resolve_tool_calls(&adapter, &executor, 5, 1000) {
        Err(OrchestrationError::Backend(detail)) => assert_eq!(detail, "backend down"),
        _ => panic!("expected a backend error"),
    }
}

#[test]
fn test_resolve_with_sync_applies_resolver() {
    let unresolved = UnresolvedResponse {
        prompt_response: plain_response("ignored", StopReason::Stop),
        context_builder: ContextBuilder { history: vec![] },
    };
    let resolved = unresolved.resolve_with_sync(|u| {
        u.context_builder.add_message(model_message("custom"))
    });
    assert_eq!(resolved.history.len(), 1);
    assert_eq!(resolved.history[0].content, "custom");
}

#[test]
fn test_transform_with_sync_applies_transformation() {
    let unresolved = UnresolvedResponse {
        prompt_response: plain_response("kept", StopReason::Stop),
        context_builder: ContextBuilder { history: vec![] },
    };
    let transformed = unresolved.transform_with_sync(|mut u| {
        u.context_builder = u.context_builder.add_message(model_message("inserted"));
        u
    });
    assert_eq!(transformed.prompt_response.message.content, "kept");
    assert_eq!(transformed.context_builder.history.len(), 1);
}
