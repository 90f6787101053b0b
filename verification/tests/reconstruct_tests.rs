use steelwool::OrchestrationError;
use steelwool::PartialToolCall;
use steelwool::ToolCallReconstructor;
use steelwool::reconstruct_tool_calls;

fn piece(id: Option<&str>, name: Option<&str>, fragment: Option<&str>) -> PartialToolCall {
    PartialToolCall {
        id: id.map(|s| s.to_string()),
        name: name.map(|s| s.to_string()),
        arguments_fragment: fragment.map(|s| s.to_string()),
    }
}

#[test]
fn test_tool_call_splitting() {
    // The appearance of name "g" must flush "f" before starting "g".
    let pieces = vec![
        piece(None, Some("f"), Some("{\"a\":")),
        piece(None, None, Some("1}")),
        piece(None, Some("g"), Some("{}")),
    ];
    let calls = reconstruct_tool_calls(&pieces).expect("reconstruction should succeed");
    assert_eq!(calls.len(), 2);
    assert_eq!(calls[0].name, "f");
    assert_eq!(calls[0].arguments, "{\"a\":1}");
    assert_eq!(calls[1].name, "g");
    assert_eq!(calls[1].arguments, "{}");
    let parsed: serde_json::Value = serde_json::from_str(&calls[0].arguments).unwrap();
    assert_eq!(parsed["a"], serde_json::Value::from(1));
}

#[test]
fn test_invalid_arguments_reported_at_finalization() {
    let pieces = vec![
        piece(Some("call-1"), Some("f"), Some("{\"a\":")),
    ];
    match reconstruct_tool_calls(&pieces) {
        Err(OrchestrationError::InvalidToolArguments { id, raw }) => {
            assert_eq!(id, "call-1");
            assert_eq!(raw, "{\"a\":");
        }
        _ => panic!("expected invalid tool arguments"),
    }
}

#[test]
fn test_zero_fragments_resolve_to_empty_arguments() {
    // A tool call with no argument text resolves to an empty arguments
    // value, not a parse failure.
    let pieces = vec![piece(Some("call-2"), Some("noargs"), None)];
    let calls = reconstruct_tool_calls(&pieces).expect("reconstruction should succeed");
    assert_eq!(calls.len(), 1);
    assert_eq!(calls[0].id, "call-2");
    assert_eq!(calls[0].name, "noargs");
    assert_eq!(calls[0].arguments, "");
}

#[test]
fn test_absorb_emits_on_new_name() {
    let mut recon = ToolCallReconstructor::new();
    assert!(recon
        .absorb(&piece(Some("a"), Some("first"), Some("{\"x\":1}")))
        .expect("absorb should succeed")
        .is_none());
    let emitted = recon
        .absorb(&piece(Some("b"), Some("second"), None))
        .expect("absorb should succeed")
        .expect("the first call should be flushed");
    assert_eq!(emitted.id, "a");
    assert_eq!(emitted.name, "first");
    assert_eq!(emitted.arguments, "{\"x\":1}");
    let last = recon
        .finish()
        .expect("finish should succeed")
        .expect("the second call should be flushed");
    assert_eq!(last.id, "b");
    assert_eq!(last.name, "second");
    assert_eq!(last.arguments, "");
}

#[test]
fn test_finish_rejects_malformed_accumulated_text() {
    let mut recon = ToolCallReconstructor::new();
    recon
        .absorb(&piece(Some("bad"), Some("f"), Some("not json")))
        .expect("absorb should succeed");
    match recon.finish() {
        Err(OrchestrationError::InvalidToolArguments { id, raw }) => {
            assert_eq!(id, "bad");
            assert_eq!(raw, "not json");
        }
        _ => panic!("expected invalid tool arguments"),
    }
}

#[test]
fn test_arguments_accumulate_across_many_pieces() {
    let pieces = vec![
        piece(Some("acc"), Some("f"), Some("{\"key\"")),
        piece(None, None, Some(": \"val")),
        piece(None, None, Some("ue\"}")),
    ];
    let calls = reconstruct_tool_calls(&pieces).expect("reconstruction should succeed");
    assert_eq!(calls.len(), 1);
    assert_eq!(calls[0].arguments, "{\"key\": \"value\"}");
}
