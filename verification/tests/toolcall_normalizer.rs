use forge_trace::toolcall_normalizer::{
    normalize_tool_call, settle_tool_call, CatalogAnswer, ToolCallFull,
};
use serde_json::Value;

fn call(name: &str, call_id: Option<&str>, arguments: Value) -> ToolCallFull<Value> {
    ToolCallFull {
        name: name.to_string(),
        call_id: call_id.map(|id| id.to_string()),
        arguments,
        thought_signature: None,
    }
}

fn listed(call: &ToolCallFull<Value>) -> bool {
    call.name == "write" || call.name == "shell"
}

/// A tool's own form of a call: its arguments parsed, where they are text that parses.
fn typed(call: &ToolCallFull<Value>) -> Option<ToolCallFull<Value>> {
    let arguments = match call.arguments.as_str() {
        Some(text) => serde_json::from_str(text).ok()?,
        None => call.arguments.clone(),
    };
    Some(ToolCallFull {
        name: call.name.clone(),
        call_id: None,
        arguments,
        thought_signature: None,
    })
}

#[test]
fn normalizes_stringified_valid_arguments() {
    let input = call(
        "write",
        Some("functions.write:1"),
        Value::from("{\"file_path\":\"/tmp/out.txt\",\"content\":\"hello\"}"),
    );

    let actual = normalize_tool_call(input, listed, typed);

    assert_eq!(actual.call_id.as_deref(), Some("functions.write:1"));
    assert_eq!(actual.arguments["file_path"], "/tmp/out.txt");
    assert_eq!(actual.arguments["content"], "hello");
}

#[test]
fn preserves_unrecoverable_malformed_arguments() {
    let input = call(
        "shell",
        Some("functions.shell:1"),
        Value::from("{\"command\":\"touch \"/tmp/.done\"\"}"),
    );

    let actual = normalize_tool_call(input, listed, typed);

    assert_eq!(actual.call_id.as_deref(), Some("functions.shell:1"));
    assert!(actual.arguments.is_string());
    assert_eq!(actual.arguments, "{\"command\":\"touch \"/tmp/.done\"\"}");
}

#[test]
fn unlisted_tool_is_left_alone() {
    let actual = normalize_tool_call(
        call("mcp_tool", Some("c1"), Value::from("{}")),
        listed,
        |_| panic!("the catalogue is asked for a form of an unlisted tool"),
    );
    assert_eq!(actual, call("mcp_tool", Some("c1"), Value::from("{}")));
}

#[test]
fn identifier_and_signature_are_those_of_the_call() {
    let mut input = call("write", None, Value::from(1));
    input.thought_signature = Some("sig".to_string());
    let mut form = call("Write", Some("other"), Value::from(2));
    form.thought_signature = Some("other".to_string());

    let actual = settle_tool_call(input, CatalogAnswer::Typed(form));

    assert_eq!(actual.name, "Write");
    assert_eq!(actual.call_id, None);
    assert_eq!(actual.arguments, 2);
    assert_eq!(actual.thought_signature.as_deref(), Some("sig"));
}

#[test]
fn rejected_and_unlisted_calls_are_settled_unchanged() {
    for answer in [CatalogAnswer::Rejected, CatalogAnswer::Unlisted] {
        let actual = settle_tool_call(call("shell", Some("c"), Value::from(3)), answer);
        assert_eq!(actual, call("shell", Some("c"), Value::from(3)));
    }
}

#[test]
fn normalizing_twice_is_normalizing_once() {
    let input = || call("write", Some("c"), Value::from("{\"a\":1}"));
    let once = normalize_tool_call(input(), listed, typed);
    let twice = normalize_tool_call(normalize_tool_call(input(), listed, typed), listed, typed);
    assert_eq!(once, twice);
}
