use forge_trace::clock::{current_instant, duration_ms, time_since, timestamp};
use forge_trace::event::{
    read_event, request_event, response_event, session_end_event, session_start_event,
    tool_result_event,
};
use forge_trace::json::NESTING_LIMIT;
use forge_trace::jsonl::frame;
use forge_trace::trace_logging::{TraceLoggingHandler, TraceWrite, TRACE_FILE_VAR};
use serde_json::Value;
use std::time::{Duration, Instant};

fn traced() -> TraceLoggingHandler {
    TraceLoggingHandler::with_path(Some("trace.jsonl".to_string()))
}

fn parsed(text: &str) -> Value {
    serde_json::from_str(text).unwrap()
}

fn event_of(write: Option<TraceWrite>) -> Value {
    let write = write.unwrap();
    assert_eq!(write.path, "trace.jsonl");
    assert!(write.line.ends_with('\n'));
    parsed(write.line.trim())
}

#[test]
fn test_disabled_handler_is_noop() {
    let handler = TraceLoggingHandler::with_path(None);
    assert_eq!(handler.is_enabled(), false);

    let result = handler.handle_start("session-1", "test-model", "test-agent");
    assert!(result.is_none());
}

#[test]
fn test_session_start_event() {
    let handler = traced();
    let val = event_of(handler.handle_start("session-1", "test-model", "test-agent"));
    assert_eq!(val["event"], "session_start");
    assert_eq!(val["session_id"], "session-1");
    assert_eq!(val["model"], "test-model");
    assert_eq!(val["agent_id"], "test-agent");
    assert!(val["ts"].is_string());
}

#[test]
fn test_response_event() {
    let mut handler = traced();
    handler.state.turn = 0;
    handler.state.started_at = Some(Instant::now());

    let message = parsed(
        "{\"content\":\"Hello world\",\"tool_calls\":[],\"finish_reason\":\"Stop\"}",
    );
    let val = event_of(handler.handle_response(|| Some(message)));
    assert_eq!(val["event"], "response");
    assert_eq!(val["turn"], 1);
    assert_eq!(val["content"], "Hello world");
    assert_eq!(val["finish_reason"], "Stop");
    assert!(val["duration_ms"].is_number());
    assert!(val["ts"].is_string());
}

#[test]
fn test_tool_result_event() {
    let mut handler = traced();
    handler.state.turn = 0;

    let val =
        event_of(handler.handle_toolcall_end(Some("c1"), "bash", Some("output text"), false));
    assert_eq!(val["event"], "tool_result");
    assert_eq!(val["turn"], 1);
    assert_eq!(val["call_id"], "c1");
    assert_eq!(val["name"], "bash");
    assert_eq!(val["content"], "output text");
    assert_eq!(val["is_error"], false);
    assert!(val["ts"].is_string());
}

#[test]
fn test_session_end_event() {
    let mut handler = traced();
    handler.state.turn = 2;

    let val = event_of(handler.handle_end());
    assert_eq!(val["event"], "session_end");
    assert_eq!(val["total_turns"], 3);
    assert!(val["ts"].is_string());
}

#[test]
fn new_takes_the_trace_file_from_the_variable() {
    assert_eq!(TRACE_FILE_VAR, "FORGE_TRACE_FILE");
    assert!(!TraceLoggingHandler::new(None).is_enabled());
    assert!(!TraceLoggingHandler::new(Some(String::new())).is_enabled());
    let handler = TraceLoggingHandler::new(Some("/tmp/t.jsonl".to_string()));
    assert!(handler.is_enabled());
    assert_eq!(handler.trace_file.as_deref(), Some("/tmp/t.jsonl"));
    assert_eq!(handler.state.turn, 0);
    assert!(handler.state.started_at.is_none());
}

#[test]
fn disabled_handler_records_and_changes_nothing() {
    let mut handler = TraceLoggingHandler::with_path(None);
    assert!(!handler.begin_request(0));
    assert!(handler.write_request_event(4, || Some(Value::from(1))).is_none());
    assert!(handler.handle_response(|| Some(Value::from(1))).is_none());
    assert!(handler.handle_toolcall_end(None, "bash", None, true).is_none());
    assert!(handler.handle_end().is_none());
    assert!(handler.write_event(&Value::from(1)).is_none());
    assert!(handler.text_write(Some("{}".to_string())).is_none());
    assert_eq!(handler.state.turn, 0);
    assert!(handler.state.started_at.is_none());
}

#[test]
fn json_forms_are_not_made_for_a_disabled_handler() {
    let mut handler = TraceLoggingHandler::with_path(None);
    handler.state.started_at = Some(Instant::now());
    let unused = || panic!("nothing is recorded");
    assert!(handler.write_request_event(1, unused).is_none());
    assert!(handler.handle_response(unused).is_none());
    let read = |_: &Instant| panic!("nothing is recorded");
    assert!(handler.handle_response_read(read, unused).is_none());
}

#[test]
fn body_is_not_made_for_a_retry() {
    let mut handler = traced();
    assert!(handler.begin_request(1));
    assert!(handler.write_request_event(1, || panic!("a retry is not recorded")).is_none());
}

#[test]
fn disabled_handler_takes_any_turn() {
    let mut handler = TraceLoggingHandler::with_path(None);
    handler.state.turn = usize::MAX;
    assert!(handler.handle_response(|| None).is_none());
    assert!(handler.response_write("T", None, Value::Null).is_none());
    assert!(handler.handle_toolcall_end(None, "bash", None, false).is_none());
    assert!(handler.toolcall_end_write("T", None, "bash", None, false).is_none());
    assert!(handler.handle_end().is_none());
    assert!(handler.end_write("T").is_none());
}

#[test]
fn request_event_carries_turn_and_body() {
    let mut handler = traced();
    let val = event_of(handler.write_request_event(3, || Some(parsed("{\"model\":\"m\"}"))));
    assert_eq!(val["event"], "request");
    assert_eq!(val["turn"], 3);
    assert_eq!(val["body"]["model"], "m");
    assert!(val["ts"].is_string());
    assert_eq!(handler.state.turn, 2);
    assert!(handler.state.started_at.is_some());
}

#[test]
fn retries_are_recorded_once() {
    let mut handler = traced();
    let mut recorded: Vec<usize> = Vec::new();
    for turn in [1, 1, 1, 2, 3, 3] {
        if handler.write_request_event(turn, || Some(Value::Null)).is_some() {
            recorded.push(turn);
        }
    }
    assert_eq!(recorded, vec![1, 2, 3]);
}

#[test]
fn a_turn_that_comes_back_is_recorded_again() {
    let mut handler = traced();
    assert!(handler.begin_request(1));
    assert!(handler.begin_request(2));
    assert!(handler.begin_request(1));
    assert!(!handler.begin_request(1));
}

#[test]
fn first_request_is_no_retry_of_the_initial_turn() {
    let mut handler = traced();
    assert_eq!(handler.state.turn, 0);
    assert!(handler.begin_request(1));
}

#[test]
fn retry_keeps_the_start_of_the_turn() {
    let mut handler = traced();
    assert!(handler.begin_request(1));
    let start = handler.state.started_at;
    assert!(!handler.begin_request(1));
    assert_eq!(handler.state.started_at, start);
}

#[test]
fn turn_starts_at_the_first_request_of_its_latest_run() {
    let start = Instant::now();
    let at = |secs: u64| start + Duration::from_secs(secs);
    let mut handler = traced();
    assert!(handler.state.started_at.is_none());
    assert!(handler.begin_request_at(1, at(10)));
    assert!(!handler.begin_request_at(1, at(20)));
    assert_eq!(handler.state.started_at, Some(at(10)));
    assert!(handler.begin_request_at(2, at(30)));
    assert!(!handler.begin_request_at(2, at(40)));
    handler.handle_response(|| Some(Value::Null));
    handler.handle_toolcall_end(None, "bash", None, false);
    assert!(!handler.begin_request_at(2, at(50)));
    assert_eq!(handler.state.started_at, Some(at(30)));
    assert!(handler.begin_request_at(1, at(60)));
    assert_eq!(handler.state.started_at, Some(at(60)));
    assert_eq!(handler.state.turn, 0);
}

#[test]
fn request_takes_the_current_time_as_its_start() {
    let before = Instant::now();
    let mut handler = traced();
    handler.begin_request_at(1, before);
    assert!(handler.begin_request(2));
    let start = handler.state.started_at.unwrap();
    assert!(before <= start);
    assert!(start <= Instant::now());
}

#[test]
fn response_reads_the_time_off_the_start_of_the_turn() {
    let start = Instant::now();
    let mut handler = traced();
    handler.begin_request_at(3, start);
    let read = |from: &Instant| {
        assert_eq!(*from, start);
        (7, 8_999_999)
    };
    let val = event_of(handler.handle_response_read(read, || Some(parsed("{}"))));
    assert_eq!(val["duration_ms"], 7008);
    assert_eq!(val["turn"], 3);
}

#[test]
fn time_before_a_turn_is_not_read() {
    let read = |_: &Instant| panic!("there is no start to read the time off");
    let val = event_of(traced().handle_response_read(read, || Some(parsed("{}"))));
    assert_eq!(val["duration_ms"], 0);
}

#[test]
fn time_since_an_instant() {
    let before = Instant::now();
    let now = current_instant();
    assert!(before <= now);
    let (secs, nanos) = time_since(&(now - Duration::from_millis(1500)));
    assert!(nanos < 1_000_000_000);
    assert!(secs >= 1);
    assert!(secs > 1 || nanos >= 500_000_000);
    assert!(secs < 60);
}

#[test]
fn request_without_json_form_starts_the_turn_and_writes_nothing() {
    let mut handler = traced();
    assert!(handler.write_request_event(5, || None).is_none());
    assert_eq!(handler.state.turn, 4);
    assert!(handler.state.started_at.is_some());
    assert!(handler.write_request_event(5, || Some(Value::Null)).is_none());
}

#[test]
fn later_events_report_the_turn_of_the_last_request() {
    let mut handler = traced();
    for turn in [1, 2, 2, 7] {
        handler.begin_request(turn);
    }
    assert_eq!(event_of(handler.handle_response(|| Some(parsed("{}"))))["turn"], 7);
    assert_eq!(event_of(handler.handle_toolcall_end(None, "t", None, false))["turn"], 7);
    assert_eq!(event_of(handler.handle_end())["total_turns"], 7);
}

#[test]
fn highest_turn_is_reported() {
    let mut handler = traced();
    assert!(handler.begin_request(usize::MAX));
    assert_eq!(event_of(handler.handle_end())["total_turns"], usize::MAX);
}

#[test]
fn response_members_replace_those_of_the_message() {
    let message = parsed(
        "{\"event\":\"x\",\"ts\":1,\"turn\":\"y\",\"duration_ms\":null,\"usage\":{\"cost\":0.5}}",
    );
    let event = response_event(message, "T", 2, 15);
    assert_eq!(
        event,
        parsed(
            "{\"event\":\"response\",\"ts\":\"T\",\"turn\":2,\"duration_ms\":15,\
             \"usage\":{\"cost\":0.5}}"
        )
    );
}

#[test]
fn message_that_is_no_object_is_written_as_it_is() {
    let message = parsed("[1,\"two\"]");
    assert_eq!(response_event(message, "T", 2, 15), parsed("[1,\"two\"]"));
    let write = traced().handle_response(|| Some(Value::from("plain")));
    assert_eq!(write.unwrap().line, "\"plain\"\n");
}

#[test]
fn response_without_json_form_is_not_written() {
    assert!(traced().handle_response(|| None).is_none());
}

#[test]
fn response_before_any_request_has_no_duration() {
    let val = event_of(traced().handle_response(|| Some(parsed("{}"))));
    assert_eq!(val["duration_ms"], 0);
    assert_eq!(val["turn"], 1);
}

#[test]
fn response_measures_from_the_start_of_the_turn() {
    let mut handler = traced();
    handler.state.started_at = Some(Instant::now() - Duration::from_millis(200));
    let val = event_of(handler.handle_response(|| Some(parsed("{}"))));
    let millis = val["duration_ms"].as_u64().unwrap();
    assert!(millis >= 200);
    assert!(millis < 60_000);
}

#[test]
fn durations_in_milliseconds() {
    assert_eq!(duration_ms(None), 0);
    assert_eq!(duration_ms(Some((0, 999_999))), 0);
    assert_eq!(duration_ms(Some((1, 999_999_999))), 1999);
    assert_eq!(duration_ms(Some((12, 34_000_000))), 12_034);
    assert_eq!(duration_ms(Some((u64::MAX, 0))), 18_446_744_073_709_550_616);
}

#[test]
fn timestamp_is_the_current_time_in_rfc3339() {
    let before = chrono::Utc::now();
    let text = timestamp();
    let after = chrono::Utc::now();
    let time = chrono::DateTime::parse_from_rfc3339(&text).unwrap();
    assert!(before <= time);
    assert!(time <= after);
    assert!(text.ends_with("+00:00"));
}

#[test]
fn session_start_line() {
    let write = traced().start_write("T", "s", "m", "a").unwrap();
    assert_eq!(write.path, "trace.jsonl");
    assert_eq!(
        write.line,
        "{\"agent_id\":\"a\",\"event\":\"session_start\",\"model\":\"m\",\"session_id\":\"s\",\"ts\":\"T\"}\n"
    );
    assert_eq!(parsed(write.line.trim()), session_start_event("T", "s", "m", "a"));
}

#[test]
fn request_line() {
    let write = traced().request_write("T", 9, parsed("{\"b\":[true]}")).unwrap();
    assert_eq!(
        write.line,
        "{\"body\":{\"b\":[true]},\"event\":\"request\",\"ts\":\"T\",\"turn\":9}\n"
    );
    assert_eq!(parsed(write.line.trim()), request_event("T", 9, parsed("{\"b\":[true]}")));
}

#[test]
fn response_line() {
    let mut handler = traced();
    handler.state.turn = 4;
    let write = handler.response_write("T", Some((2, 5_000_000)), parsed("{\"content\":\"c\"}"));
    assert_eq!(
        write.unwrap().line,
        "{\"content\":\"c\",\"duration_ms\":2005,\"event\":\"response\",\"ts\":\"T\",\"turn\":5}\n"
    );
}

#[test]
fn tool_result_line() {
    let write = traced().toolcall_end_write("T", None, "bash", None, true).unwrap();
    assert_eq!(
        write.line,
        "{\"call_id\":null,\"content\":\"\",\"event\":\"tool_result\",\"is_error\":true,\"name\":\"bash\",\"ts\":\"T\",\"turn\":1}\n"
    );
    assert_eq!(
        parsed(write.line.trim()),
        tool_result_event("T", 1, None, "bash", None, true)
    );
}

#[test]
fn session_end_line() {
    let write = traced().end_write("T").unwrap();
    assert_eq!(write.line, "{\"event\":\"session_end\",\"total_turns\":1,\"ts\":\"T\"}\n");
    assert_eq!(parsed(write.line.trim()), session_end_event("T", 1));
}

#[test]
fn each_event_is_one_line() {
    let handler = traced();
    let mut file = String::new();
    file.push_str(&handler.start_write("T", "a\nb", "m\r", "x\u{2028}").unwrap().line);
    file.push_str(
        &handler.toolcall_end_write("T", Some("\n"), "bash", Some("one\ntwo\n"), false)
            .unwrap()
            .line,
    );
    file.push_str(&handler.end_write("T").unwrap().line);
    let events: Vec<Value> = file.lines().map(parsed).collect();
    assert_eq!(
        events,
        vec![
            session_start_event("T", "a\nb", "m\r", "x\u{2028}"),
            tool_result_event("T", 1, Some("\n"), "bash", Some("one\ntwo\n"), false),
            session_end_event("T", 1),
        ]
    );
}

#[test]
fn recorded_events_are_read_back() {
    let handler = traced();
    let values = vec![
        parsed("{\"a\":[null,true,{\"b\":[]}],\"\":{}}"),
        Value::from(u64::MAX),
        Value::from(i64::MIN),
        Value::from(-1),
        Value::from("\u{0}\n\"\\/\u{7f}\u{10ffff}"),
        session_start_event("T", "s", "m", "a"),
        request_event("T", 1, parsed("[1]")),
        tool_result_event("T", 1, Some("c"), "n", Some("o\no"), true),
        session_end_event("T", 2),
    ];
    let mut file = String::new();
    for value in &values {
        file.push_str(&handler.write_event(value).unwrap().line);
    }
    assert!(file.ends_with('\n'));
    let read: Vec<Value> = file.lines().map(|line| read_event(line).unwrap()).collect();
    assert_eq!(read, values);
}

#[test]
fn nesting_is_read_up_to_the_limit() {
    let nested = |depth: usize| {
        let mut value = Value::from(1);
        for _ in 0..depth {
            value = Value::from(vec![value]);
        }
        value
    };
    let line = |depth: usize| traced().write_event(&nested(depth)).unwrap().line;
    assert_eq!(NESTING_LIMIT, 127);
    assert_eq!(read_event(&line(NESTING_LIMIT)), Some(nested(NESTING_LIMIT)));
    assert_eq!(read_event(&line(NESTING_LIMIT + 1)), None);
}

#[test]
fn request_and_response_are_read_back_up_to_the_limit() {
    let nested = |depth: usize| {
        let mut value = parsed("{}");
        for _ in 1..depth {
            value = Value::from(vec![value]);
        }
        value
    };
    let line = |depth: usize| traced().request_write("T", 1, nested(depth)).unwrap().line;
    let deepest = NESTING_LIMIT - 1;
    assert_eq!(read_event(&line(deepest)), Some(request_event("T", 1, nested(deepest))));
    assert_eq!(read_event(&line(deepest + 1)), None);

    let message = || {
        let mut message = parsed("{\"content\":\"c\"}");
        message["tool_calls"] = nested(deepest);
        message
    };
    let write = traced().response_write("T", Some((1, 0)), message()).unwrap();
    assert_eq!(read_event(&write.line), Some(response_event(message(), "T", 1, 1000)));
}

#[test]
fn line_that_is_no_json_is_not_read() {
    assert_eq!(read_event(""), None);
    assert_eq!(read_event("{\"a\":"), None);
    assert_eq!(read_event("{} {}"), None);
    assert_eq!(read_event("{\"a\":1}\n"), Some(parsed("{\"a\":1}")));
}

#[test]
fn text_that_is_missing_is_not_written() {
    assert!(traced().text_write(None).is_none());
    let write = traced().text_write(Some("{}".to_string())).unwrap();
    assert_eq!(write.line, "{}\n");
    assert_eq!(write.path, "trace.jsonl");
}

#[test]
fn frame_ends_a_text_with_a_line_feed() {
    assert_eq!(frame(String::new()), "\n");
    assert_eq!(frame("{\"a\":1}".to_string()), "{\"a\":1}\n");
}
