//! The events of a trace, as JSON objects.

use serde_json::Value;
use vstd::prelude::*;

use crate::json::{
    bool_value, null_value, number_value, object_value, parse_value, put, text_value,
};

verus! {

use crate::json::{exact, exact_within, json_parse, json_view, JsonView, NESTING_LIMIT};

/// The event that opens a session.
pub open spec fn session_start_view(
    ts: Seq<char>,
    session_id: Seq<char>,
    model: Seq<char>,
    agent_id: Seq<char>,
) -> JsonView {
    JsonView::Object(
        map![
            "event"@ => JsonView::Text("session_start"@),
            "ts"@ => JsonView::Text(ts),
            "session_id"@ => JsonView::Text(session_id),
            "model"@ => JsonView::Text(model),
            "agent_id"@ => JsonView::Text(agent_id),
        ],
    )
}

/// The event that records the request of a turn.
pub open spec fn request_view(ts: Seq<char>, turn: usize, body: JsonView) -> JsonView {
    JsonView::Object(
        map![
            "event"@ => JsonView::Text("request"@),
            "ts"@ => JsonView::Text(ts),
            "turn"@ => JsonView::Unsigned(turn as u64),
            "body"@ => body,
        ],
    )
}

/// The event that records the response of a turn: the message itself, with four members set. A
/// message that is no object has no room for them and stays as it is.
pub open spec fn response_view(
    message: JsonView,
    ts: Seq<char>,
    turn: usize,
    duration_ms: u64,
) -> JsonView {
    match message {
        JsonView::Object(fields) => JsonView::Object(
            fields.insert("event"@, JsonView::Text("response"@)).insert(
                "ts"@,
                JsonView::Text(ts),
            ).insert("turn"@, JsonView::Unsigned(turn as u64)).insert(
                "duration_ms"@,
                JsonView::Unsigned(duration_ms),
            ),
        ),
        _ => message,
    }
}

/// A string that may be absent: `null` in its place.
pub open spec fn nullable_view(text: Option<Seq<char>>) -> JsonView {
    match text {
        Some(t) => JsonView::Text(t),
        None => JsonView::Null,
    }
}

/// The event that records the result of a tool call.
pub open spec fn tool_result_view(
    ts: Seq<char>,
    turn: usize,
    call_id: Option<Seq<char>>,
    name: Seq<char>,
    content: Seq<char>,
    is_error: bool,
) -> JsonView {
    JsonView::Object(
        map![
            "event"@ => JsonView::Text("tool_result"@),
            "ts"@ => JsonView::Text(ts),
            "turn"@ => JsonView::Unsigned(turn as u64),
            "call_id"@ => nullable_view(call_id),
            "name"@ => JsonView::Text(name),
            "content"@ => JsonView::Text(content),
            "is_error"@ => JsonView::Bool(is_error),
        ],
    )
}

/// The event that closes a session.
pub open spec fn session_end_view(ts: Seq<char>, total_turns: usize) -> JsonView {
    JsonView::Object(
        map![
            "event"@ => JsonView::Text("session_end"@),
            "ts"@ => JsonView::Text(ts),
            "total_turns"@ => JsonView::Unsigned(total_turns as u64),
        ],
    )
}

/// The characters of a string that may be absent.
pub open spec fn optional_text(text: Option<&str>) -> Option<Seq<char>> {
    match text {
        Some(t) => Some(t@),
        None => None,
    }
}

/// The text of a tool's output, which is empty for an output without text.
pub open spec fn text_or_empty(output: Option<&str>) -> Seq<char> {
    match output {
        Some(text) => text@,
        None => ""@,
    }
}

/// Builds the event that opens a session.
pub fn session_start_event(ts: &str, session_id: &str, model: &str, agent_id: &str) -> (event:
    Value)
    ensures
        json_view(event) == session_start_view(ts@, session_id@, model@, agent_id@),
{
    let mut object: serde_json::Map<String, Value> = serde_json::Map::new();
    put(&mut object, "event", text_value("session_start"));
    put(&mut object, "ts", text_value(ts));
    put(&mut object, "session_id", text_value(session_id));
    put(&mut object, "model", text_value(model));
    put(&mut object, "agent_id", text_value(agent_id));
    object_value(object)
}

/// Builds the event that records the request of turn `turn`.
pub fn request_event(ts: &str, turn: usize, body: Value) -> (event: Value)
    ensures
        json_view(event) == request_view(ts@, turn, json_view(body)),
{
    let mut object: serde_json::Map<String, Value> = serde_json::Map::new();
    put(&mut object, "event", text_value("request"));
    put(&mut object, "ts", text_value(ts));
    put(&mut object, "turn", number_value(turn as u64));
    put(&mut object, "body", body);
    object_value(object)
}

/// Makes of a response's message the event that records it.
pub fn response_event(message: Value, ts: &str, turn: usize, duration_ms: u64) -> (event: Value)
    ensures
        json_view(event) == response_view(json_view(message), ts@, turn, duration_ms),
{
    let mut event: Value = message;
    if let Some(object) = event.as_object_mut() {
        put(object, "event", text_value("response"));
        put(object, "ts", text_value(ts));
        put(object, "turn", number_value(turn as u64));
        put(object, "duration_ms", number_value(duration_ms));
    }
    event
}

/// Builds the event that records the result of a tool call. `output` is the text of the tool's
/// output, where it has one.
pub fn tool_result_event(
    ts: &str,
    turn: usize,
    call_id: Option<&str>,
    name: &str,
    output: Option<&str>,
    is_error: bool,
) -> (event: Value)
    ensures
        json_view(event) == tool_result_view(
            ts@,
            turn,
            optional_text(call_id),
            name@,
            text_or_empty(output),
            is_error,
        ),
        json_view(event) matches JsonView::Object(fields) && {
            &&& fields["turn"@] == JsonView::Unsigned(turn as u64)
            &&& call_id matches Some(id) ==> fields["call_id"@] == JsonView::Text(id@)
            &&& call_id is None ==> fields["call_id"@] == JsonView::Null
            &&& fields["name"@] == JsonView::Text(name@)
            &&& output matches Some(text) ==> fields["content"@] == JsonView::Text(text@)
            &&& output is None ==> fields["content"@] == JsonView::Text(Seq::empty())
            &&& fields["is_error"@] == JsonView::Bool(is_error)
        },
{
    proof {
        lemma_keys_differ();
        reveal_strlit("");
        assert(""@ =~= Seq::empty());
    }
    let id: Value = match call_id {
        Some(id) => text_value(id),
        None => null_value(),
    };
    let content: &str = match output {
        Some(text) => text,
        None => "",
    };
    let mut object: serde_json::Map<String, Value> = serde_json::Map::new();
    put(&mut object, "event", text_value("tool_result"));
    put(&mut object, "ts", text_value(ts));
    put(&mut object, "turn", number_value(turn as u64));
    put(&mut object, "call_id", id);
    put(&mut object, "name", text_value(name));
    put(&mut object, "content", text_value(content));
    put(&mut object, "is_error", bool_value(is_error));
    object_value(object)
}

/// Builds the event that closes a session of `total_turns` turns.
pub fn session_end_event(ts: &str, total_turns: usize) -> (event: Value)
    ensures
        json_view(event) == session_end_view(ts@, total_turns),
{
    let mut object: serde_json::Map<String, Value> = serde_json::Map::new();
    put(&mut object, "event", text_value("session_end"));
    put(&mut object, "ts", text_value(ts));
    put(&mut object, "total_turns", number_value(total_turns as u64));
    object_value(object)
}

/// Reads back the event that a line of a trace carries, or nothing where the line is no JSON text.
pub fn read_event(line: &str) -> (event: Option<Value>)
    ensures
        event is Some <==> json_parse(line@) is Some,
        event is Some ==> json_view(event->0) == json_parse(line@)->0,
{
    match parse_value(line) {
        Ok(event) => Some(event),
        Err(_) => None,
    }
}

/// The keys of events are pairwise different: by their lengths, or by a character.
proof fn lemma_keys_differ()
    ensures
        "event"@.len() == 5,
        "ts"@.len() == 2,
        "session_id"@.len() == 10,
        "model"@.len() == 5,
        "agent_id"@.len() == 8,
        "turn"@.len() == 4,
        "body"@.len() == 4,
        "duration_ms"@.len() == 11,
        "call_id"@.len() == 7,
        "name"@.len() == 4,
        "content"@.len() == 7,
        "is_error"@.len() == 8,
        "total_turns"@.len() == 11,
        "event"@[0] == 'e',
        "model"@[0] == 'm',
        "agent_id"@[0] == 'a',
        "turn"@[0] == 't',
        "body"@[0] == 'b',
        "duration_ms"@[0] == 'd',
        "call_id"@[1] == 'a',
        "name"@[0] == 'n',
        "content"@[1] == 'o',
        "is_error"@[0] == 'i',
        "total_turns"@[0] == 't',
{
    reveal_strlit("event");
    reveal_strlit("ts");
    reveal_strlit("session_id");
    reveal_strlit("model");
    reveal_strlit("agent_id");
    reveal_strlit("turn");
    reveal_strlit("body");
    reveal_strlit("duration_ms");
    reveal_strlit("call_id");
    reveal_strlit("name");
    reveal_strlit("content");
    reveal_strlit("is_error");
    reveal_strlit("total_turns");
}

/// What a reader of a `session_start` event finds in it: these five members and no others.
pub proof fn law_session_start_members(
    ts: Seq<char>,
    session_id: Seq<char>,
    model: Seq<char>,
    agent_id: Seq<char>,
)
    ensures
        session_start_view(ts, session_id, model, agent_id) matches JsonView::Object(fields) && {
            &&& fields.dom() == set!["event"@, "ts"@, "session_id"@, "model"@, "agent_id"@]
            &&& fields["event"@] == JsonView::Text("session_start"@)
            &&& fields["ts"@] == JsonView::Text(ts)
            &&& fields["session_id"@] == JsonView::Text(session_id)
            &&& fields["model"@] == JsonView::Text(model)
            &&& fields["agent_id"@] == JsonView::Text(agent_id)
        },
{
    lemma_keys_differ();
    assert(session_start_view(ts, session_id, model, agent_id)->Object_0.dom()
        =~= set!["event"@, "ts"@, "session_id"@, "model"@, "agent_id"@]);
}

/// What a reader of a `request` event finds in it: these four members and no others.
pub proof fn law_request_members(ts: Seq<char>, turn: usize, body: JsonView)
    ensures
        request_view(ts, turn, body) matches JsonView::Object(fields) && {
            &&& fields.dom() == set!["event"@, "ts"@, "turn"@, "body"@]
            &&& fields["event"@] == JsonView::Text("request"@)
            &&& fields["ts"@] == JsonView::Text(ts)
            &&& fields["turn"@] == JsonView::Unsigned(turn as u64)
            &&& fields["body"@] == body
        },
{
    lemma_keys_differ();
    assert(request_view(ts, turn, body)->Object_0.dom()
        =~= set!["event"@, "ts"@, "turn"@, "body"@]);
}

/// What a reader of a `response` event finds in it: the four members that the trace sets, whatever
/// the message had under their keys, and every other member of the message, untouched.
pub proof fn law_response_members(
    message: Map<Seq<char>, JsonView>,
    ts: Seq<char>,
    turn: usize,
    duration_ms: u64,
)
    ensures
        response_view(JsonView::Object(message), ts, turn, duration_ms) matches JsonView::Object(
            fields,
        ) && {
            &&& fields.dom() == message.dom().union(
                set!["event"@, "ts"@, "turn"@, "duration_ms"@],
            )
            &&& fields["event"@] == JsonView::Text("response"@)
            &&& fields["ts"@] == JsonView::Text(ts)
            &&& fields["turn"@] == JsonView::Unsigned(turn as u64)
            &&& fields["duration_ms"@] == JsonView::Unsigned(duration_ms)
            &&& forall|key: Seq<char>|
                !set!["event"@, "ts"@, "turn"@, "duration_ms"@].contains(key)
                    ==> #[trigger] fields[key] == message[key]
        },
{
    lemma_keys_differ();
    let fields = response_view(JsonView::Object(message), ts, turn, duration_ms)->Object_0;
    assert(fields.dom() =~= message.dom().union(
        set!["event"@, "ts"@, "turn"@, "duration_ms"@],
    ));
}

/// What a reader of a `tool_result` event finds in it: these seven members and no others.
pub proof fn law_tool_result_members(
    ts: Seq<char>,
    turn: usize,
    call_id: Option<Seq<char>>,
    name: Seq<char>,
    content: Seq<char>,
    is_error: bool,
)
    ensures
        tool_result_view(ts, turn, call_id, name, content, is_error) matches JsonView::Object(
            fields,
        ) && {
            &&& fields.dom() == set![
                "event"@,
                "ts"@,
                "turn"@,
                "call_id"@,
                "name"@,
                "content"@,
                "is_error"@,
            ]
            &&& fields["event"@] == JsonView::Text("tool_result"@)
            &&& fields["ts"@] == JsonView::Text(ts)
            &&& fields["turn"@] == JsonView::Unsigned(turn as u64)
            &&& call_id matches Some(id) ==> fields["call_id"@] == JsonView::Text(id)
            &&& call_id is None ==> fields["call_id"@] == JsonView::Null
            &&& fields["name"@] == JsonView::Text(name)
            &&& fields["content"@] == JsonView::Text(content)
            &&& fields["is_error"@] == JsonView::Bool(is_error)
        },
{
    lemma_keys_differ();
    assert(tool_result_view(ts, turn, call_id, name, content, is_error)->Object_0.dom()
        =~= set!["event"@, "ts"@, "turn"@, "call_id"@, "name"@, "content"@, "is_error"@]);
}

/// A tool's output is recorded character for character, an absent one as the empty text: so an
/// output is recorded as the empty text only where it is absent or empty, and two outputs are
/// recorded alike only where they have the same characters.
pub proof fn law_output_is_recorded_in_full(output: Option<&str>, other: Option<&str>)
    ensures
        output matches Some(text) ==> text_or_empty(output) == text@,
        output is None ==> text_or_empty(output) == Seq::<char>::empty(),
        text_or_empty(output).len() == 0 <==> (output is None || output->0@.len() == 0),
        output is Some && other is Some && text_or_empty(output) == text_or_empty(other)
            ==> output->0@ == other->0@,
{
    reveal_strlit("");
    assert(""@ =~= Seq::empty());
}

/// A call's identifier is recorded character for character, an absent one as `null`: so two calls
/// with different identifiers, or one with and one without, are told apart.
pub proof fn law_call_id_is_recorded_in_full(call_id: Option<&str>, other: Option<&str>)
    ensures
        call_id matches Some(id) ==> nullable_view(optional_text(call_id)) == JsonView::Text(id@),
        call_id is None ==> nullable_view(optional_text(call_id)) == JsonView::Null,
        nullable_view(optional_text(call_id)) == nullable_view(optional_text(other)) ==> {
            &&& call_id is Some <==> other is Some
            &&& call_id is Some ==> call_id->0@ == other->0@
        },
{
}

/// What a reader of a `tool_result` event finds of the call and the tool's output, as they were
/// handed over.
pub proof fn law_tool_result_records_call(
    ts: Seq<char>,
    turn: usize,
    call_id: Option<&str>,
    name: Seq<char>,
    output: Option<&str>,
    is_error: bool,
)
    ensures
        tool_result_view(
            ts,
            turn,
            optional_text(call_id),
            name,
            text_or_empty(output),
            is_error,
        ) matches JsonView::Object(fields) && {
            &&& fields["turn"@] == JsonView::Unsigned(turn as u64)
            &&& call_id matches Some(id) ==> fields["call_id"@] == JsonView::Text(id@)
            &&& call_id is None ==> fields["call_id"@] == JsonView::Null
            &&& fields["name"@] == JsonView::Text(name)
            &&& output matches Some(text) ==> fields["content"@] == JsonView::Text(text@)
            &&& output is None ==> fields["content"@] == JsonView::Text(Seq::empty())
            &&& fields["is_error"@] == JsonView::Bool(is_error)
        },
{
    law_tool_result_members(
        ts,
        turn,
        optional_text(call_id),
        name,
        text_or_empty(output),
        is_error,
    );
    law_output_is_recorded_in_full(output, output);
}

/// A message that is no object is recorded as it is.
pub proof fn law_other_message_is_kept(
    message: JsonView,
    ts: Seq<char>,
    turn: usize,
    duration_ms: u64,
)
    requires
        !(message is Object),
    ensures
        response_view(message, ts, turn, duration_ms) == message,
{
}

/// What a reader of a `session_end` event finds in it: these three members and no others.
pub proof fn law_session_end_members(ts: Seq<char>, total_turns: usize)
    ensures
        session_end_view(ts, total_turns) matches JsonView::Object(fields) && {
            &&& fields.dom() == set!["event"@, "ts"@, "total_turns"@]
            &&& fields["event"@] == JsonView::Text("session_end"@)
            &&& fields["ts"@] == JsonView::Text(ts)
            &&& fields["total_turns"@] == JsonView::Unsigned(total_turns as u64)
        },
{
    lemma_keys_differ();
    assert(session_end_view(ts, total_turns)->Object_0.dom()
        =~= set!["event"@, "ts"@, "total_turns"@]);
}

/// A `session_start` event survives being written and parsed.
pub proof fn law_session_start_is_exact(
    ts: Seq<char>,
    session_id: Seq<char>,
    model: Seq<char>,
    agent_id: Seq<char>,
)
    ensures
        exact(session_start_view(ts, session_id, model, agent_id)),
{
    law_session_start_members(ts, session_id, model, agent_id);
    reveal_with_fuel(exact_within, 2);
}

/// A `request` event survives being written and parsed, where its body does inside one more object.
pub proof fn law_request_is_exact(ts: Seq<char>, turn: usize, body: JsonView)
    requires
        exact_within(body, (NESTING_LIMIT - 1) as nat),
    ensures
        exact(request_view(ts, turn, body)),
{
    law_request_members(ts, turn, body);
    reveal_with_fuel(exact_within, 2);
}

/// A `response` event survives being written and parsed, where the message does.
pub proof fn law_response_is_exact(
    message: JsonView,
    ts: Seq<char>,
    turn: usize,
    duration_ms: u64,
)
    requires
        exact(message),
    ensures
        exact(response_view(message, ts, turn, duration_ms)),
{
    reveal_with_fuel(exact_within, 2);
    if let JsonView::Object(fields) = message {
        law_response_members(fields, ts, turn, duration_ms);
        let event = response_view(message, ts, turn, duration_ms)->Object_0;
        assert forall|key: Seq<char>| #[trigger] event.contains_key(key) implies exact_within(
            event[key],
            (NESTING_LIMIT - 1) as nat,
        ) by {
            if !set!["event"@, "ts"@, "turn"@, "duration_ms"@].contains(key) {
                assert(fields.contains_key(key));
            }
        }
    }
}

/// A `tool_result` event survives being written and parsed.
pub proof fn law_tool_result_is_exact(
    ts: Seq<char>,
    turn: usize,
    call_id: Option<Seq<char>>,
    name: Seq<char>,
    content: Seq<char>,
    is_error: bool,
)
    ensures
        exact(tool_result_view(ts, turn, call_id, name, content, is_error)),
{
    law_tool_result_members(ts, turn, call_id, name, content, is_error);
    reveal_with_fuel(exact_within, 2);
}

/// A `session_end` event survives being written and parsed.
pub proof fn law_session_end_is_exact(ts: Seq<char>, total_turns: usize)
    ensures
        exact(session_end_view(ts, total_turns)),
{
    law_session_end_members(ts, total_turns);
    reveal_with_fuel(exact_within, 2);
}

} // verus!
