//! The trace of an agent session: which events are recorded, what they say, and the lines that
//! carry them to the trace file.
//!
//! A [`TraceLoggingHandler`] decides and computes; it does no file access. Where an event is to be
//! recorded, it hands back a [`TraceWrite`], which says what to append to which file.

use serde_json::Value;
use std::time::Instant;
use vstd::prelude::*;

use crate::clock::{current_instant, duration_ms, time_since, timestamp};
use crate::event::{
    request_event, response_event, session_end_event, session_start_event, tool_result_event,
};
use crate::json::value_text;
use crate::jsonl::frame;

verus! {

use crate::clock::{
    is_clock_reading, is_elapsed_reading, is_timestamp, law_duration_is_exact, turn_millis,
};
use crate::event::{
    law_request_is_exact, law_request_members, law_response_is_exact, law_response_members,
    law_session_end_is_exact, law_session_end_members, law_session_start_is_exact,
    law_session_start_members, law_tool_result_is_exact, law_tool_result_members,
    law_tool_result_records_call, optional_text, request_view, response_view, session_end_view,
    session_start_view, text_or_empty, tool_result_view,
};
use crate::json::{
    exact, exact_within, json_parse, json_text, json_view, JsonView, NESTING_LIMIT,
};
use crate::jsonl::{
    appended, framed, law_line_carries_text, law_lines_read_back, law_single_line_has_no_feed,
    lines, single_line,
};

/// The environment variable that names the trace file.
pub const TRACE_FILE_VAR: &'static str = "FORGE_TRACE_FILE";

/// The turn that the session is in.
pub struct TraceState {
    /// The number of the turn, counted from zero.
    pub turn: usize,
    /// When the turn's request was recorded; absent until the first one is.
    pub started_at: Option<Instant>,
}

/// Text to append to a file, which is made if it is not there.
#[derive(Debug, PartialEq, Eq)]
pub struct TraceWrite {
    pub path: String,
    pub line: String,
}

/// Records the events of a session, or nothing where no trace file is set.
pub struct TraceLoggingHandler {
    pub trace_file: Option<String>,
    pub state: TraceState,
}

/// A [`TraceState`] with its turn as a mathematical integer.
pub struct TurnView {
    pub turn: int,
    pub started_at: Option<Instant>,
}

/// A request for turn `turn`, counted from one, at clock reading `now`.
pub struct TurnRequest {
    pub turn: int,
    pub now: Instant,
}

/// A request for turn `turn`, counted from one, is a retry: that turn's request was recorded and no
/// other turn's has been since.
pub open spec fn is_retry(state: TurnView, turn: int) -> bool {
    state.started_at is Some && state.turn == turn - 1
}

/// The state of a new session.
pub open spec fn new_session() -> TurnView {
    TurnView { turn: 0, started_at: None }
}

/// The state after a request: a retry changes nothing, and any other request starts its turn at its
/// clock reading.
pub open spec fn after_request(state: TurnView, request: TurnRequest) -> TurnView {
    if is_retry(state, request.turn) {
        state
    } else {
        TurnView { turn: request.turn - 1, started_at: Some(request.now) }
    }
}

/// The state after `requests`, one after the other.
pub open spec fn after_requests(state: TurnView, requests: Seq<TurnRequest>) -> TurnView
    decreases requests.len(),
{
    if requests.len() == 0 {
        state
    } else {
        after_request(after_requests(state, requests.drop_last()), requests.last())
    }
}

/// Of `requests`, one after the other, the one at position `i` is recorded.
pub open spec fn is_recorded(state: TurnView, requests: Seq<TurnRequest>, i: int) -> bool {
    !is_retry(after_requests(state, requests.take(i)), requests[i].turn)
}

impl TraceState {
    /// The state with its turn as a mathematical integer.
    pub open spec fn view(self) -> TurnView {
        TurnView { turn: self.turn as int, started_at: self.started_at }
    }
}

impl TraceLoggingHandler {
    /// A trace file is set.
    pub open spec fn enabled(self) -> bool {
        self.trace_file is Some
    }

    /// The turn's number has a successor: turns are reported counted from one.
    pub open spec fn wf(self) -> bool {
        self.state.turn < usize::MAX
    }

    /// The number of the turn that the session is in, counted from one.
    pub open spec fn reported_turn(self) -> usize {
        (self.state.turn + 1) as usize
    }

    /// `write` appends the JSON text of `event`, as one line, to the trace file; where the event is
    /// exact, the text parses back to it.
    pub open spec fn appends(self, write: Option<TraceWrite>, event: JsonView) -> bool {
        &&& self.trace_file is Some
        &&& write is Some
        &&& write->0.path@ == self.trace_file->0@
        &&& write->0.line@ == framed(json_text(event))
        &&& single_line(json_text(event))
        &&& exact(event) ==> json_parse(json_text(event)) == Some(event)
    }

    /// A handler for a new session. `var` is the value of [`TRACE_FILE_VAR`], where it has one:
    /// it names the trace file, unless it is empty.
    pub fn new(var: Option<String>) -> (handler: Self)
        ensures
            handler.wf(),
            handler.enabled() <==> (var is Some && var->0@.len() > 0),
            handler.enabled() ==> handler.trace_file == var,
            handler.state@ == new_session(),
            var is Some && var->0@.len() > 0 ==> handler.trace_file == var,
            var is None || var->0@.len() == 0 ==> handler.trace_file is None,
            handler.state.turn == 0 && handler.state.started_at is None,
    {
        let trace_file: Option<String> = match var {
            Some(path) => if path.as_str().is_empty() {
                None
            } else {
                Some(path)
            },
            None => None,
        };
        Self::with_path(trace_file)
    }

    /// A handler for a new session, with the trace file `path`.
    pub fn with_path(path: Option<String>) -> (handler: Self)
        ensures
            handler.wf(),
            handler.trace_file == path,
            handler.state@ == new_session(),
            handler.state.turn == 0 && handler.state.started_at is None,
    {
        TraceLoggingHandler {
            trace_file: path,
            state: TraceState { turn: 0, started_at: None },
        }
    }

    /// Whether events are recorded.
    pub fn is_enabled(&self) -> (enabled: bool)
        ensures
            enabled == self.enabled(),
            enabled <==> self.trace_file is Some,
    {
        self.trace_file.is_some()
    }

    /// What to append for an event whose JSON text is `text`: nothing where no trace file is set,
    /// and nothing for an event that could not be turned into text.
    pub fn text_write(&self, text: Option<String>) -> (write: Option<TraceWrite>)
        ensures
            write is Some <==> (self.enabled() && text is Some),
            write is Some ==> {
                &&& write->0.path@ == self.trace_file->0@
                &&& write->0.line@ == framed(text->0@)
            },
            write is Some <==> (self.trace_file is Some && text is Some),
            write is Some ==> write->0.line@ == text->0@ + seq!['\n'],
    {
        let path: String = match &self.trace_file {
            Some(path) => path.clone(),
            None => {
                return None;
            },
        };
        match text {
            Some(text) => Some(TraceWrite { path, line: frame(text) }),
            None => None,
        }
    }

    /// What to append for the event `value`.
    pub fn write_event(&self, value: &Value) -> (write: Option<TraceWrite>)
        ensures
            !self.enabled() ==> write is None,
            self.enabled() ==> self.appends(write, json_view(*value)),
            write is Some <==> self.trace_file is Some,
            write is Some ==> {
                &&& write->0.path@ == self.trace_file->0@
                &&& write->0.line@ == json_text(json_view(*value)) + seq!['\n']
            },
    {
        if !self.is_enabled() {
            return None;
        }
        let text: Option<String> = match value_text(value) {
            Ok(text) => Some(text),
            Err(_) => None,
        };
        self.text_write(text)
    }

    /// Takes note, at clock reading `now`, of a request for turn `turn`, counted from one, and says
    /// whether it is to be recorded. A retry is not, and leaves the turn's start alone. Either way
    /// the turn that later events report is this one.
    pub fn begin_request_at(&mut self, turn: usize, now: Instant) -> (recorded: bool)
        requires
            old(self).enabled() ==> turn >= 1,
        ensures
            recorded == (old(self).enabled() && !is_retry(old(self).state@, turn as int)),
            !recorded ==> *final(self) == *old(self),
            recorded ==> final(self).state == (TraceState {
                turn: (turn - 1) as usize,
                started_at: Some(now),
            }),
            old(self).enabled() ==> final(self).state@ == after_request(
                old(self).state@,
                TurnRequest { turn: turn as int, now },
            ),
            recorded <==> {
                &&& old(self).trace_file is Some
                &&& !(old(self).state.started_at is Some && old(self).state.turn + 1 == turn)
            },
            final(self).trace_file == old(self).trace_file,
            old(self).enabled() ==> final(self).reported_turn() == turn,
            old(self).wf() ==> final(self).wf(),
    {
        if !self.is_enabled() {
            return false;
        }
        let new_turn: usize = turn - 1;
        if self.state.turn == new_turn && self.state.started_at.is_some() {
            return false;
        }
        self.state = TraceState { turn: new_turn, started_at: Some(now) };
        true
    }

    /// Takes note of a request for turn `turn`, as [`Self::begin_request_at`] does, at the current
    /// time: what [`std::time::Instant::now`] gives in this call.
    pub fn begin_request(&mut self, turn: usize) -> (recorded: bool)
        requires
            old(self).enabled() ==> turn >= 1,
        ensures
            recorded == (old(self).enabled() && !is_retry(old(self).state@, turn as int)),
            !recorded ==> *final(self) == *old(self),
            recorded ==> exists|now: Instant|
                {
                    &&& #[trigger] is_clock_reading(now)
                    &&& final(self).state == (TraceState {
                        turn: (turn - 1) as usize,
                        started_at: Some(now),
                    })
                },
            final(self).trace_file == old(self).trace_file,
            old(self).enabled() ==> final(self).reported_turn() == turn,
            old(self).wf() ==> final(self).wf(),
    {
        let now: Instant = current_instant();
        self.begin_request_at(turn, now)
    }

    /// What to append at time `ts` for the request of turn `turn` with the JSON form `body`.
    pub fn request_write(&self, ts: &str, turn: usize, body: Value) -> (write: Option<TraceWrite>)
        ensures
            !self.enabled() ==> write is None,
            self.enabled() ==> self.appends(write, request_view(ts@, turn, json_view(body))),
    {
        self.write_event(&request_event(ts, turn, body))
    }

    /// Records the request of turn `turn`, counted from one, once however often it is retried.
    /// `body` makes the request's JSON form, or nothing where it has none; it is called only for a
    /// request that is to be recorded, once the turn has been noted as started.
    pub fn write_request_event<F: FnOnce() -> Option<Value>>(&mut self, turn: usize, body: F) -> (write:
        Option<TraceWrite>)
        requires
            old(self).enabled() ==> turn >= 1,
            old(self).enabled() && !is_retry(old(self).state@, turn as int) ==> body.requires(()),
        ensures
            final(self).trace_file == old(self).trace_file,
            old(self).enabled() ==> final(self).reported_turn() == turn,
            old(self).wf() ==> final(self).wf(),
            !old(self).enabled() || is_retry(old(self).state@, turn as int) ==> {
                &&& write is None
                &&& *final(self) == *old(self)
            },
            old(self).enabled() && !is_retry(old(self).state@, turn as int) ==> {
                &&& exists|now: Instant|
                    {
                        &&& #[trigger] is_clock_reading(now)
                        &&& final(self).state == (TraceState {
                            turn: (turn - 1) as usize,
                            started_at: Some(now),
                        })
                    }
                &&& exists|made: Option<Value>| #[trigger]
                    body.ensures((), made) && match made {
                        Some(value) => exists|ts: Seq<char>| #[trigger]
                            is_timestamp(ts) && old(self).appends(
                                write,
                                request_view(ts, turn, json_view(value)),
                            ),
                        None => write is None,
                    }
            },
    {
        if !self.begin_request(turn) {
            return None;
        }
        let made: Option<Value> = body();
        match made {
            Some(value) => {
                let ts: String = timestamp();
                self.request_write(ts.as_str(), turn, value)
            },
            None => None,
        }
    }

    /// What to append at time `ts` for the start of a session.
    pub fn start_write(&self, ts: &str, session_id: &str, model: &str, agent_id: &str) -> (write:
        Option<TraceWrite>)
        ensures
            !self.enabled() ==> write is None,
            self.enabled() ==> self.appends(
                write,
                session_start_view(ts@, session_id@, model@, agent_id@),
            ),
    {
        self.write_event(&session_start_event(ts, session_id, model, agent_id))
    }

    /// Records the start of a session.
    pub fn handle_start(&self, session_id: &str, model: &str, agent_id: &str) -> (write: Option<
        TraceWrite,
    >)
        ensures
            !self.enabled() ==> write is None,
            self.enabled() ==> exists|ts: Seq<char>| #[trigger]
                is_timestamp(ts) && self.appends(
                    write,
                    session_start_view(ts, session_id@, model@, agent_id@),
                ),
    {
        if !self.is_enabled() {
            return None;
        }
        let ts: String = timestamp();
        self.start_write(ts.as_str(), session_id, model, agent_id)
    }

    /// What to append at time `ts` for the response of the current turn, whose request was
    /// recorded `since` seconds and nanoseconds ago, if it was. `message` is the message's JSON
    /// form.
    pub fn response_write(&self, ts: &str, since: Option<(u64, u32)>, message: Value) -> (write:
        Option<TraceWrite>)
        requires
            self.enabled() ==> self.wf(),
        ensures
            !self.enabled() ==> write is None,
            self.enabled() ==> self.appends(
                write,
                response_view(
                    json_view(message),
                    ts@,
                    self.reported_turn(),
                    turn_millis(since) as u64,
                ),
            ),
    {
        if !self.is_enabled() {
            return None;
        }
        let turn: usize = self.state.turn + 1;
        self.write_event(&response_event(message, ts, turn, duration_ms(since)))
    }

    /// Records the response of the current turn and the time since its request, which `read` reads
    /// off the turn's start, where the turn has one. `message` makes the message's JSON form, or
    /// nothing where it has none; it is called only where events are recorded, once the time has
    /// been read.
    pub fn handle_response_read<S, F>(&self, read: S, message: F) -> (write: Option<TraceWrite>) where
        S: FnOnce(&Instant) -> (u64, u32),
        F: FnOnce() -> Option<Value>,

        requires
            self.enabled() ==> self.wf(),
            self.enabled() && self.state.started_at is Some ==> read.requires(
                (&self.state.started_at->0,),
            ),
            self.enabled() ==> message.requires(()),
        ensures
            !self.enabled() ==> write is None,
            self.enabled() ==> exists|made: Option<Value>| #[trigger]
                message.ensures((), made) && match made {
                    Some(value) => exists|ts: Seq<char>, since: Option<(u64, u32)>|
                        {
                            &&& #[trigger] is_timestamp(ts)
                            &&& since is Some <==> self.state.started_at is Some
                            &&& since matches Some(e) ==> read.ensures(
                                (&self.state.started_at->0,),
                                e,
                            )
                            &&& self.appends(
                                write,
                                response_view(
                                    json_view(value),
                                    ts,
                                    self.reported_turn(),
                                    #[trigger] turn_millis(since) as u64,
                                ),
                            )
                        },
                    None => write is None,
                },
    {
        if !self.is_enabled() {
            return None;
        }
        let since: Option<(u64, u32)> = match &self.state.started_at {
            Some(start) => Some(read(start)),
            None => None,
        };
        let made: Option<Value> = message();
        match made {
            Some(value) => {
                let ts: String = timestamp();
                self.response_write(ts.as_str(), since, value)
            },
            None => None,
        }
    }

    /// Records the response of the current turn, as [`Self::handle_response_read`] does, with the
    /// time that [`time_since`] gives for the turn's start.
    pub fn handle_response<F: FnOnce() -> Option<Value>>(&self, message: F) -> (write: Option<
        TraceWrite,
    >)
        requires
            self.enabled() ==> self.wf(),
            self.enabled() ==> message.requires(()),
        ensures
            !self.enabled() ==> write is None,
            self.enabled() ==> exists|made: Option<Value>| #[trigger]
                message.ensures((), made) && match made {
                    Some(value) => exists|ts: Seq<char>, since: Option<(u64, u32)>|
                        {
                            &&& #[trigger] is_timestamp(ts)
                            &&& since is Some <==> self.state.started_at is Some
                            &&& since matches Some(e) ==> is_elapsed_reading(
                                self.state.started_at->0,
                                e,
                            )
                            &&& self.appends(
                                write,
                                response_view(
                                    json_view(value),
                                    ts,
                                    self.reported_turn(),
                                    #[trigger] turn_millis(since) as u64,
                                ),
                            )
                        },
                    None => write is None,
                },
    {
        self.handle_response_read(time_since, message)
    }

    /// What to append at time `ts` for the result of a tool call in the current turn. `output` is
    /// the text of the tool's output, where it has one.
    pub fn toolcall_end_write(
        &self,
        ts: &str,
        call_id: Option<&str>,
        name: &str,
        output: Option<&str>,
        is_error: bool,
    ) -> (write: Option<TraceWrite>)
        requires
            self.enabled() ==> self.wf(),
        ensures
            !self.enabled() ==> write is None,
            self.enabled() ==> self.appends(
                write,
                tool_result_view(
                    ts@,
                    self.reported_turn(),
                    optional_text(call_id),
                    name@,
                    text_or_empty(output),
                    is_error,
                ),
            ),
    {
        if !self.is_enabled() {
            return None;
        }
        let turn: usize = self.state.turn + 1;
        self.write_event(&tool_result_event(ts, turn, call_id, name, output, is_error))
    }

    /// Records the result of a tool call in the current turn. `output` is the text of the tool's
    /// output, where it has one.
    pub fn handle_toolcall_end(
        &self,
        call_id: Option<&str>,
        name: &str,
        output: Option<&str>,
        is_error: bool,
    ) -> (write: Option<TraceWrite>)
        requires
            self.enabled() ==> self.wf(),
        ensures
            !self.enabled() ==> write is None,
            self.enabled() ==> exists|ts: Seq<char>| #[trigger]
                is_timestamp(ts) && self.appends(
                    write,
                    tool_result_view(
                        ts,
                        self.reported_turn(),
                        optional_text(call_id),
                        name@,
                        text_or_empty(output),
                        is_error,
                    ),
                ),
    {
        if !self.is_enabled() {
            return None;
        }
        let ts: String = timestamp();
        self.toolcall_end_write(ts.as_str(), call_id, name, output, is_error)
    }

    /// What to append at time `ts` for the end of a session.
    pub fn end_write(&self, ts: &str) -> (write: Option<TraceWrite>)
        requires
            self.enabled() ==> self.wf(),
        ensures
            !self.enabled() ==> write is None,
            self.enabled() ==> self.appends(write, session_end_view(ts@, self.reported_turn())),
    {
        if !self.is_enabled() {
            return None;
        }
        let total_turns: usize = self.state.turn + 1;
        self.write_event(&session_end_event(ts, total_turns))
    }

    /// Records the end of a session and the number of its turns.
    pub fn handle_end(&self) -> (write: Option<TraceWrite>)
        requires
            self.enabled() ==> self.wf(),
        ensures
            !self.enabled() ==> write is None,
            self.enabled() ==> exists|ts: Seq<char>| #[trigger]
                is_timestamp(ts) && self.appends(
                    write,
                    session_end_view(ts, self.reported_turn()),
                ),
    {
        if !self.is_enabled() {
            return None;
        }
        let ts: String = timestamp();
        self.end_write(ts.as_str())
    }
}

/// A handler records events exactly where it has a trace file.
pub proof fn law_enabled_with_a_file(handler: TraceLoggingHandler)
    ensures
        handler.enabled() <==> handler.trace_file is Some,
{
}

/// The turn that events report is one more than the number that is kept, so that turns are counted
/// from one.
pub proof fn law_turns_count_from_one(handler: TraceLoggingHandler)
    requires
        handler.wf(),
    ensures
        handler.reported_turn() as int == handler.state.turn + 1,
        handler.reported_turn() >= 1,
{
}

/// Directly after a request, another one is a retry exactly where it is for the same turn; before
/// any request, none is.
pub proof fn law_retry_is_for_the_same_turn(state: TurnView, request: TurnRequest, turn: int)
    ensures
        is_retry(after_request(state, request), turn) <==> turn == request.turn,
        state.started_at is None ==> !is_retry(state, turn),
        state.started_at is Some ==> (is_retry(state, turn) <==> state.turn + 1 == turn),
{
}

/// A request that is no retry starts its turn at its clock reading; a retry changes nothing.
pub proof fn law_request_starts_its_turn(state: TurnView, request: TurnRequest)
    ensures
        after_request(state, request).turn + 1 == request.turn,
        is_retry(state, request.turn) ==> after_request(state, request) == state,
        !is_retry(state, request.turn) ==> after_request(state, request).started_at == Some(
            request.now,
        ),
{
}

/// The state of a new session, and what a kept state stands for.
pub proof fn law_state_view_is_faithful(state: TraceState)
    ensures
        new_session().turn == 0,
        new_session().started_at is None,
        state@.turn == state.turn,
        state@.started_at == state.started_at,
{
}

/// An event that is recorded goes to the trace file, as its whole JSON text and one line feed, on a
/// line of its own.
pub proof fn law_recorded_line(
    handler: TraceLoggingHandler,
    write: Option<TraceWrite>,
    event: JsonView,
)
    requires
        handler.appends(write, event),
    ensures
        handler.trace_file is Some,
        write is Some,
        write->0.path@ == handler.trace_file->0@,
        write->0.line@ == json_text(event) + seq!['\n'],
        write->0.line@.drop_last() == json_text(event),
        forall|i: int|
            0 <= i < json_text(event).len() ==> #[trigger] write->0.line@[i] != '\n',
        exact(event) ==> json_parse(write->0.line@.drop_last()) == Some(event),
{
    law_line_carries_text(json_text(event));
    law_single_line_has_no_feed(json_text(event));
    assert(write->0.line@.drop_last() =~= json_text(event));
    assert forall|i: int| 0 <= i < json_text(event).len() implies #[trigger] write->0.line@[i]
        != '\n' by {
        assert(write->0.line@[i] == json_text(event)[i]);
    }
}

/// Whoever parses the line of a `session_start` event finds what the session was started with.
pub proof fn law_start_is_read_back(
    handler: TraceLoggingHandler,
    write: Option<TraceWrite>,
    ts: Seq<char>,
    session_id: Seq<char>,
    model: Seq<char>,
    agent_id: Seq<char>,
)
    requires
        handler.appends(write, session_start_view(ts, session_id, model, agent_id)),
    ensures
        json_parse(write->0.line@.drop_last()) matches Some(JsonView::Object(fields)) && {
            &&& fields["event"@] == JsonView::Text("session_start"@)
            &&& fields["ts"@] == JsonView::Text(ts)
            &&& fields["session_id"@] == JsonView::Text(session_id)
            &&& fields["model"@] == JsonView::Text(model)
            &&& fields["agent_id"@] == JsonView::Text(agent_id)
        },
{
    law_recorded_line(handler, write, session_start_view(ts, session_id, model, agent_id));
    law_session_start_is_exact(ts, session_id, model, agent_id);
    law_session_start_members(ts, session_id, model, agent_id);
}

/// Whoever parses the line of a `request` event finds the turn and the body.
pub proof fn law_request_is_read_back(
    handler: TraceLoggingHandler,
    write: Option<TraceWrite>,
    ts: Seq<char>,
    turn: usize,
    body: JsonView,
)
    requires
        handler.appends(write, request_view(ts, turn, body)),
        exact_within(body, (NESTING_LIMIT - 1) as nat),
    ensures
        json_parse(write->0.line@.drop_last()) matches Some(JsonView::Object(fields)) && {
            &&& fields["event"@] == JsonView::Text("request"@)
            &&& fields["ts"@] == JsonView::Text(ts)
            &&& fields["turn"@] == JsonView::Unsigned(turn as u64)
            &&& fields["body"@] == body
        },
{
    law_recorded_line(handler, write, request_view(ts, turn, body));
    law_request_is_exact(ts, turn, body);
    law_request_members(ts, turn, body);
}

/// Whoever parses the line of a `response` event finds the turn, counted from one, the milliseconds
/// since the turn's request, and every other member of the message as it was.
pub proof fn law_response_is_read_back(
    handler: TraceLoggingHandler,
    write: Option<TraceWrite>,
    message: Map<Seq<char>, JsonView>,
    ts: Seq<char>,
    secs: u64,
    nanos: u32,
)
    requires
        handler.wf(),
        exact(JsonView::Object(message)),
        secs * 1000 + nanos / 1_000_000 < 0x1_0000_0000_0000_0000,
        handler.appends(
            write,
            response_view(
                JsonView::Object(message),
                ts,
                handler.reported_turn(),
                turn_millis(Some((secs, nanos))) as u64,
            ),
        ),
    ensures
        json_parse(write->0.line@.drop_last()) matches Some(JsonView::Object(fields)) && {
            &&& fields["event"@] == JsonView::Text("response"@)
            &&& fields["ts"@] == JsonView::Text(ts)
            &&& fields["turn"@] == JsonView::Unsigned((handler.state.turn + 1) as u64)
            &&& fields["duration_ms"@] == JsonView::Unsigned(
                (secs * 1000 + nanos / 1_000_000) as u64,
            )
            &&& forall|key: Seq<char>|
                !set!["event"@, "ts"@, "turn"@, "duration_ms"@].contains(key)
                    ==> #[trigger] fields[key] == message[key]
        },
{
    let turn = handler.reported_turn();
    let millis = turn_millis(Some((secs, nanos))) as u64;
    law_duration_is_exact(secs, nanos);
    law_turns_count_from_one(handler);
    law_recorded_line(handler, write, response_view(JsonView::Object(message), ts, turn, millis));
    law_response_is_exact(JsonView::Object(message), ts, turn, millis);
    law_response_members(message, ts, turn, millis);
}

/// Whoever parses the line of a `tool_result` event finds the turn, counted from one, the call, and
/// the tool's output character for character.
pub proof fn law_tool_result_is_read_back(
    handler: TraceLoggingHandler,
    write: Option<TraceWrite>,
    ts: Seq<char>,
    call_id: Option<&str>,
    name: Seq<char>,
    output: Option<&str>,
    is_error: bool,
)
    requires
        handler.wf(),
        handler.appends(
            write,
            tool_result_view(
                ts,
                handler.reported_turn(),
                optional_text(call_id),
                name,
                text_or_empty(output),
                is_error,
            ),
        ),
    ensures
        json_parse(write->0.line@.drop_last()) matches Some(JsonView::Object(fields)) && {
            &&& fields["event"@] == JsonView::Text("tool_result"@)
            &&& fields["ts"@] == JsonView::Text(ts)
            &&& fields["turn"@] == JsonView::Unsigned((handler.state.turn + 1) as u64)
            &&& call_id matches Some(id) ==> fields["call_id"@] == JsonView::Text(id@)
            &&& call_id is None ==> fields["call_id"@] == JsonView::Null
            &&& fields["name"@] == JsonView::Text(name)
            &&& output matches Some(text) ==> fields["content"@] == JsonView::Text(text@)
            &&& output is None ==> fields["content"@] == JsonView::Text(Seq::empty())
            &&& fields["is_error"@] == JsonView::Bool(is_error)
        },
{
    let turn = handler.reported_turn();
    let id = optional_text(call_id);
    let content = text_or_empty(output);
    law_turns_count_from_one(handler);
    law_recorded_line(handler, write, tool_result_view(ts, turn, id, name, content, is_error));
    law_tool_result_is_exact(ts, turn, id, name, content, is_error);
    law_tool_result_members(ts, turn, id, name, content, is_error);
    law_tool_result_records_call(ts, turn, call_id, name, output, is_error);
}

/// Whoever parses the line of a `session_end` event finds the number of turns.
pub proof fn law_end_is_read_back(
    handler: TraceLoggingHandler,
    write: Option<TraceWrite>,
    ts: Seq<char>,
)
    requires
        handler.wf(),
        handler.appends(write, session_end_view(ts, handler.reported_turn())),
    ensures
        json_parse(write->0.line@.drop_last()) matches Some(JsonView::Object(fields)) && {
            &&& fields["event"@] == JsonView::Text("session_end"@)
            &&& fields["ts"@] == JsonView::Text(ts)
            &&& fields["total_turns"@] == JsonView::Unsigned((handler.state.turn + 1) as u64)
        },
{
    law_turns_count_from_one(handler);
    law_recorded_line(handler, write, session_end_view(ts, handler.reported_turn()));
    law_session_end_is_exact(ts, handler.reported_turn());
    law_session_end_members(ts, handler.reported_turn());
}

/// After a series of requests, the session is in the turn of the last one: what is reported from
/// then on, up to the next request, is that turn's number.
pub proof fn law_last_request_sets_turn(state: TurnView, requests: Seq<TurnRequest>)
    requires
        requests.len() > 0,
    ensures
        after_requests(state, requests).turn == requests.last().turn - 1,
        after_requests(state, requests).started_at is Some,
{
}

/// Of a series of requests, one is recorded exactly where its turn differs from that of the request
/// before it; the first one, where it is no retry of a request before the series.
pub proof fn law_recorded_when_turn_changes(state: TurnView, requests: Seq<TurnRequest>, i: int)
    requires
        0 <= i < requests.len(),
    ensures
        i == 0 ==> (is_recorded(state, requests, i) <==> !is_retry(state, requests[0].turn)),
        i > 0 ==> (is_recorded(state, requests, i) <==> requests[i].turn != requests[i - 1].turn),
{
    if i > 0 {
        law_last_request_sets_turn(state, requests.take(i));
        assert(requests.take(i).last() == requests[i - 1]);
    }
}

/// The requests from position `first` on are the latest run of requests for one turn.
pub open spec fn is_latest_run(requests: Seq<TurnRequest>, first: int) -> bool {
    &&& 0 <= first < requests.len()
    &&& forall|i: int|
        first <= i < requests.len() ==> (#[trigger] requests[i]).turn == requests[first].turn
    &&& first == 0 || requests[first - 1].turn != requests[first].turn
}

/// The time of a turn is measured from the first request of the latest run of requests for it: a
/// new turn moves the start to its clock reading, and retries do not move it. (Where the whole
/// series retries a request from before it, the start is still that one's.) Handling an event
/// moves nothing, since it leaves the handler as it is.
pub proof fn law_turn_starts_with_its_run(
    state: TurnView,
    requests: Seq<TurnRequest>,
    first: int,
)
    requires
        is_latest_run(requests, first),
    ensures
        after_requests(state, requests).started_at == (if first == 0 && is_retry(
            state,
            requests[0].turn,
        ) {
            state.started_at
        } else {
            Some(requests[first].now)
        }),
    decreases requests.len(),
{
    let before = requests.drop_last();
    if first < requests.len() - 1 {
        assert(requests[requests.len() - 1].turn == requests[first].turn);
        assert forall|i: int| first <= i < before.len() implies (#[trigger] before[i]).turn
            == before[first].turn by {
            assert(before[i] == requests[i]);
        }
        law_turn_starts_with_its_run(state, before, first);
        law_last_request_sets_turn(state, before);
        assert(before.last() == requests[requests.len() - 2]);
    } else if first > 0 {
        law_last_request_sets_turn(state, before);
        assert(before.last() == requests[first - 1]);
    }
}

/// In a session of its own, a turn's time is measured from the first request of the latest run of
/// requests for it, and there is none before the first request.
pub proof fn law_session_turn_start(requests: Seq<TurnRequest>)
    ensures
        requests.len() == 0 ==> after_requests(new_session(), requests).started_at is None,
        forall|first: int| #[trigger]
            is_latest_run(requests, first) ==> after_requests(new_session(), requests).started_at
                == Some(requests[first].now),
{
    assert forall|first: int| #[trigger] is_latest_run(requests, first) implies after_requests(
        new_session(),
        requests,
    ).started_at == Some(requests[first].now) by {
        law_turn_starts_with_its_run(new_session(), requests, first);
    }
}

/// Retries of a turn's request follow it directly: between two requests for one turn there are
/// only requests for that turn.
pub open spec fn retries_follow(requests: Seq<TurnRequest>) -> bool {
    forall|i: int, j: int, k: int|
        0 <= i <= j <= k < requests.len() && (#[trigger] requests[i]).turn == (
        #[trigger] requests[k]).turn ==> (#[trigger] requests[j]).turn == requests[i].turn
}

/// Exactly one request is recorded for each turn of a session, however often it is retried.
pub proof fn law_one_record_per_turn(requests: Seq<TurnRequest>, asked: int)
    requires
        retries_follow(requests),
        0 <= asked < requests.len(),
    ensures
        exists|i: int|
            {
                &&& 0 <= i < requests.len()
                &&& requests[i].turn == requests[asked].turn
                &&& #[trigger] is_recorded(new_session(), requests, i)
                &&& forall|j: int|
                    {
                        &&& 0 <= j < requests.len()
                        &&& requests[j].turn == requests[asked].turn
                        &&& #[trigger] is_recorded(new_session(), requests, j)
                    } ==> j == i
            },
{
    let turns = requests.map_values(|request: TurnRequest| request.turn);
    let turn = requests[asked].turn;
    assert(turns[asked] == turn);
    let first = turns.index_of_first(turn)->0;
    turns.index_of_first_ensures(turn);
    assert(turns[first] == turn);
    if first > 0 {
        assert(turns[first - 1] != turn);
    }
    law_recorded_when_turn_changes(new_session(), requests, first);
    assert(is_recorded(new_session(), requests, first));
    assert forall|j: int|
        {
            &&& 0 <= j < requests.len()
            &&& requests[j].turn == turn
            &&& #[trigger] is_recorded(new_session(), requests, j)
        } implies j == first by {
        law_recorded_when_turn_changes(new_session(), requests, j);
        assert(turns[j] == turn);
        if j > first {
            assert(requests[first].turn == requests[j].turn);
            assert(requests[j - 1].turn == requests[first].turn);
        }
    }
}

/// The contents of a new file after the lines of `writes` were appended to it in turn.
pub open spec fn written(writes: Seq<TraceWrite>) -> Seq<char>
    decreases writes.len(),
{
    if writes.len() == 0 {
        Seq::empty()
    } else {
        writes.first().line@ + written(writes.drop_first())
    }
}

/// The trace file holds one event per line: reading it line by line gives the JSON texts of the
/// recorded events, all of them, in the order in which they were recorded.
pub proof fn law_trace_reads_back(
    handler: TraceLoggingHandler,
    writes: Seq<TraceWrite>,
    events: Seq<JsonView>,
)
    requires
        writes.len() == events.len(),
        forall|i: int|
            0 <= i < writes.len() ==> handler.appends(Some(#[trigger] writes[i]), events[i]),
    ensures
        lines(written(writes)) == events.map_values(|event: JsonView| json_text(event)),
{
    let texts = events.map_values(|event: JsonView| json_text(event));
    lemma_written_is_appended(handler, writes, events);
    assert forall|i: int| 0 <= i < texts.len() implies single_line(#[trigger] texts[i]) by {
        assert(handler.appends(Some(writes[i]), events[i]));
    }
    law_lines_read_back(texts);
}

/// A trace can be read back: it has as many lines as events were recorded, it ends in a line feed
/// if there are any, and parsing a line gives the event that was recorded there, where that event
/// is exact.
pub proof fn law_trace_parses_back(
    handler: TraceLoggingHandler,
    writes: Seq<TraceWrite>,
    events: Seq<JsonView>,
)
    requires
        writes.len() == events.len(),
        forall|i: int|
            0 <= i < writes.len() ==> handler.appends(Some(#[trigger] writes[i]), events[i]),
    ensures
        lines(written(writes)).len() == events.len(),
        events.len() > 0 ==> written(writes).len() > 0 && written(writes).last() == '\n',
        forall|i: int|
            0 <= i < events.len() && exact(events[i]) ==> json_parse(
                #[trigger] lines(written(writes))[i],
            ) == Some(events[i]),
{
    law_trace_reads_back(handler, writes, events);
    assert forall|i: int| 0 <= i < events.len() && exact(events[i]) implies json_parse(
        #[trigger] lines(written(writes))[i],
    ) == Some(events[i]) by {
        assert(handler.appends(Some(writes[i]), events[i]));
    }
    if events.len() > 0 {
        lemma_written_ends(handler, writes, events);
    }
}

/// What recorded events leave in a file ends in a line feed.
proof fn lemma_written_ends(
    handler: TraceLoggingHandler,
    writes: Seq<TraceWrite>,
    events: Seq<JsonView>,
)
    requires
        writes.len() == events.len(),
        writes.len() > 0,
        forall|i: int|
            0 <= i < writes.len() ==> handler.appends(Some(#[trigger] writes[i]), events[i]),
    ensures
        written(writes).len() > 0,
        written(writes).last() == '\n',
    decreases writes.len(),
{
    let others = writes.drop_first();
    let later = events.drop_first();
    assert(handler.appends(Some(writes[0]), events[0]));
    if others.len() > 0 {
        assert forall|i: int| 0 <= i < others.len() implies handler.appends(
            Some(#[trigger] others[i]),
            later[i],
        ) by {
            assert(others[i] == writes[i + 1]);
        }
        lemma_written_ends(handler, others, later);
    } else {
        assert(written(others) =~= Seq::empty());
        assert(written(writes) =~= writes[0].line@);
    }
}

/// What recorded events leave in a file is the framing of their JSON texts.
proof fn lemma_written_is_appended(
    handler: TraceLoggingHandler,
    writes: Seq<TraceWrite>,
    events: Seq<JsonView>,
)
    requires
        writes.len() == events.len(),
        forall|i: int|
            0 <= i < writes.len() ==> handler.appends(Some(#[trigger] writes[i]), events[i]),
    ensures
        written(writes) == appended(events.map_values(|event: JsonView| json_text(event))),
    decreases writes.len(),
{
    let texts = events.map_values(|event: JsonView| json_text(event));
    if writes.len() > 0 {
        let others = writes.drop_first();
        let later = events.drop_first();
        assert(handler.appends(Some(writes[0]), events[0]));
        assert forall|i: int| 0 <= i < others.len() implies handler.appends(
            Some(#[trigger] others[i]),
            later[i],
        ) by {
            assert(others[i] == writes[i + 1]);
        }
        lemma_written_is_appended(handler, others, later);
        assert(later.map_values(|event: JsonView| json_text(event)) =~= texts.drop_first());
    }
}

} // verus!
