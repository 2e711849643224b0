//! The instrumented operation behind `GET /`: what it answers, and which
//! span and log events it asks the diagnostics pipeline to record.

use vstd::prelude::*;
use vstd::string::*;
use crate::filter::LogFilter;
use crate::filter::Severity;

verus! {

/// One log event: its severity and its message.
pub struct LogRecord {
    pub level: Severity,
    pub message: String,
}

/// One run of an instrumented operation: the span it runs in, the events it
/// logs inside that span, in order, and the response it gives.
pub struct Operation {
    pub span_name: String,
    pub span_level: Severity,
    pub events: Vec<LogRecord>,
    pub status: u16,
    pub body: String,
}

/// The name of the handler's span.
pub open spec fn handler_span() -> Seq<char> {
    "i_just_did_a_thing"@
}

/// The message the handler logs.
pub open spec fn handler_message() -> Seq<char> {
    "I'm doing a thing!"@
}

/// The body the handler answers with.
pub open spec fn handler_body() -> Seq<char> {
    "We did a thing!"@
}

impl Operation {
    /// Whether `self` is a run of the handler: one span at `Info`, one
    /// event at `Info` inside it, and the fixed response with status 200.
    pub open spec fn is_handler_run(self) -> bool {
        &&& self.span_name@ == handler_span()
        &&& self.span_level == Severity::Info
        &&& self.events@.len() == 1
        &&& self.events@[0].level == Severity::Info
        &&& self.events@[0].message@ == handler_message()
        &&& self.status == 200
        &&& self.body@ == handler_body()
    }

    /// Whether the span of this run is recorded under `filter`.
    pub open spec fn span_recorded(self, filter: LogFilter) -> bool {
        filter.allows(self.span_level)
    }

    /// Whether the event at `index` is emitted under `filter`, and so
    /// attached to the span where that is recorded. There is no event at an
    /// index past the last one.
    pub open spec fn event_emitted(self, filter: LogFilter, index: int) -> bool {
        0 <= index < self.events@.len() && filter.allows(self.events@[index].level)
    }

    /// Whether the span of this run passes `filter`.
    pub fn records_span(&self, filter: &LogFilter) -> (r: bool)
        ensures
            r == self.span_recorded(*filter),
    {
        filter.should_emit(self.span_level)
    }

    /// Whether the event at `index` passes `filter`.
    pub fn emits_event(&self, filter: &LogFilter, index: usize) -> (r: bool)
        ensures
            r == self.event_emitted(*filter, index as int),
    {
        index < self.events.len() && filter.should_emit(self.events[index].level)
    }
}

/// Handles `GET /`. Every call gives the same run, whatever came before:
/// the handler keeps no state.
pub fn do_a_thing() -> (r: Operation)
    ensures
        r.is_handler_run(),
{
    let mut events: Vec<LogRecord> = Vec::new();
    events.push(LogRecord { level: Severity::Info, message: String::from_str("I'm doing a thing!") });
    Operation {
        span_name: String::from_str("i_just_did_a_thing"),
        span_level: Severity::Info,
        events,
        status: 200,
        body: String::from_str("We did a thing!"),
    }
}

/// Under a filter that lets `Info` through, and so under the default one,
/// a run of the handler records its one span and attaches at least one
/// event to it.
pub proof fn lemma_handler_is_observed(run: Operation, filter: LogFilter)
    requires
        run.is_handler_run(),
        filter.allows(Severity::Info),
    ensures
        run.span_recorded(filter),
        exists|i: int| run.event_emitted(filter, i),
{
    assert(run.event_emitted(filter, 0));
}

/// Two runs of the handler answer alike: the same status and the same body.
pub proof fn lemma_handler_is_stateless(first: Operation, second: Operation)
    requires
        first.is_handler_run(),
        second.is_handler_run(),
    ensures
        first.status == 200,
        second.status == first.status,
        second.body@ == first.body@,
        second.span_name@ == first.span_name@,
        second.events@.len() == first.events@.len(),
{
}

} // verus!
