//! Sending the events that have waited.
//!
//! A flush goes through its events twice: each one is appended to the log file,
//! if there is one, and then all of them are delivered in one request. The
//! program around the library writes, serializes and sends. After each of these
//! it learns here what comes next.

use crate::event::EventWrapper;
use crate::request::{
    is_delivery, lemma_request_is_delivery, BuildRequestError, EventRequestBody, HttpRequest,
};
use crate::telemetry::Telemetry;
use vstd::prelude::*;

verus! {

/// Events that have left the queue to be sent. There is at least one.
pub struct PendingFlush {
    events: Vec<EventWrapper>,
}

/// Why a flush ended without a reply.
#[derive(Clone, Copy, Debug, PartialEq, Eq, Structural)]
pub enum FlushFailure {
    /// An event could not be appended to the log file.
    Log,
    /// What the request is made of could not be put together.
    Request(BuildRequestError),
    /// The client refused to build the request.
    Builder,
    /// The request could not be sent.
    Transport,
}

/// How a flush ended.
#[derive(Clone, Copy, Debug, PartialEq, Eq, Structural)]
pub enum FlushOutcome {
    /// The server took the events.
    Delivered,
    /// The server replied with another status.
    Refused { status: u16 },
    Failed(FlushFailure),
}

/// What a flush needs next.
pub enum FlushStep {
    /// Append an event to the log file.
    LogEvent(LogStep),
    /// Write the body of the request as JSON.
    SerializeBody(EventRequestBody),
    /// Send the request.
    Send(HttpRequest),
    /// Nothing: it is over.
    Done(FlushOutcome),
}

/// A flush that waits for an event to be appended to the log file.
pub struct LogStep {
    events: Vec<EventWrapper>,
    next: usize,
}

/// What came of a request that was handed over to be sent.
#[derive(Clone, Copy, Debug, PartialEq, Eq, Structural)]
pub enum Reply {
    /// The server replied with this status.
    Status(u16),
    /// The client refused to build the request, and nothing was sent.
    NotBuilt,
    /// The request could not be sent, or there was no reply.
    NotReceived,
}

/// The status of a reply that takes the events.
pub const STATUS_OK: u16 = 200;

/// `step` is what comes after `logged` of the events have been dealt with: the
/// next one, or the request that delivers them all.
pub open spec fn continues(
    telemetry: Telemetry,
    events: Seq<EventWrapper>,
    logged: int,
    step: FlushStep,
) -> bool {
    if logged < events.len() {
        &&& step matches FlushStep::LogEvent(log)
        &&& log.events_spec() == events
        &&& log.next_spec() == logged
    } else {
        &&& step matches FlushStep::SerializeBody(body)
        &&& body == telemetry.request_body_spec(body.events)
        &&& body.events@ == events
    }
}

impl PendingFlush {
    /// The events to be sent, in the order in which they were reported.
    pub closed spec fn events_spec(self) -> Seq<EventWrapper> {
        self.events@
    }

    #[verifier::type_invariant]
    spec fn is_not_empty(self) -> bool {
        self.events@.len() > 0
    }

    /// Sets events apart to be sent, if there are any.
    pub fn new(events: Vec<EventWrapper>) -> (pending: Option<PendingFlush>)
        ensures
            match pending {
                Some(pending) => events@.len() > 0 && pending.events_spec() == events@,
                None => events@.len() == 0,
            },
    {
        if events.len() == 0 {
            None
        } else {
            Some(PendingFlush { events })
        }
    }

    /// The events to be sent, in the order in which they were reported.
    pub fn events(&self) -> (events: &Vec<EventWrapper>)
        ensures
            events@ == self.events_spec(),
            events@.len() > 0,
    {
        proof {
            use_type_invariant(self);
        }
        &self.events
    }

    /// Begins to send the events. Without a log file they are all delivered at
    /// once.
    pub fn begin(self, telemetry: &Telemetry, has_log_file: bool) -> (step: FlushStep)
        ensures
            self.events_spec().len() > 0,
            continues(
                *telemetry,
                self.events_spec(),
                if has_log_file {
                    0
                } else {
                    self.events_spec().len() as int
                },
                step,
            ),
    {
        proof {
            use_type_invariant(&self);
        }
        if has_log_file {
            FlushStep::LogEvent(LogStep { events: self.events, next: 0 })
        } else {
            FlushStep::SerializeBody(telemetry.request_body(self.events))
        }
    }
}

impl LogStep {
    /// All events of the flush.
    pub closed spec fn events_spec(self) -> Seq<EventWrapper> {
        self.events@
    }

    /// The index of the event to be appended.
    pub closed spec fn next_spec(self) -> int {
        self.next as int
    }

    #[verifier::type_invariant]
    spec fn is_within(self) -> bool {
        self.next < self.events@.len()
    }

    /// The event to be appended.
    pub fn event(&self) -> (event: &EventWrapper)
        ensures
            0 <= self.next_spec() < self.events_spec().len(),
            *event == self.events_spec()[self.next_spec()],
    {
        proof {
            use_type_invariant(self);
        }
        &self.events[self.next]
    }

    /// Goes on after the event was appended, or after that failed. A failure ends
    /// the flush, and nothing is sent.
    pub fn logged(self, telemetry: &Telemetry, written: bool) -> (step: FlushStep)
        ensures
            if written {
                continues(*telemetry, self.events_spec(), self.next_spec() + 1, step)
            } else {
                step == FlushStep::Done(FlushOutcome::Failed(FlushFailure::Log))
            },
    {
        proof {
            use_type_invariant(&self);
        }
        if !written {
            return FlushStep::Done(FlushOutcome::Failed(FlushFailure::Log));
        }
        let count: usize = self.events.len();
        let next: usize = self.next + 1;
        if next < count {
            FlushStep::LogEvent(LogStep { events: self.events, next })
        } else {
            FlushStep::SerializeBody(telemetry.request_body(self.events))
        }
    }
}

/// The line of the log file that an event takes: the event as JSON, and a line
/// feed.
pub fn log_line(json: Vec<u8>) -> (line: Vec<u8>)
    ensures
        line@ == json@.push(0x0a),
{
    let mut line = json;
    line.push(0x0a);
    line
}

impl Telemetry {
    /// Goes on after the body of the request was written as JSON and the address
    /// of the server was formed; either is missing where that failed.
    pub fn body_serialized(&self, json: Option<Vec<u8>>, uri: Option<String>) -> (step: FlushStep)
        ensures
            match step {
                FlushStep::Send(request) => json is Some && uri is Some && request@
                    == crate::request::request_spec(
                    crate::checksum::seed_view(self.checksum_seed),
                    json->0@,
                    uri->0@,
                ),
                FlushStep::Done(FlushOutcome::Failed(FlushFailure::Request(error))) => {
                    ||| error == BuildRequestError::Serialization && json is None
                    ||| error == BuildRequestError::Uri && json is Some && uri is None
                },
                _ => false,
            },
    {
        match self.build_request(json, uri) {
            Ok(request) => FlushStep::Send(request),
            Err(error) => FlushStep::Done(FlushOutcome::Failed(FlushFailure::Request(error))),
        }
    }
}

/// How a flush ends after its request was handed over: the server took the events
/// if it replied so, and refused them with every other status.
pub fn responded(reply: Reply) -> (outcome: FlushOutcome)
    ensures
        outcome == (match reply {
            Reply::Status(status) => if status == STATUS_OK {
                FlushOutcome::Delivered
            } else {
                FlushOutcome::Refused { status }
            },
            Reply::NotBuilt => FlushOutcome::Failed(FlushFailure::Builder),
            Reply::NotReceived => FlushOutcome::Failed(FlushFailure::Transport),
        }),
{
    match reply {
        Reply::Status(status) => if status == STATUS_OK {
            FlushOutcome::Delivered
        } else {
            FlushOutcome::Refused { status }
        },
        Reply::NotBuilt => FlushOutcome::Failed(FlushFailure::Builder),
        Reply::NotReceived => FlushOutcome::Failed(FlushFailure::Transport),
    }
}

/// With a log file, and as long as every event can be appended, the flush appends
/// each of its events once, in their order, and then delivers exactly these
/// events in one request. What is known of the installation may change while it
/// does: the request says what is known when it is put together.
pub proof fn flush_logs_then_delivers(
    telemetries: Seq<Telemetry>,
    events: Seq<EventWrapper>,
    steps: Seq<FlushStep>,
)
    requires
        steps.len() == events.len() + 1,
        telemetries.len() == steps.len(),
        continues(telemetries[0], events, 0, steps[0]),
        forall|i: int|
            #![trigger steps[i]]
            0 <= i < events.len() ==> (steps[i] matches FlushStep::LogEvent(log) ==> continues(
                telemetries[i + 1],
                log.events_spec(),
                log.next_spec() + 1,
                steps[i + 1],
            )),
    ensures
        forall|i: int|
            #![trigger steps[i]]
            0 <= i < events.len() ==> {
                &&& steps[i] matches FlushStep::LogEvent(log)
                &&& log.events_spec()[log.next_spec()] == events[i]
            },
        steps.last() matches FlushStep::SerializeBody(body) && body.events@ == events && body
            == telemetries.last().request_body_spec(body.events),
{
    assert forall|i: int| 0 <= i < steps.len() implies continues(
        #[trigger] telemetries[i],
        events,
        i,
        steps[i],
    ) by {
        lemma_step_continues(telemetries, events, steps, i);
    }
    assert forall|i: int| #![trigger steps[i]] 0 <= i < events.len() implies {
        &&& steps[i] matches FlushStep::LogEvent(log)
        &&& log.events_spec()[log.next_spec()] == events[i]
    } by {
        assert(continues(telemetries[i], events, i, steps[i]));
    }
    assert(continues(telemetries[events.len() as int], events, events.len() as int, steps.last()));
}

proof fn lemma_step_continues(
    telemetries: Seq<Telemetry>,
    events: Seq<EventWrapper>,
    steps: Seq<FlushStep>,
    i: int,
)
    requires
        steps.len() == events.len() + 1,
        telemetries.len() == steps.len(),
        continues(telemetries[0], events, 0, steps[0]),
        forall|j: int|
            #![trigger steps[j]]
            0 <= j < events.len() ==> (steps[j] matches FlushStep::LogEvent(log) ==> continues(
                telemetries[j + 1],
                log.events_spec(),
                log.next_spec() + 1,
                steps[j + 1],
            )),
        0 <= i < steps.len(),
    ensures
        continues(telemetries[i], events, i, steps[i]),
    decreases i,
{
    if i > 0 {
        lemma_step_continues(telemetries, events, steps, i - 1);
        assert(continues(telemetries[i - 1], events, i - 1, steps[i - 1]));
    }
}

/// Events are set apart to be sent exactly if there are any, all of them and in
/// their order.
pub proof fn all_events_are_set_apart(
    events: Vec<EventWrapper>,
    pending: Option<PendingFlush>,
    set_apart: &Vec<EventWrapper>,
)
    requires
        call_ensures(PendingFlush::new, (events,), pending),
        pending is Some ==> call_ensures(PendingFlush::events, (&pending->0,), set_apart),
    ensures
        pending is Some <==> events@.len() > 0,
        pending is Some ==> set_apart@ == events@ && pending->0.events_spec() == events@,
{
}

/// Without a log file the events go into the body of the request at once. With one
/// the first event is appended first.
pub proof fn flush_begins_with_log(
    pending: PendingFlush,
    telemetry: Telemetry,
    has_log_file: bool,
    step: FlushStep,
)
    requires
        call_ensures(PendingFlush::begin, (pending, &telemetry, has_log_file), step),
    ensures
        !has_log_file ==> (step matches FlushStep::SerializeBody(body) && body.events@
            == pending.events_spec()),
        has_log_file ==> (step matches FlushStep::LogEvent(log) && log.events_spec()
            == pending.events_spec() && log.next_spec() == 0),
{
}

/// The event that is appended is the one whose turn it is. After it comes the next
/// one, and after the last one the body of the request with all of them. If an event
/// cannot be appended, nothing more happens.
pub proof fn events_are_logged_in_turn(
    log: LogStep,
    event: &EventWrapper,
    telemetry: Telemetry,
    written: bool,
    step: FlushStep,
)
    requires
        call_ensures(LogStep::event, (&log,), event),
        call_ensures(LogStep::logged, (log, &telemetry, written), step),
    ensures
        *event == log.events_spec()[log.next_spec()],
        !written ==> step == FlushStep::Done(FlushOutcome::Failed(FlushFailure::Log)),
        written && log.next_spec() + 1 < log.events_spec().len() ==> {
            &&& step matches FlushStep::LogEvent(after)
            &&& after.events_spec() == log.events_spec()
            &&& after.next_spec() == log.next_spec() + 1
        },
        written && log.next_spec() + 1 >= log.events_spec().len() ==> {
            &&& step matches FlushStep::SerializeBody(body)
            &&& body.events@ == log.events_spec()
        },
{
}

/// A line of the log file is the event as it was written, and one line feed.
pub proof fn log_line_adds_line_feed(json: Vec<u8>, line: Vec<u8>)
    requires
        call_ensures(log_line, (json,), line),
    ensures
        line@.len() == json@.len() + 1,
        line@.drop_last() == json@,
        line@.last() == 0x0a,
{
}

/// A body that was written is sent to the address that was formed. What could not
/// be made ends the flush.
pub proof fn written_body_is_sent(
    telemetry: Telemetry,
    json: Option<Vec<u8>>,
    uri: Option<String>,
    step: FlushStep,
    built: Result<HttpRequest, BuildRequestError>,
)
    requires
        call_ensures(Telemetry::body_serialized, (&telemetry, json, uri), step),
        call_ensures(Telemetry::build_request, (&telemetry, json, uri), built),
    ensures
        json is None ==> step == FlushStep::Done(
            FlushOutcome::Failed(FlushFailure::Request(BuildRequestError::Serialization)),
        ),
        json is Some && uri is None ==> step == FlushStep::Done(
            FlushOutcome::Failed(FlushFailure::Request(BuildRequestError::Uri)),
        ),
        json is Some && uri is Some ==> {
            &&& step matches FlushStep::Send(request)
            &&& is_delivery(request, telemetry.checksum_seed, json->0@, uri->0@)
        },
        json is None ==> built == Err::<HttpRequest, _>(BuildRequestError::Serialization),
        json is Some && uri is None ==> built == Err::<HttpRequest, _>(BuildRequestError::Uri),
        json is Some && uri is Some ==> {
            &&& built matches Ok(request)
            &&& is_delivery(request, telemetry.checksum_seed, json->0@, uri->0@)
        },
{
    if json is Some && uri is Some {
        match step {
            FlushStep::Send(request) => {
                lemma_request_is_delivery(request, telemetry.checksum_seed, json->0@, uri->0@);
            },
            _ => {},
        }
        match built {
            Ok(request) => {
                lemma_request_is_delivery(request, telemetry.checksum_seed, json->0@, uri->0@);
            },
            _ => {},
        }
    }
}

/// The events are delivered with the status 200 and with no other. Every other
/// status is a refusal that names it, and without a status the flush has failed.
pub proof fn only_ok_delivers(reply: Reply, outcome: FlushOutcome)
    requires
        call_ensures(responded, (reply,), outcome),
    ensures
        outcome == FlushOutcome::Delivered <==> reply == Reply::Status(200),
        reply matches Reply::Status(status) ==> (status != 200 ==> outcome
            == FlushOutcome::Refused { status }),
        reply == Reply::NotBuilt ==> outcome == FlushOutcome::Failed(FlushFailure::Builder),
        reply == Reply::NotReceived ==> outcome == FlushOutcome::Failed(FlushFailure::Transport),
{
}

} // verus!
