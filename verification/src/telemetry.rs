//! What is known of the installation, and the events that wait to be sent.

use crate::checksum::seed_view;
use crate::dotnet::{belongs_to_dotnet, compile, DotnetPattern, DOTNET_PROJECT_FILES_PATTERN};
use crate::event::{
    app_closed_event, app_closed_event_spec, assistant_event, assistant_event_carries_all,
    assistant_event_spec, edit_event, edit_event_carries_all, edit_event_spec, has_property,
    is_report_of_exchange, is_report_of_stretch, project_opened_event, project_opened_event_spec,
    AssistantEventData, EditPeriod, Event, EventWrapper, FlexibleEvent, FlexibleEventView,
    PropertyValueView,
};
use crate::flush::{FlushStep, LogStep, PendingFlush};
use crate::project_types::{
    discover_project_types, discovered_labels, has_label, labels_tell_what_entries_are,
    some_entry_is, string_views, UpdatedEntry,
};
use crate::request::{build_request, request_spec, BuildRequestError, EventRequestBody, HttpRequest};
use crate::time::{period_is_counted, period_millis, period_millis_spec, Instant};
use std::collections::HashSet;
use vstd::prelude::*;

verus! {

broadcast use vstd::std_specs::hash::group_hash_axioms;

/// The name of the file, among the logs of the program, that events are appended
/// to when they are sent.
pub const LOG_FILE_NAME: &'static str = "telemetry.log";

/// How the program was built.
#[derive(Clone, Copy, Debug, PartialEq, Eq, Structural)]
pub enum BuildProfile {
    Debug,
    Release,
}

/// How many events may wait, in a debug build.
pub const DEBUG_MAX_QUEUE_LEN: usize = 5;

/// How many events may wait, in a release build.
pub const RELEASE_MAX_QUEUE_LEN: usize = 50;

/// How long events may wait, in a debug build: a second.
pub const DEBUG_FLUSH_INTERVAL_MILLIS: u64 = 1_000;

/// How long events may wait, in a release build: five minutes.
pub const RELEASE_FLUSH_INTERVAL_MILLIS: u64 = 300_000;

/// How many events may wait before they are sent.
pub open spec fn max_queue_len_spec(profile: BuildProfile) -> usize {
    match profile {
        BuildProfile::Debug => DEBUG_MAX_QUEUE_LEN,
        BuildProfile::Release => RELEASE_MAX_QUEUE_LEN,
    }
}

/// How long events may wait before they are sent, in milliseconds.
pub open spec fn flush_interval_millis_spec(profile: BuildProfile) -> u64 {
    match profile {
        BuildProfile::Debug => DEBUG_FLUSH_INTERVAL_MILLIS,
        BuildProfile::Release => RELEASE_FLUSH_INTERVAL_MILLIS,
    }
}

/// How long events may wait before they are sent, in milliseconds.
pub fn flush_interval_millis(profile: BuildProfile) -> (millis: u64)
    ensures
        millis == flush_interval_millis_spec(profile),
{
    match profile {
        BuildProfile::Debug => DEBUG_FLUSH_INTERVAL_MILLIS,
        BuildProfile::Release => RELEASE_FLUSH_INTERVAL_MILLIS,
    }
}

/// What the user allows.
#[derive(Clone, Copy, Debug, PartialEq, Eq, Structural)]
pub struct TelemetrySettings {
    pub metrics: bool,
}

/// A flush that is due when its time has run down.
#[derive(Clone, Copy, Debug, PartialEq, Eq, Structural)]
pub struct FlushTask {
    pub remaining_millis: u64,
}

/// The state behind the reports.
pub struct TelemetryState {
    pub settings: TelemetrySettings,
    /// Per system.
    pub system_id: Option<String>,
    /// Per installation; different for each release channel.
    pub installation_id: Option<String>,
    /// Per launch of the program.
    pub session_id: Option<String>,
    /// Per user that is logged in.
    pub metrics_id: Option<String>,
    pub release_channel: Option<String>,
    pub architecture: String,
    pub events_queue: Vec<EventWrapper>,
    pub flush_events_task: Option<FlushTask>,
    pub is_staff: Option<bool>,
    pub first_event_date_time: Option<Instant>,
    pub max_queue_size: usize,
    pub worktrees_with_project_type_events_sent: HashSet<usize>,
    pub os_name: String,
    pub app_version: String,
    pub os_version: Option<String>,
}

/// What is fixed, or known at once, when the program starts.
pub struct Environment {
    pub profile: BuildProfile,
    pub settings: TelemetrySettings,
    pub release_channel: Option<String>,
    pub architecture: String,
    pub os_name: String,
    pub app_version: String,
    pub checksum_seed: Option<Vec<u8>>,
}

/// Collects events and decides when they are sent.
pub struct Telemetry {
    pub state: TelemetryState,
    pub checksum_seed: Option<Vec<u8>>,
    pub flush_interval_millis: u64,
    pub dotnet_pattern: DotnetPattern,
}

/// What a report led to.
pub enum ReportOutcome {
    /// The user does not allow metrics: nothing happened.
    Ignored,
    /// The event waits. If `start_timer_millis` is there, it is the first one to
    /// wait, and a flush is due after this time.
    Queued { start_timer_millis: Option<u64> },
    /// The queue was full: its events are to be sent now, and no timer runs any
    /// more.
    Flush(PendingFlush),
}

impl TelemetryState {
    /// Whether no event waits, no flush is due and no event is the first one.
    pub open spec fn is_empty_spec(self) -> bool {
        &&& self.events_queue@.len() == 0
        &&& self.flush_events_task is None
        &&& self.first_event_date_time is None
    }

    /// Either nothing waits, or there is a first event and a flush is due.
    pub open spec fn is_consistent(self) -> bool {
        &&& (self.events_queue@.len() == 0) == (self.flush_events_task is None)
        &&& (self.events_queue@.len() == 0) == (self.first_event_date_time is None)
    }

    /// This state after the user has changed the settings.
    pub open spec fn with_settings(self, settings: TelemetrySettings) -> TelemetryState {
        TelemetryState { settings, ..self }
    }

    /// This state after the version of the operating system was found out.
    pub open spec fn with_os_version(self, os_version: String) -> TelemetryState {
        TelemetryState { os_version: Some(os_version), ..self }
    }

    /// This state after it became known who and what is reporting.
    pub open spec fn started(
        self,
        system_id: Option<String>,
        installation_id: Option<String>,
        session_id: String,
        app_version: String,
        os_name: String,
    ) -> TelemetryState {
        TelemetryState {
            system_id,
            installation_id,
            session_id: Some(session_id),
            app_version,
            os_name,
            ..self
        }
    }

    /// This state after a user has logged in or out. Without consent it is not
    /// taken over.
    pub open spec fn authenticated(self, metrics_id: Option<String>, is_staff: bool) -> TelemetryState {
        if self.settings.metrics {
            TelemetryState { metrics_id, is_staff: Some(is_staff), ..self }
        } else {
            self
        }
    }

    /// The milliseconds since the first event that waits; none if there is none.
    pub open spec fn millis_since_first_event(self, now: Instant) -> int {
        match self.first_event_date_time {
            Some(first) => period_millis_spec(first, now),
            None => 0,
        }
    }

    /// How an event is kept that is reported at `now`.
    pub open spec fn wrapped(self, event: Event, now: Instant) -> EventWrapper {
        EventWrapper {
            signed_in: self.metrics_id is Some,
            milliseconds_since_first_event: self.millis_since_first_event(now) as i64,
            event,
        }
    }

    /// Whether one more event fills the queue. Before the installation is known
    /// the queue has no limit.
    pub open spec fn is_filled_by_next(self) -> bool {
        self.installation_id is Some && self.events_queue@.len() + 1 >= self.max_queue_size
    }

    /// `after` is this state with an empty queue, and nothing due.
    pub open spec fn flushed(self, after: TelemetryState) -> bool {
        &&& after == (TelemetryState {
            events_queue: after.events_queue,
            flush_events_task: None,
            first_event_date_time: None,
            ..self
        })
        &&& after.events_queue@ == Seq::<EventWrapper>::empty()
    }

    /// `after` is this state with one more event in the queue, and a flush due.
    pub open spec fn queued(
        self,
        event: Event,
        now: Instant,
        interval_millis: u64,
        after: TelemetryState,
    ) -> bool {
        &&& after == (TelemetryState {
            events_queue: after.events_queue,
            flush_events_task: match self.flush_events_task {
                Some(task) => Some(task),
                None => Some(FlushTask { remaining_millis: interval_millis }),
            },
            first_event_date_time: match self.first_event_date_time {
                Some(first) => Some(first),
                None => Some(now),
            },
            ..self
        })
        &&& after.events_queue@ == self.events_queue@.push(self.wrapped(event, now))
    }

    /// What becomes of a reported event: nothing if the user does not allow
    /// metrics; it is sent at once, behind those that wait, if it fills the queue;
    /// else it waits.
    pub open spec fn reported(
        self,
        event: Event,
        now: Instant,
        interval_millis: u64,
        after: TelemetryState,
        outcome: ReportOutcome,
    ) -> bool {
        if !self.settings.metrics {
            outcome is Ignored && after == self
        } else if self.is_filled_by_next() {
            &&& self.flushed(after)
            &&& outcome matches ReportOutcome::Flush(pending)
            &&& pending.events_spec() == self.events_queue@.push(self.wrapped(event, now))
        } else {
            &&& self.queued(event, now, interval_millis, after)
            &&& outcome == (ReportOutcome::Queued {
                start_timer_millis: match self.flush_events_task {
                    Some(_) => None,
                    None => Some(interval_millis),
                },
            })
        }
    }

    /// What becomes of the timer when `elapsed` milliseconds have passed: a flush
    /// if that is all the time that was left, else less time is left.
    pub open spec fn timer_advanced(
        self,
        elapsed_millis: u64,
        after: TelemetryState,
        pending: Option<PendingFlush>,
    ) -> bool {
        match self.flush_events_task {
            None => after == self && pending is None,
            Some(task) => if elapsed_millis >= task.remaining_millis {
                &&& self.flushed(after)
                &&& taken(self.events_queue@, pending)
            } else {
                &&& after == (TelemetryState {
                    flush_events_task: Some(
                        FlushTask {
                            remaining_millis: (task.remaining_millis - elapsed_millis) as u64,
                        },
                    ),
                    ..self
                })
                &&& pending is None
            },
        }
    }

    /// The labels of the kinds of projects that changes in a worktree point to;
    /// nothing is looked for if the worktree has been reported.
    pub open spec fn labels_to_report(
        self,
        worktree_id: usize,
        entries: Seq<UpdatedEntry>,
    ) -> Option<Seq<Seq<char>>> {
        if self.worktrees_with_project_type_events_sent@.contains(worktree_id) {
            None
        } else {
            Some(discovered_labels(entries))
        }
    }

    /// `after` is this state with the worktree marked as reported if the changes
    /// in it point to some kind of project.
    pub open spec fn marked(
        self,
        worktree_id: usize,
        entries: Seq<UpdatedEntry>,
        after: TelemetryState,
    ) -> bool {
        let sent = self.worktrees_with_project_type_events_sent@;
        &&& after == (TelemetryState {
            worktrees_with_project_type_events_sent: after.worktrees_with_project_type_events_sent,
            ..self
        })
        &&& after.worktrees_with_project_type_events_sent@ == if !sent.contains(worktree_id)
            && discovered_labels(entries).len() > 0 {
            sent.insert(worktree_id)
        } else {
            sent
        }
    }
}

/// `pending` holds the events of a queue, if there are any.
pub open spec fn taken(queue: Seq<EventWrapper>, pending: Option<PendingFlush>) -> bool {
    match pending {
        Some(pending) => queue.len() > 0 && pending.events_spec() == queue,
        None => queue.len() == 0,
    }
}

/// The labels as the contracts see them.
pub open spec fn labels_view(labels: Option<Vec<String>>) -> Option<Seq<Seq<char>>> {
    match labels {
        Some(labels) => Some(string_views(labels@)),
        None => None,
    }
}

impl Telemetry {
    /// Starts with nothing reported and nobody known.
    pub fn new(environment: Environment) -> (telemetry: Telemetry)
        ensures
            telemetry.state.settings == environment.settings,
            telemetry.state.system_id is None,
            telemetry.state.installation_id is None,
            telemetry.state.session_id is None,
            telemetry.state.metrics_id is None,
            telemetry.state.release_channel == environment.release_channel,
            telemetry.state.architecture == environment.architecture,
            telemetry.state.is_empty_spec(),
            telemetry.state.is_staff is None,
            telemetry.state.max_queue_size == max_queue_len_spec(environment.profile),
            telemetry.state.worktrees_with_project_type_events_sent@ == Set::<usize>::empty(),
            telemetry.state.os_name == environment.os_name,
            telemetry.state.app_version == environment.app_version,
            telemetry.state.os_version is None,
            telemetry.checksum_seed == environment.checksum_seed,
            telemetry.flush_interval_millis == flush_interval_millis_spec(environment.profile),
    {
        let max_queue_size: usize = match environment.profile {
            BuildProfile::Debug => DEBUG_MAX_QUEUE_LEN,
            BuildProfile::Release => RELEASE_MAX_QUEUE_LEN,
        };
        Telemetry {
            state: TelemetryState {
                settings: environment.settings,
                system_id: None,
                installation_id: None,
                session_id: None,
                metrics_id: None,
                release_channel: environment.release_channel,
                architecture: environment.architecture,
                events_queue: Vec::new(),
                flush_events_task: None,
                is_staff: None,
                first_event_date_time: None,
                max_queue_size,
                worktrees_with_project_type_events_sent: HashSet::new(),
                os_name: environment.os_name,
                app_version: environment.app_version,
                os_version: None,
            },
            checksum_seed: environment.checksum_seed,
            flush_interval_millis: flush_interval_millis(environment.profile),
            dotnet_pattern: compile(DOTNET_PROJECT_FILES_PATTERN),
        }
    }

    /// Takes over the settings after the user has changed them.
    pub fn settings_changed(&mut self, settings: TelemetrySettings)
        ensures
            *final(self) == (Telemetry {
                state: old(self).state.with_settings(settings),
                ..*old(self)
            }),
    {
        self.state.settings = settings;
    }

    /// Takes over the version of the operating system. To find it out may take
    /// time, so it is not known at the start.
    pub fn set_os_version(&mut self, os_version: String)
        ensures
            *final(self) == (Telemetry {
                state: old(self).state.with_os_version(os_version),
                ..*old(self)
            }),
    {
        self.state.os_version = Some(os_version);
    }

    /// Whether payloads get a checksum.
    pub fn has_checksum_seed(&self) -> (has: bool)
        ensures
            has == (self.checksum_seed is Some),
    {
        self.checksum_seed.is_some()
    }

    /// Takes over who and what is reporting.
    pub fn start(
        &mut self,
        system_id: Option<String>,
        installation_id: Option<String>,
        session_id: String,
        app_version: String,
        os_name: String,
    )
        ensures
            *final(self) == (Telemetry {
                state: old(self).state.started(
                    system_id,
                    installation_id,
                    session_id,
                    app_version,
                    os_name,
                ),
                ..*old(self)
            }),
    {
        self.state.system_id = system_id;
        self.state.installation_id = installation_id;
        self.state.session_id = Some(session_id);
        self.state.app_version = app_version;
        self.state.os_name = os_name;
    }

    /// Whether the user allows metrics.
    pub fn metrics_enabled(&self) -> (enabled: bool)
        ensures
            enabled == self.state.settings.metrics,
    {
        self.state.settings.metrics
    }

    /// Takes over the user that is logged in, if the user allows metrics.
    pub fn set_authenticated_user_info(&mut self, metrics_id: Option<String>, is_staff: bool)
        ensures
            *final(self) == (Telemetry {
                state: old(self).state.authenticated(metrics_id, is_staff),
                ..*old(self)
            }),
    {
        if !self.state.settings.metrics {
            return;
        }
        self.state.metrics_id = metrics_id;
        self.state.is_staff = Some(is_staff);
    }

    /// The event that reports an exchange with an assistant.
    pub fn report_assistant_event(&self, event: AssistantEventData) -> (report: FlexibleEvent)
        ensures
            report@ == assistant_event_spec(event),
    {
        assistant_event(event)
    }

    /// The event that reports the stretch of editing that an edit brought to an
    /// end, if it did.
    pub fn log_edit_event(&self, period: Option<EditPeriod>, is_via_ssh: bool) -> (report: Option<
        FlexibleEvent,
    >)
        ensures
            match report {
                Some(report) => period is Some && report@ == edit_event_spec(
                    period->0,
                    is_via_ssh,
                ),
                None => period is None,
            },
    {
        match period {
            Some(period) => Some(edit_event(period, is_via_ssh)),
            None => None,
        }
    }

    /// The event that reports the end of the program. A program that was built to
    /// be tested does not report it.
    pub fn shutdown_telemetry(&self, test_support: bool) -> (report: Option<FlexibleEvent>)
        ensures
            match report {
                Some(report) => !test_support && report@ == app_closed_event_spec(),
                None => test_support,
            },
    {
        if test_support {
            None
        } else {
            Some(app_closed_event())
        }
    }

    /// Looks through the changes in a worktree for kinds of projects. A worktree
    /// in which one was found is not looked at again.
    pub fn detect_project_types(
        &mut self,
        worktree_id: usize,
        updated_entries: &Vec<UpdatedEntry>,
    ) -> (labels: Option<Vec<String>>)
        ensures
            *final(self) == (Telemetry { state: final(self).state, ..*old(self) }),
            old(self).state.marked(worktree_id, updated_entries@, final(self).state),
            labels_view(labels) == old(self).state.labels_to_report(worktree_id, updated_entries@),
    {
        if self.state.worktrees_with_project_type_events_sent.contains(&worktree_id) {
            return None;
        }
        let labels = discover_project_types(updated_entries, &self.dotnet_pattern);
        if labels.len() > 0 {
            self.state.worktrees_with_project_type_events_sent.insert(worktree_id);
        }
        Some(labels)
    }

    /// The events that report the kinds of projects in a worktree.
    pub fn report_discovered_project_type_events(
        &mut self,
        worktree_id: usize,
        updated_entries: &Vec<UpdatedEntry>,
    ) -> (reports: Vec<FlexibleEvent>)
        ensures
            *final(self) == (Telemetry { state: final(self).state, ..*old(self) }),
            old(self).state.marked(worktree_id, updated_entries@, final(self).state),
            event_views(reports@) == project_opened_events(
                old(self).state.labels_to_report(worktree_id, updated_entries@),
            ),
    {
        let labels = self.detect_project_types(worktree_id, updated_entries);
        let ghost detected = labels_view(labels);
        let mut reports: Vec<FlexibleEvent> = Vec::new();
        match labels {
            None => {},
            Some(labels) => {
                for i in 0..labels.len()
                    invariant
                        detected == Some(string_views(labels@)),
                        event_views(reports@) == project_opened_events(detected).take(i as int),
                {
                    let ghost before = reports@;
                    let report = project_opened_event(labels[i].clone());
                    reports.push(report);
                    assert(event_views(reports@) == event_views(before).push(report@));
                }
            },
        }
        assert(event_views(reports@) == project_opened_events(detected));
        reports
    }

    /// Reports an event at the time `now`.
    pub fn report_event(&mut self, event: Event, now: Instant) -> (outcome: ReportOutcome)
        ensures
            *final(self) == (Telemetry { state: final(self).state, ..*old(self) }),
            old(self).state.reported(
                event,
                now,
                old(self).flush_interval_millis,
                final(self).state,
                outcome,
            ),
    {
        if !self.state.settings.metrics {
            return ReportOutcome::Ignored;
        }
        let mut start_timer_millis: Option<u64> = None;
        if self.state.flush_events_task.is_none() {
            self.state.flush_events_task = Some(
                FlushTask { remaining_millis: self.flush_interval_millis },
            );
            start_timer_millis = Some(self.flush_interval_millis);
        }
        let milliseconds_since_first_event: i64 = match self.state.first_event_date_time {
            Some(first) => period_millis(first, now),
            None => {
                self.state.first_event_date_time = Some(now);
                0
            },
        };
        let signed_in = self.state.metrics_id.is_some();
        self.state.events_queue.push(
            EventWrapper { signed_in, milliseconds_since_first_event, event },
        );
        if self.state.installation_id.is_some() && self.state.events_queue.len()
            >= self.state.max_queue_size {
            match self.flush_events() {
                Some(pending) => {
                    return ReportOutcome::Flush(pending);
                },
                None => {},
            }
        }
        ReportOutcome::Queued { start_timer_millis }
    }

    /// Takes the events out of the queue to be sent. No flush is due any more,
    /// and the next event will be a first one.
    pub fn flush_events(&mut self) -> (pending: Option<PendingFlush>)
        ensures
            *final(self) == (Telemetry { state: final(self).state, ..*old(self) }),
            old(self).state.flushed(final(self).state),
            taken(old(self).state.events_queue@, pending),
    {
        self.state.first_event_date_time = None;
        let mut events: Vec<EventWrapper> = Vec::new();
        std::mem::swap(&mut self.state.events_queue, &mut events);
        self.state.flush_events_task = None;
        PendingFlush::new(events)
    }

    /// Lets time pass for the flush that is due, and flushes when it is over.
    pub fn advance_flush_timer(&mut self, elapsed_millis: u64) -> (pending: Option<PendingFlush>)
        ensures
            *final(self) == (Telemetry { state: final(self).state, ..*old(self) }),
            old(self).state.timer_advanced(elapsed_millis, final(self).state, pending),
    {
        match self.state.flush_events_task {
            None => None,
            Some(task) => if elapsed_millis >= task.remaining_millis {
                self.flush_events()
            } else {
                self.state.flush_events_task = Some(
                    FlushTask { remaining_millis: task.remaining_millis - elapsed_millis },
                );
                None
            },
        }
    }

    /// The user that is logged in.
    pub fn metrics_id(&self) -> (id: Option<String>)
        ensures
            id == self.state.metrics_id,
    {
        self.state.metrics_id.clone()
    }

    /// The system that reports.
    pub fn system_id(&self) -> (id: Option<String>)
        ensures
            id == self.state.system_id,
    {
        self.state.system_id.clone()
    }

    /// The installation that reports.
    pub fn installation_id(&self) -> (id: Option<String>)
        ensures
            id == self.state.installation_id,
    {
        self.state.installation_id.clone()
    }

    /// Whether the user that is logged in is on the staff, if that is known.
    pub fn is_staff(&self) -> (is_staff: Option<bool>)
        ensures
            is_staff == self.state.is_staff,
    {
        self.state.is_staff
    }

    /// The body of a request that delivers `events`, with what is known now.
    pub open spec fn request_body_spec(self, events: Vec<EventWrapper>) -> EventRequestBody {
        EventRequestBody {
            system_id: self.state.system_id,
            installation_id: self.state.installation_id,
            session_id: self.state.session_id,
            metrics_id: self.state.metrics_id,
            is_staff: self.state.is_staff,
            app_version: self.state.app_version,
            os_name: self.state.os_name,
            os_version: self.state.os_version,
            architecture: self.state.architecture,
            release_channel: self.state.release_channel,
            events,
        }
    }

    /// Puts together the body of a request that delivers `events`.
    pub fn request_body(&self, events: Vec<EventWrapper>) -> (body: EventRequestBody)
        ensures
            body == self.request_body_spec(events),
    {
        EventRequestBody {
            system_id: self.state.system_id.clone(),
            installation_id: self.state.installation_id.clone(),
            session_id: self.state.session_id.clone(),
            metrics_id: self.state.metrics_id.clone(),
            is_staff: self.state.is_staff,
            app_version: self.state.app_version.clone(),
            os_name: self.state.os_name.clone(),
            os_version: self.state.os_version.clone(),
            architecture: self.state.architecture.clone(),
            release_channel: self.state.release_channel.clone(),
            events,
        }
    }

    /// The request that delivers a body that was written as JSON.
    pub fn build_request(&self, json: Option<Vec<u8>>, uri: Option<String>) -> (request: Result<
        HttpRequest,
        BuildRequestError,
    >)
        ensures
            match request {
                Ok(request) => json is Some && uri is Some && request@ == request_spec(
                    seed_view(self.checksum_seed),
                    json->0@,
                    uri->0@,
                ),
                Err(BuildRequestError::Serialization) => json is None,
                Err(BuildRequestError::Uri) => json is Some && uri is None,
            },
    {
        build_request(&self.checksum_seed, json, uri)
    }
}

/// What a list of events stands for.
pub open spec fn event_views(events: Seq<FlexibleEvent>) -> Seq<FlexibleEventView> {
    events.map_values(|event: FlexibleEvent| event@)
}

/// One event for each kind of project that was found.
pub open spec fn project_opened_events(labels: Option<Seq<Seq<char>>>) -> Seq<FlexibleEventView> {
    match labels {
        Some(labels) => labels.map_values(|label: Seq<char>| project_opened_event_spec(label)),
        None => seq![],
    }
}

/// Without the user's consent a report changes nothing and leads to nothing.
pub proof fn report_without_consent_is_ignored(
    before: TelemetryState,
    event: Event,
    now: Instant,
    interval_millis: u64,
    after: TelemetryState,
    outcome: ReportOutcome,
)
    requires
        before.reported(event, now, interval_millis, after, outcome),
        !before.settings.metrics,
    ensures
        after == before,
        outcome is Ignored,
{
}

/// A report keeps the state consistent: events wait exactly while a flush is due
/// and there is a first event.
pub proof fn report_keeps_consistency(
    before: TelemetryState,
    event: Event,
    now: Instant,
    interval_millis: u64,
    after: TelemetryState,
    outcome: ReportOutcome,
)
    requires
        before.is_consistent(),
        before.reported(event, now, interval_millis, after, outcome),
    ensures
        after.is_consistent(),
{
}

/// The passing of time keeps the state consistent.
pub proof fn timer_keeps_consistency(
    before: TelemetryState,
    elapsed_millis: u64,
    after: TelemetryState,
    pending: Option<PendingFlush>,
)
    requires
        before.is_consistent(),
        before.timer_advanced(elapsed_millis, after, pending),
    ensures
        after.is_consistent(),
{
}

/// A flush leaves nothing behind: no event, no flush that is due and no first
/// event.
pub proof fn flush_empties_state(before: TelemetryState, after: TelemetryState)
    requires
        before.flushed(after),
    ensures
        after.is_empty_spec(),
        after.is_consistent(),
{
}

/// No allowed report is lost: the event is last in the queue, or last among the
/// events that are sent, behind those that waited before it.
pub proof fn report_loses_nothing(
    before: TelemetryState,
    event: Event,
    now: Instant,
    interval_millis: u64,
    after: TelemetryState,
    outcome: ReportOutcome,
)
    requires
        before.settings.metrics,
        before.reported(event, now, interval_millis, after, outcome),
    ensures
        (match outcome {
            ReportOutcome::Flush(pending) => pending.events_spec(),
            _ => Seq::<EventWrapper>::empty(),
        }) + after.events_queue@ == before.events_queue@.push(before.wrapped(event, now)),
{
    let all = before.events_queue@.push(before.wrapped(event, now));
    assert(Seq::<EventWrapper>::empty() + all == all);
    assert(all + Seq::<EventWrapper>::empty() == all);
}

/// Once the installation is known, a report fills the queue at most: where it
/// does, the events are sent and the queue is empty.
pub proof fn queue_stays_below_limit(
    before: TelemetryState,
    event: Event,
    now: Instant,
    interval_millis: u64,
    after: TelemetryState,
    outcome: ReportOutcome,
)
    requires
        before.settings.metrics,
        before.installation_id is Some,
        before.max_queue_size > 0,
        before.reported(event, now, interval_millis, after, outcome),
    ensures
        after.events_queue@.len() < after.max_queue_size,
        outcome is Flush <==> before.events_queue@.len() + 1 >= before.max_queue_size,
        outcome is Flush ==> after.is_empty_spec(),
{
}

/// Before the installation is known no number of events leads to a flush.
pub proof fn unknown_installation_never_fills_queue(
    before: TelemetryState,
    event: Event,
    now: Instant,
    interval_millis: u64,
    after: TelemetryState,
    outcome: ReportOutcome,
)
    requires
        before.installation_id is None,
        before.reported(event, now, interval_millis, after, outcome),
    ensures
        !(outcome is Flush),
{
}

/// The first event that waits is reported at no time after itself, and every
/// other one at its distance from the first, a day at most.
pub proof fn times_count_from_first_event(before: TelemetryState, event: Event, now: Instant)
    requires
        before.is_consistent(),
    ensures
        before.events_queue@.len() == 0 ==> before.wrapped(
            event,
            now,
        ).milliseconds_since_first_event == 0,
        before.events_queue@.len() > 0 ==> before.wrapped(event, now).milliseconds_since_first_event
            == period_millis_spec(before.first_event_date_time->0, now),
        0 <= before.wrapped(event, now).milliseconds_since_first_event <= 86_400_000,
{
}

/// A flush is due after the whole interval, in however many parts it passes.
pub proof fn timer_adds_up(
    before: TelemetryState,
    first_millis: u64,
    between: TelemetryState,
    second_millis: u64,
    after: TelemetryState,
    pending: Option<PendingFlush>,
)
    requires
        first_millis + second_millis <= u64::MAX,
        before.flush_events_task matches Some(task) ==> first_millis < task.remaining_millis,
        before.timer_advanced(first_millis, between, None),
        between.timer_advanced(second_millis, after, pending),
    ensures
        before.timer_advanced((first_millis + second_millis) as u64, after, pending),
{
}

/// An event that starts the timer is sent when the interval has passed, and not
/// a millisecond earlier.
pub proof fn interval_bounds_waiting(
    before: TelemetryState,
    event: Event,
    now: Instant,
    interval_millis: u64,
    queued: TelemetryState,
    elapsed_millis: u64,
    after: TelemetryState,
    pending: Option<PendingFlush>,
)
    requires
        before.flush_events_task is None,
        before.queued(event, now, interval_millis, queued),
        queued.timer_advanced(elapsed_millis, after, pending),
    ensures
        pending is Some <==> elapsed_millis >= interval_millis,
        pending matches Some(pending) ==> pending.events_spec() == queued.events_queue@,
        pending is Some ==> after.is_empty_spec(),
        pending is None ==> after.events_queue@ == queued.events_queue@,
{
}

/// A worktree in which a kind of project was found is not reported a second time,
/// whatever changes in it.
pub proof fn worktree_is_reported_once(
    before: TelemetryState,
    worktree_id: usize,
    entries: Seq<UpdatedEntry>,
    after: TelemetryState,
    later_entries: Seq<UpdatedEntry>,
)
    requires
        before.marked(worktree_id, entries, after),
        before.labels_to_report(worktree_id, entries) matches Some(labels) && labels.len() > 0,
    ensures
        after.labels_to_report(worktree_id, later_entries) is None,
        project_opened_events(after.labels_to_report(worktree_id, later_entries)).len() == 0,
{
}

/// Where nothing was found the worktree stays open, and later changes in it are
/// looked at as if it had not been looked at before.
pub proof fn empty_worktree_stays_open(
    before: TelemetryState,
    worktree_id: usize,
    entries: Seq<UpdatedEntry>,
    after: TelemetryState,
    later_entries: Seq<UpdatedEntry>,
)
    requires
        before.marked(worktree_id, entries, after),
        before.labels_to_report(worktree_id, entries) matches Some(labels) && labels.len() == 0,
    ensures
        after.labels_to_report(worktree_id, later_entries) == Some(
            discovered_labels(later_entries),
        ),
{
}

/// What is found in one worktree does not matter to another one.
pub proof fn worktrees_are_independent(
    before: TelemetryState,
    worktree_id: usize,
    entries: Seq<UpdatedEntry>,
    after: TelemetryState,
    other_id: usize,
    other_entries: Seq<UpdatedEntry>,
)
    requires
        other_id != worktree_id,
        before.marked(worktree_id, entries, after),
    ensures
        after.labels_to_report(other_id, other_entries) == before.labels_to_report(
            other_id,
            other_entries,
        ),
{
}

/// Reports, flushes and the passing of time leave the worktrees that have been
/// reported as they are.
pub proof fn reported_worktrees_are_kept(
    before: TelemetryState,
    event: Event,
    now: Instant,
    interval_millis: u64,
    elapsed_millis: u64,
    after: TelemetryState,
    outcome: ReportOutcome,
    pending: Option<PendingFlush>,
)
    requires
        before.reported(event, now, interval_millis, after, outcome) || before.flushed(after)
            || before.timer_advanced(elapsed_millis, after, pending),
    ensures
        after.worktrees_with_project_type_events_sent
            == before.worktrees_with_project_type_events_sent,
{
}

/// Whatever is learnt about the user, the system, the installation or a worktree, the events
/// that wait, the flush that is due and the first event stay as they are.
pub proof fn waiting_events_are_kept(
    before: TelemetryState,
    settings: TelemetrySettings,
    os_version: String,
    ids: (Option<String>, Option<String>, String),
    names: (String, String),
    user: (Option<String>, bool),
    worktree_id: usize,
    entries: Seq<UpdatedEntry>,
    after: TelemetryState,
)
    requires
        ({
            ||| after == before.with_settings(settings)
            ||| after == before.with_os_version(os_version)
            ||| after == before.started(ids.0, ids.1, ids.2, names.0, names.1)
            ||| after == before.authenticated(user.0, user.1)
            ||| before.marked(worktree_id, entries, after)
        }),
    ensures
        after.events_queue == before.events_queue,
        after.flush_events_task == before.flush_events_task,
        after.first_event_date_time == before.first_event_date_time,
        before.is_consistent() ==> after.is_consistent(),
{
}

/// With consent, an event counts as reported by a user exactly while one is
/// logged in.
pub proof fn login_signs_events(
    before: TelemetryState,
    metrics_id: Option<String>,
    is_staff: bool,
    event: Event,
    now: Instant,
)
    requires
        before.settings.metrics,
    ensures
        before.authenticated(metrics_id, is_staff).wrapped(event, now).signed_in == (
        metrics_id is Some),
        before.authenticated(metrics_id, is_staff).is_staff == Some(is_staff),
{
}

/// Without consent nothing is taken over about the user.
pub proof fn login_without_consent_is_ignored(
    before: TelemetryState,
    metrics_id: Option<String>,
    is_staff: bool,
)
    requires
        !before.settings.metrics,
    ensures
        before.authenticated(metrics_id, is_staff) == before,
{
}

/// Whether a body says of the user that is logged in what it is given here.
pub open spec fn says_of_user(
    body: EventRequestBody,
    metrics_id: Option<String>,
    is_staff: Option<bool>,
) -> bool {
    &&& body.metrics_id == metrics_id
    &&& body.is_staff == is_staff
}

/// Whether a body says of the installation what it is given here.
pub open spec fn says_of_installation(
    body: EventRequestBody,
    system_id: Option<String>,
    installation_id: Option<String>,
    session_id: Option<String>,
    app_version: String,
    os_name: String,
) -> bool {
    &&& body.system_id == system_id
    &&& body.installation_id == installation_id
    &&& body.session_id == session_id
    &&& body.app_version == app_version
    &&& body.os_name == os_name
}

/// Whether two bodies say the same of the installation and of what it runs on.
pub open spec fn say_the_same_of_installation(
    left: EventRequestBody,
    right: EventRequestBody,
) -> bool {
    &&& says_of_installation(
        left,
        right.system_id,
        right.installation_id,
        right.session_id,
        right.app_version,
        right.os_name,
    )
    &&& left.os_version == right.os_version
    &&& left.architecture == right.architecture
    &&& left.release_channel == right.release_channel
}

/// Before anything is learnt, a body says what the environment gave, and that
/// nothing else is known. It carries the events that it was asked to carry.
pub proof fn body_begins_with_environment(
    environment: Environment,
    telemetry: Telemetry,
    events: Vec<EventWrapper>,
    body: EventRequestBody,
)
    requires
        call_ensures(Telemetry::new, (environment,), telemetry),
        call_ensures(Telemetry::request_body, (&telemetry, events), body),
    ensures
        says_of_user(body, None, None),
        says_of_installation(
            body,
            None,
            None,
            None,
            environment.app_version,
            environment.os_name,
        ),
        body.os_version is None,
        body.architecture == environment.architecture,
        body.release_channel == environment.release_channel,
        body.events == events,
{
}

/// What telemetry begins with besides: nothing waits, no worktree was reported, and
/// the settings, the seed and the limits are those of the environment. In a debug
/// build five events may wait, for a second; in a release build fifty, for five
/// minutes.
pub proof fn telemetry_begins_empty(
    environment: Environment,
    telemetry: Telemetry,
    interval_millis: u64,
)
    requires
        call_ensures(Telemetry::new, (environment,), telemetry),
        call_ensures(flush_interval_millis, (environment.profile,), interval_millis),
    ensures
        telemetry.state.is_empty_spec(),
        telemetry.state.settings == environment.settings,
        telemetry.checksum_seed == environment.checksum_seed,
        forall|worktree_id: usize|
            !(#[trigger] telemetry.state.worktrees_with_project_type_events_sent@.contains(
                worktree_id,
            )),
        telemetry.flush_interval_millis == interval_millis,
        environment.profile == BuildProfile::Debug ==> telemetry.state.max_queue_size == 5
            && interval_millis == 1_000,
        environment.profile == BuildProfile::Release ==> telemetry.state.max_queue_size == 50
            && interval_millis == 300_000,
{
}

/// With consent, the next body names the user that logged in, and says whether they
/// are on the staff, as it was said at the login. Without consent it says what it
/// would have said before. It says the same as before of everything else.
pub proof fn login_reaches_body(
    telemetry: &mut Telemetry,
    metrics_id: Option<String>,
    is_staff: bool,
    events: Vec<EventWrapper>,
    body_before: EventRequestBody,
    body_after: EventRequestBody,
)
    requires
        call_ensures(
            Telemetry::set_authenticated_user_info,
            (telemetry, metrics_id, is_staff),
            (),
        ),
        call_ensures(Telemetry::request_body, (&*old(telemetry), events), body_before),
        call_ensures(Telemetry::request_body, (&*final(telemetry), events), body_after),
    ensures
        old(telemetry).state.settings.metrics ==> says_of_user(
            body_after,
            metrics_id,
            Some(is_staff),
        ),
        !old(telemetry).state.settings.metrics ==> says_of_user(
            body_after,
            body_before.metrics_id,
            body_before.is_staff,
        ),
        say_the_same_of_installation(body_after, body_before),
        body_after.events == events,
{
}

/// After the start the next body carries the identifiers, the version of the program
/// and the name of the system that were given. It says the same as before of
/// everything else.
pub proof fn start_reaches_body(
    telemetry: &mut Telemetry,
    system_id: Option<String>,
    installation_id: Option<String>,
    session_id: String,
    app_version: String,
    os_name: String,
    events: Vec<EventWrapper>,
    body_before: EventRequestBody,
    body_after: EventRequestBody,
)
    requires
        call_ensures(
            Telemetry::start,
            (telemetry, system_id, installation_id, session_id, app_version, os_name),
            (),
        ),
        call_ensures(Telemetry::request_body, (&*old(telemetry), events), body_before),
        call_ensures(Telemetry::request_body, (&*final(telemetry), events), body_after),
    ensures
        says_of_installation(
            body_after,
            system_id,
            installation_id,
            Some(session_id),
            app_version,
            os_name,
        ),
        says_of_user(body_after, body_before.metrics_id, body_before.is_staff),
        body_after.os_version == body_before.os_version,
        body_after.architecture == body_before.architecture,
        body_after.release_channel == body_before.release_channel,
        body_after.events == events,
{
}

/// The version of the operating system is in the next body as soon as it is known.
/// The body says the same as before of everything else.
pub proof fn os_version_reaches_body(
    telemetry: &mut Telemetry,
    os_version: String,
    events: Vec<EventWrapper>,
    body_before: EventRequestBody,
    body_after: EventRequestBody,
)
    requires
        call_ensures(Telemetry::set_os_version, (telemetry, os_version), ()),
        call_ensures(Telemetry::request_body, (&*old(telemetry), events), body_before),
        call_ensures(Telemetry::request_body, (&*final(telemetry), events), body_after),
    ensures
        body_after.os_version == Some(os_version),
        says_of_user(body_after, body_before.metrics_id, body_before.is_staff),
        says_of_installation(
            body_after,
            body_before.system_id,
            body_before.installation_id,
            body_before.session_id,
            body_before.app_version,
            body_before.os_name,
        ),
        body_after.architecture == body_before.architecture,
        body_after.release_channel == body_before.release_channel,
        body_after.events == events,
{
}

/// What can be asked of telemetry is what it would say in a body, whether the user
/// allows metrics, and whether payloads get a checksum.
pub proof fn answers_agree_with_body(
    telemetry: Telemetry,
    events: Vec<EventWrapper>,
    body: EventRequestBody,
    ids: (Option<String>, Option<String>, Option<String>),
    is_staff: Option<bool>,
    enabled: bool,
    has_seed: bool,
)
    requires
        call_ensures(Telemetry::request_body, (&telemetry, events), body),
        call_ensures(Telemetry::metrics_id, (&telemetry,), ids.0),
        call_ensures(Telemetry::system_id, (&telemetry,), ids.1),
        call_ensures(Telemetry::installation_id, (&telemetry,), ids.2),
        call_ensures(Telemetry::is_staff, (&telemetry,), is_staff),
        call_ensures(Telemetry::metrics_enabled, (&telemetry,), enabled),
        call_ensures(Telemetry::has_checksum_seed, (&telemetry,), has_seed),
    ensures
        ids.0 == body.metrics_id,
        ids.1 == body.system_id,
        ids.2 == body.installation_id,
        is_staff == body.is_staff,
        enabled == telemetry.state.settings.metrics,
        has_seed <==> telemetry.checksum_seed is Some,
{
}

/// A body says what is known, each thing for itself.
pub proof fn body_says_what_is_known(
    telemetry: Telemetry,
    events: Vec<EventWrapper>,
    body: EventRequestBody,
)
    requires
        call_ensures(Telemetry::request_body, (&telemetry, events), body),
    ensures
        says_of_user(body, telemetry.state.metrics_id, telemetry.state.is_staff),
        says_of_installation(
            body,
            telemetry.state.system_id,
            telemetry.state.installation_id,
            telemetry.state.session_id,
            telemetry.state.app_version,
            telemetry.state.os_name,
        ),
        body.os_version == telemetry.state.os_version,
        body.architecture == telemetry.state.architecture,
        body.release_channel == telemetry.state.release_channel,
        body.events == events,
{
}

/// The body that a flush ends up with says the same as one that is put together at
/// this moment.
pub proof fn flush_delivers_what_is_known(
    telemetry: Telemetry,
    pending: PendingFlush,
    log: LogStep,
    begun: FlushStep,
    went_on: FlushStep,
)
    requires
        call_ensures(PendingFlush::begin, (pending, &telemetry, false), begun),
        call_ensures(LogStep::logged, (log, &telemetry, true), went_on),
    ensures
        begun matches FlushStep::SerializeBody(body) && is_body_of(telemetry, body),
        went_on matches FlushStep::SerializeBody(body) ==> is_body_of(telemetry, body),
{
}

/// Whether a body says what is known, apart from the events that it carries.
pub open spec fn is_body_of(telemetry: Telemetry, body: EventRequestBody) -> bool {
    &&& says_of_user(body, telemetry.state.metrics_id, telemetry.state.is_staff)
    &&& says_of_installation(
        body,
        telemetry.state.system_id,
        telemetry.state.installation_id,
        telemetry.state.session_id,
        telemetry.state.app_version,
        telemetry.state.os_name,
    )
    &&& body.os_version == telemetry.state.os_version
    &&& body.architecture == telemetry.state.architecture
    &&& body.release_channel == telemetry.state.release_channel
}

/// An exchange with an assistant, and a stretch of editing that came to an end, are
/// reported with all that is known of them. An edit that ends no stretch is not
/// reported, and the end of the program only where it was not built to be tested.
pub proof fn events_are_made_as_described(
    telemetry: Telemetry,
    data: AssistantEventData,
    exchange: FlexibleEvent,
    period: Option<EditPeriod>,
    is_via_ssh: bool,
    edit: Option<FlexibleEvent>,
    test_support: bool,
    closed: Option<FlexibleEvent>,
)
    requires
        call_ensures(Telemetry::report_assistant_event, (&telemetry, data), exchange),
        call_ensures(Telemetry::log_edit_event, (&telemetry, period, is_via_ssh), edit),
        call_ensures(Telemetry::shutdown_telemetry, (&telemetry, test_support), closed),
    ensures
        is_report_of_exchange(exchange@, data),
        edit is Some <==> period is Some,
        edit is Some ==> is_report_of_stretch(edit->0@, period->0, is_via_ssh),
        closed is Some <==> !test_support,
        closed is Some ==> closed->0@.event_type == "App Closed"@
            && closed->0@.event_properties.dom().len() == 0,
{
    assistant_event_carries_all(data);
    if period is Some {
        edit_event_carries_all(period->0, is_via_ssh);
        period_is_counted(period->0.start, period->0.end);
    }
}

/// Looking through a worktree that was reported gives nothing and changes nothing.
/// Any other one gives the labels of what is there, and counts as reported from then
/// on if there are any. Other worktrees and all else stay as they are.
pub proof fn worktree_is_looked_through(
    telemetry: &mut Telemetry,
    worktree_id: usize,
    entries: Vec<UpdatedEntry>,
    labels: Option<Vec<String>>,
    discovered: Vec<String>,
    other_id: usize,
)
    requires
        call_ensures(Telemetry::detect_project_types, (telemetry, worktree_id, &entries), labels),
        call_ensures(
            discover_project_types,
            (&entries, &old(telemetry).dotnet_pattern),
            discovered,
        ),
    ensures
        labels is Some ==> labels->0@.len() == discovered@.len(),
        labels is Some ==> forall|i: int|
            0 <= i < discovered@.len() ==> (#[trigger] labels->0@[i])@ == discovered@[i]@,
        labels is None <==>
            old(telemetry).state.worktrees_with_project_type_events_sent@.contains(worktree_id),
        labels matches Some(labels) ==> {
            &&& has_label(labels@, "node"@) <==> some_entry_is(
                entries@,
                |name: Seq<char>| name == "package.json"@,
            )
            &&& has_label(labels@, "pnpm"@) <==> some_entry_is(
                entries@,
                |name: Seq<char>| name == "pnpm-lock.yaml"@,
            )
            &&& has_label(labels@, "yarn"@) <==> some_entry_is(
                entries@,
                |name: Seq<char>| name == "yarn.lock"@,
            )
            &&& has_label(labels@, "dotnet"@) <==> some_entry_is(
                entries@,
                |name: Seq<char>| belongs_to_dotnet(name),
            )
        },
        final(telemetry).state.worktrees_with_project_type_events_sent@.contains(worktree_id)
            <==> labels is None || labels->0@.len() > 0,
        other_id != worktree_id ==> (
        final(telemetry).state.worktrees_with_project_type_events_sent@.contains(other_id)
            <==> old(telemetry).state.worktrees_with_project_type_events_sent@.contains(other_id)),
{
    if labels is Some {
        labels_tell_what_entries_are(entries@, labels->0@);
        assert(string_views(labels->0@).len() == labels->0@.len());
        assert(string_views(discovered@).len() == discovered@.len());
        assert forall|i: int| 0 <= i < discovered@.len() implies (#[trigger] labels->0@[i])@
            == discovered@[i]@ by {
            assert(string_views(labels->0@)[i] == labels->0@[i]@);
            assert(string_views(discovered@)[i] == discovered@[i]@);
        }
    }
}

/// The kinds of projects in a worktree are reported by one event for each label that
/// looking through it gives, in the same order, and by none if it gives none.
pub proof fn labels_are_reported_one_by_one(
    looking: &mut Telemetry,
    reporting: &mut Telemetry,
    worktree_id: usize,
    entries: Vec<UpdatedEntry>,
    labels: Option<Vec<String>>,
    reports: Vec<FlexibleEvent>,
)
    requires
        *old(looking) == *old(reporting),
        call_ensures(Telemetry::detect_project_types, (looking, worktree_id, &entries), labels),
        call_ensures(
            Telemetry::report_discovered_project_type_events,
            (reporting, worktree_id, &entries),
            reports,
        ),
    ensures
        final(looking).state.worktrees_with_project_type_events_sent@
            == final(reporting).state.worktrees_with_project_type_events_sent@,
        labels is None ==> reports@.len() == 0,
        labels is Some ==> reports@.len() == labels->0@.len(),
        forall|i: int|
            #![trigger reports@[i]]
            0 <= i < reports@.len() ==> {
                &&& reports@[i]@.event_type == "Project Opened"@
                &&& has_property(
                    reports@[i]@,
                    "project_type"@,
                    PropertyValueView::Text(labels->0@[i]@),
                )
                &&& reports@[i]@.event_properties.dom().len() == 1
            },
{
    assert(event_views(reports@).len() == reports@.len());
    if labels is Some {
        assert(string_views(labels->0@).len() == labels->0@.len());
    }
    assert forall|i: int| #![trigger reports@[i]] 0 <= i < reports@.len() implies {
        &&& reports@[i]@.event_type == "Project Opened"@
        &&& has_property(
            reports@[i]@,
            "project_type"@,
            PropertyValueView::Text(labels->0@[i]@),
        )
        &&& reports@[i]@.event_properties.dom().len() == 1
    } by {
        assert(event_views(reports@)[i] == reports@[i]@);
        assert(string_views(labels->0@)[i] == labels->0@[i]@);
    }
}

/// Once the installation is known, an allowed report sends the queue exactly if the
/// event is the one that fills it, whatever the limit is.
pub proof fn full_queue_is_sent(
    telemetry: &mut Telemetry,
    event: Event,
    now: Instant,
    outcome: ReportOutcome,
)
    requires
        call_ensures(Telemetry::report_event, (telemetry, event, now), outcome),
    ensures
        outcome is Ignored <==> !old(telemetry).state.settings.metrics,
        outcome is Flush <==> {
            &&& old(telemetry).state.settings.metrics
            &&& old(telemetry).state.installation_id is Some
            &&& old(telemetry).state.events_queue@.len() + 1 >= old(
                telemetry,
            ).state.max_queue_size
        },
        outcome is Ignored ==> *final(telemetry) == *old(telemetry),
        outcome is Queued ==> {
            let queue = final(telemetry).state.events_queue@;
            &&& queue.len() == old(telemetry).state.events_queue@.len() + 1
            &&& queue.drop_last() == old(telemetry).state.events_queue@
            &&& queue.last().event == event
            &&& queue.last().signed_in <==> old(telemetry).state.metrics_id is Some
        },
        outcome matches ReportOutcome::Flush(pending) ==> {
            let sent = pending.events_spec();
            &&& sent.len() == old(telemetry).state.events_queue@.len() + 1
            &&& sent.drop_last() == old(telemetry).state.events_queue@
            &&& sent.last().event == event
            &&& sent.last().signed_in <==> old(telemetry).state.metrics_id is Some
            &&& final(telemetry).state.is_empty_spec()
        },
{
}

} // verus!
