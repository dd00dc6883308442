//! What holds over any course of reports, flushes, passing time and news about the
//! user, the installation and the worktrees.

use crate::event::{Event, EventWrapper, FlexibleEvent};
use crate::flush::PendingFlush;
use crate::project_types::{discovered_labels, UpdatedEntry};
use crate::telemetry::{
    labels_view, taken, ReportOutcome, Telemetry, TelemetrySettings, TelemetryState,
};
use crate::time::{is_period_millis, period_is_bounded, period_is_counted, Instant};
use vstd::prelude::*;

verus! {

/// A call that can change the state, with what it led to.
pub enum Operation {
    ChangeSettings { settings: TelemetrySettings },
    SetOsVersion { os_version: String },
    Start {
        system_id: Option<String>,
        installation_id: Option<String>,
        session_id: String,
        app_version: String,
        os_name: String,
    },
    Authenticate { metrics_id: Option<String>, is_staff: bool },
    /// A worktree is looked through. There are no labels if it is not looked at.
    Detect {
        worktree_id: usize,
        entries: Seq<UpdatedEntry>,
        labels: Option<Seq<Seq<char>>>,
    },
    Report { event: Event, now: Instant, outcome: ReportOutcome },
    Advance { elapsed_millis: u64, pending: Option<PendingFlush> },
    Flush { pending: Option<PendingFlush> },
}

impl Operation {
    /// Whether this operation leads from `before` to `after`.
    pub open spec fn leads(
        self,
        before: TelemetryState,
        interval_millis: u64,
        after: TelemetryState,
    ) -> bool {
        match self {
            Operation::ChangeSettings { settings } => after == before.with_settings(settings),
            Operation::SetOsVersion { os_version } => after == before.with_os_version(os_version),
            Operation::Start { system_id, installation_id, session_id, app_version, os_name } => {
                after == before.started(
                    system_id,
                    installation_id,
                    session_id,
                    app_version,
                    os_name,
                )
            },
            Operation::Authenticate { metrics_id, is_staff } => after == before.authenticated(
                metrics_id,
                is_staff,
            ),
            Operation::Detect { worktree_id, entries, labels } => {
                &&& before.marked(worktree_id, entries, after)
                &&& labels == before.labels_to_report(worktree_id, entries)
            },
            Operation::Report { event, now, outcome } => before.reported(
                event,
                now,
                interval_millis,
                after,
                outcome,
            ),
            Operation::Advance { elapsed_millis, pending } => before.timer_advanced(
                elapsed_millis,
                after,
                pending,
            ),
            Operation::Flush { pending } => before.flushed(after) && taken(
                before.events_queue@,
                pending,
            ),
        }
    }

    /// The event that this operation adds to `before`, if the user allows it.
    pub open spec fn accepted(self, before: TelemetryState) -> Seq<EventWrapper> {
        match self {
            Operation::Report { event, now, .. } => if before.settings.metrics {
                seq![before.wrapped(event, now)]
            } else {
                seq![]
            },
            _ => seq![],
        }
    }

    /// The events that this operation takes out to be sent.
    pub open spec fn sent(self) -> Seq<EventWrapper> {
        match self {
            Operation::Report { outcome: ReportOutcome::Flush(pending), .. } => {
                pending.events_spec()
            },
            Operation::Advance { pending: Some(pending), .. } => pending.events_spec(),
            Operation::Flush { pending: Some(pending) } => pending.events_spec(),
            _ => seq![],
        }
    }
}

/// Whether the operations lead through the states, one after the other.
pub open spec fn is_history(
    states: Seq<TelemetryState>,
    operations: Seq<Operation>,
    interval_millis: u64,
) -> bool {
    &&& states.len() == operations.len() + 1
    &&& forall|i: int|
        0 <= i < operations.len() ==> (#[trigger] operations[i]).leads(
            states[i],
            interval_millis,
            states[i + 1],
        )
}

/// All events that the first operations accept, in order.
pub open spec fn all_accepted(
    states: Seq<TelemetryState>,
    operations: Seq<Operation>,
    count: int,
) -> Seq<EventWrapper>
    decreases count,
{
    if count <= 0 {
        seq![]
    } else {
        all_accepted(states, operations, count - 1) + operations[count - 1].accepted(
            states[count - 1],
        )
    }
}

/// All events that the first operations take out to be sent, in order.
pub open spec fn all_sent(operations: Seq<Operation>, count: int) -> Seq<EventWrapper>
    decreases count,
{
    if count <= 0 {
        seq![]
    } else {
        all_sent(operations, count - 1) + operations[count - 1].sent()
    }
}

/// One operation neither loses nor repeats nor reorders an event.
proof fn lemma_operation_keeps_events(
    operation: Operation,
    before: TelemetryState,
    interval_millis: u64,
    after: TelemetryState,
)
    requires
        operation.leads(before, interval_millis, after),
    ensures
        operation.sent() + after.events_queue@ == before.events_queue@ + operation.accepted(before),
{
    let kept = operation.sent() + after.events_queue@;
    let had = before.events_queue@ + operation.accepted(before);
    assert(kept =~= had);
}

/// Over any history that begins with nothing waiting, the events that were
/// accepted are those that were sent, followed by those that still wait: none is
/// lost, none is sent twice, and they keep their order.
pub proof fn every_event_is_sent_once(
    states: Seq<TelemetryState>,
    operations: Seq<Operation>,
    interval_millis: u64,
)
    requires
        is_history(states, operations, interval_millis),
        states[0].events_queue@.len() == 0,
    ensures
        all_accepted(states, operations, operations.len() as int) == all_sent(
            operations,
            operations.len() as int,
        ) + states.last().events_queue@,
{
    lemma_events_so_far(states, operations, interval_millis, operations.len() as int);
}

proof fn lemma_events_so_far(
    states: Seq<TelemetryState>,
    operations: Seq<Operation>,
    interval_millis: u64,
    count: int,
)
    requires
        is_history(states, operations, interval_millis),
        states[0].events_queue@.len() == 0,
        0 <= count <= operations.len(),
    ensures
        all_accepted(states, operations, count) == all_sent(operations, count)
            + states[count].events_queue@,
    decreases count,
{
    if count > 0 {
        let last = operations[count - 1];
        let before = states[count - 1];
        let sent = all_sent(operations, count - 1);
        lemma_events_so_far(states, operations, interval_millis, count - 1);
        lemma_operation_keeps_events(last, before, interval_millis, states[count]);
        assert(sent + before.events_queue@ + last.accepted(before) == sent + (before.events_queue@
            + last.accepted(before)));
        assert(sent + (last.sent() + states[count].events_queue@) == sent + last.sent()
            + states[count].events_queue@);
    } else {
        assert(all_accepted(states, operations, 0) == all_sent(operations, 0)
            + states[0].events_queue@);
    }
}

/// In every history that begins consistently, events wait exactly while a flush
/// is due and there is a first event.
pub proof fn history_is_consistent(
    states: Seq<TelemetryState>,
    operations: Seq<Operation>,
    interval_millis: u64,
    count: int,
)
    requires
        is_history(states, operations, interval_millis),
        states[0].is_consistent(),
        0 <= count < states.len(),
    ensures
        states[count].is_consistent(),
    decreases count,
{
    if count > 0 {
        history_is_consistent(states, operations, interval_millis, count - 1);
        assert(operations[count - 1].leads(states[count - 1], interval_millis, states[count]));
    }
}

/// Whether the first of some events, if there is one, is at no time after itself.
pub open spec fn begins_at_zero(events: Seq<EventWrapper>) -> bool {
    events.len() > 0 ==> events[0].milliseconds_since_first_event == 0
}

/// In every history that begins with nothing waiting, the first event of each
/// batch that is sent has the time zero, and so has the first event of those that
/// wait.
pub proof fn batches_begin_at_zero(
    states: Seq<TelemetryState>,
    operations: Seq<Operation>,
    interval_millis: u64,
    count: int,
)
    requires
        is_history(states, operations, interval_millis),
        states[0].is_empty_spec(),
        0 <= count < states.len(),
    ensures
        begins_at_zero(states[count].events_queue@),
        count < operations.len() ==> begins_at_zero(operations[count].sent()),
    decreases count,
{
    history_is_consistent(states, operations, interval_millis, count);
    if count > 0 {
        batches_begin_at_zero(states, operations, interval_millis, count - 1);
        history_is_consistent(states, operations, interval_millis, count - 1);
        assert(operations[count - 1].leads(states[count - 1], interval_millis, states[count]));
    }
    if count < operations.len() {
        assert(operations[count].leads(states[count], interval_millis, states[count + 1]));
    }
}

/// How much time passes in the operations from one to another, in milliseconds.
pub open spec fn elapsed_between(operations: Seq<Operation>, from: int, to: int) -> int
    decreases to - from,
{
    if to <= from {
        0
    } else {
        elapsed_between(operations, from, to - 1) + match operations[to - 1] {
            Operation::Advance { elapsed_millis, .. } => elapsed_millis as int,
            _ => 0,
        }
    }
}

/// While a flush is due, only the passing of time brings it nearer. Whatever else
/// happens, and however many events are reported after the one that it became due
/// with, neither restarts nor moves it, until the events are sent.
pub proof fn later_operations_keep_timer(
    states: Seq<TelemetryState>,
    operations: Seq<Operation>,
    interval_millis: u64,
    from: int,
    to: int,
)
    requires
        is_history(states, operations, interval_millis),
        states[0].is_consistent(),
        0 <= from <= to < states.len(),
        states[from].flush_events_task is Some,
        forall|i: int| from <= i < to ==> (#[trigger] operations[i]).sent().len() == 0,
    ensures
        states[to].flush_events_task matches Some(task) && task.remaining_millis
            == states[from].flush_events_task->0.remaining_millis - elapsed_between(
            operations,
            from,
            to,
        ),
    decreases to - from,
{
    if to > from {
        later_operations_keep_timer(states, operations, interval_millis, from, to - 1);
        history_is_consistent(states, operations, interval_millis, to - 1);
        let last = operations[to - 1];
        assert(last.leads(states[to - 1], interval_millis, states[to]));
        assert(last.sent().len() == 0);
    }
}

/// Reports alone leave the flush that is due as it is, until the events are sent.
pub proof fn reports_keep_timer(
    states: Seq<TelemetryState>,
    operations: Seq<Operation>,
    interval_millis: u64,
    from: int,
    to: int,
)
    requires
        is_history(states, operations, interval_millis),
        0 <= from <= to < states.len(),
        states[from].flush_events_task is Some,
        forall|i: int|
            from <= i < to ==> (#[trigger] operations[i] matches Operation::Report { outcome, .. }
                && !(outcome is Flush)),
    ensures
        states[to].flush_events_task == states[from].flush_events_task,
    decreases to - from,
{
    if to > from {
        reports_keep_timer(states, operations, interval_millis, from, to - 1);
        let last = operations[to - 1];
        assert(last.leads(states[to - 1], interval_millis, states[to]));
    }
}

/// A worktree that has been reported stays reported.
proof fn lemma_reported_worktree_stays(
    states: Seq<TelemetryState>,
    operations: Seq<Operation>,
    interval_millis: u64,
    worktree_id: usize,
    from: int,
    to: int,
)
    requires
        is_history(states, operations, interval_millis),
        0 <= from <= to < states.len(),
        states[from].worktrees_with_project_type_events_sent@.contains(worktree_id),
    ensures
        states[to].worktrees_with_project_type_events_sent@.contains(worktree_id),
    decreases to - from,
{
    if to > from {
        lemma_reported_worktree_stays(
            states,
            operations,
            interval_millis,
            worktree_id,
            from,
            to - 1,
        );
        assert(operations[to - 1].leads(states[to - 1], interval_millis, states[to]));
    }
}

/// In every history a worktree yields labels once at most: after it did, it is not
/// looked at again, whatever happens in between and whatever changes in it.
pub proof fn worktree_yields_labels_once(
    states: Seq<TelemetryState>,
    operations: Seq<Operation>,
    interval_millis: u64,
    worktree_id: usize,
    from: int,
    to: int,
)
    requires
        is_history(states, operations, interval_millis),
        0 <= from < to < operations.len(),
        operations[from] matches Operation::Detect { worktree_id: looked_at, labels: Some(labels), .. }
            && looked_at == worktree_id && labels.len() > 0,
    ensures
        operations[to] matches Operation::Detect { worktree_id: looked_at, labels, .. } ==> (
        looked_at == worktree_id ==> labels is None),
{
    assert(operations[from].leads(states[from], interval_millis, states[from + 1]));
    lemma_reported_worktree_stays(
        states,
        operations,
        interval_millis,
        worktree_id,
        from + 1,
        to,
    );
    assert(operations[to].leads(states[to], interval_millis, states[to + 1]));
}

/// What the user changed the settings to last, among the first operations.
pub open spec fn latest_settings(operations: Seq<Operation>, count: int) -> Option<
    TelemetrySettings,
>
    decreases count,
{
    if count <= 0 {
        None
    } else {
        match operations[count - 1] {
            Operation::ChangeSettings { settings } => Some(settings),
            _ => latest_settings(operations, count - 1),
        }
    }
}

/// In every history the settings are those of the latest change, and those of the
/// beginning before any change.
pub proof fn latest_settings_hold(
    states: Seq<TelemetryState>,
    operations: Seq<Operation>,
    interval_millis: u64,
    count: int,
)
    requires
        is_history(states, operations, interval_millis),
        0 <= count < states.len(),
    ensures
        states[count].settings == (match latest_settings(operations, count) {
            Some(settings) => settings,
            None => states[0].settings,
        }),
    decreases count,
{
    if count > 0 {
        latest_settings_hold(states, operations, interval_millis, count - 1);
        assert(operations[count - 1].leads(states[count - 1], interval_millis, states[count]));
    }
}

/// Whether the user allows metrics after the first operations, where `first` are
/// the settings of the beginning.
pub open spec fn has_consent(
    first: TelemetrySettings,
    operations: Seq<Operation>,
    count: int,
) -> bool {
    match latest_settings(operations, count) {
        Some(settings) => settings.metrics,
        None => first.metrics,
    }
}

/// Who logged in or out last among the first operations, while the user allowed
/// metrics.
pub open spec fn latest_user(
    first: TelemetrySettings,
    operations: Seq<Operation>,
    count: int,
) -> Option<(Option<String>, bool)>
    decreases count,
{
    if count <= 0 {
        None
    } else {
        match operations[count - 1] {
            Operation::Authenticate { metrics_id, is_staff } => if has_consent(
                first,
                operations,
                count - 1,
            ) {
                Some((metrics_id, is_staff))
            } else {
                latest_user(first, operations, count - 1)
            },
            _ => latest_user(first, operations, count - 1),
        }
    }
}

/// Which of the first operations was the last start; none if there was no start.
pub open spec fn latest_start(operations: Seq<Operation>, count: int) -> Option<int>
    decreases count,
{
    if count <= 0 {
        None
    } else if operations[count - 1] is Start {
        Some(count - 1)
    } else {
        latest_start(operations, count - 1)
    }
}

/// The version of the operating system that was found out last.
pub open spec fn latest_os_version(operations: Seq<Operation>, count: int) -> Option<String>
    decreases count,
{
    if count <= 0 {
        None
    } else {
        match operations[count - 1] {
            Operation::SetOsVersion { os_version } => Some(os_version),
            _ => latest_os_version(operations, count - 1),
        }
    }
}

/// In every history, each thing that is known is what the latest call said that told
/// it, and what was known at the beginning before any call did. Reports, flushes and
/// the passing of time tell nothing.
pub proof fn latest_news_hold(
    states: Seq<TelemetryState>,
    operations: Seq<Operation>,
    interval_millis: u64,
    count: int,
)
    requires
        is_history(states, operations, interval_millis),
        0 <= count < states.len(),
    ensures
        states[count].settings.metrics == has_consent(states[0].settings, operations, count),
        match latest_user(states[0].settings, operations, count) {
            Some((metrics_id, is_staff)) => {
                &&& states[count].metrics_id == metrics_id
                &&& states[count].is_staff == Some(is_staff)
            },
            None => {
                &&& states[count].metrics_id == states[0].metrics_id
                &&& states[count].is_staff == states[0].is_staff
            },
        },
        match latest_start(operations, count) {
            Some(at) => {
                &&& 0 <= at < count
                &&& operations[at] matches Operation::Start {
                    system_id,
                    installation_id,
                    session_id,
                    app_version,
                    os_name,
                }
                &&& states[count].system_id == system_id
                &&& states[count].installation_id == installation_id
                &&& states[count].session_id == Some(session_id)
                &&& states[count].app_version == app_version
                &&& states[count].os_name == os_name
            },
            None => {
                &&& states[count].system_id == states[0].system_id
                &&& states[count].installation_id == states[0].installation_id
                &&& states[count].session_id == states[0].session_id
                &&& states[count].app_version == states[0].app_version
                &&& states[count].os_name == states[0].os_name
            },
        },
        match latest_os_version(operations, count) {
            Some(os_version) => states[count].os_version == Some(os_version),
            None => states[count].os_version == states[0].os_version,
        },
        states[count].architecture == states[0].architecture,
        states[count].release_channel == states[0].release_channel,
        states[count].max_queue_size == states[0].max_queue_size,
    decreases count,
{
    latest_settings_hold(states, operations, interval_millis, count);
    if count > 0 {
        latest_settings_hold(states, operations, interval_millis, count - 1);
        latest_news_hold(states, operations, interval_millis, count - 1);
        assert(operations[count - 1].leads(states[count - 1], interval_millis, states[count]));
    }
}

/// Whether some user is logged in after the first operations.
pub open spec fn is_signed_in(
    first: TelemetryState,
    operations: Seq<Operation>,
    count: int,
) -> bool {
    match latest_user(first.settings, operations, count) {
        Some((metrics_id, _)) => metrics_id is Some,
        None => first.metrics_id is Some,
    }
}

/// Whether the installation is known after the first operations.
pub open spec fn is_installation_known(
    first: TelemetryState,
    operations: Seq<Operation>,
    count: int,
) -> bool {
    match latest_start(operations, count) {
        Some(at) => operations[at]->Start_installation_id is Some,
        None => first.installation_id is Some,
    }
}

/// Which reports wait after the first operations, by what the operations led to: a
/// report that is queued waits until events are sent.
pub open spec fn waiting(operations: Seq<Operation>, count: int) -> Seq<int>
    decreases count,
{
    if count <= 0 {
        seq![]
    } else {
        let before = waiting(operations, count - 1);
        match operations[count - 1] {
            Operation::Report { outcome: ReportOutcome::Queued { .. }, .. } => before.push(
                count - 1,
            ),
            Operation::Report { outcome: ReportOutcome::Flush(_), .. } => seq![],
            Operation::Advance { pending: Some(_), .. } => seq![],
            Operation::Flush { .. } => seq![],
            _ => before,
        }
    }
}

/// Which reports an operation sends: those that wait, and itself if it is a report.
pub open spec fn batch(operations: Seq<Operation>, at: int) -> Seq<int> {
    match operations[at] {
        Operation::Report { outcome: ReportOutcome::Flush(_), .. } => waiting(operations, at).push(
            at,
        ),
        Operation::Advance { pending: Some(_), .. } => waiting(operations, at),
        Operation::Flush { pending: Some(_) } => waiting(operations, at),
        _ => seq![],
    }
}

/// Whether an event is kept as it was reported by the operation `at`, in a batch
/// that begins with the report `first_of_batch`: the event itself, whether a user
/// was logged in when it was reported, and the whole milliseconds, up to a day,
/// between the times of the two reports.
pub open spec fn is_kept_report(
    first: TelemetryState,
    operations: Seq<Operation>,
    first_of_batch: int,
    at: int,
    kept: EventWrapper,
) -> bool {
    &&& operations[first_of_batch] is Report
    &&& operations[at] is Report
    &&& kept.event == operations[at]->Report_event
    &&& kept.signed_in == is_signed_in(first, operations, at)
    &&& is_period_millis(
        operations[first_of_batch]->Report_now,
        operations[at]->Report_now,
        kept.milliseconds_since_first_event as int,
    )
}

/// In every history that begins with nothing waiting, the queue holds the reports
/// that wait, in their order, each as it was reported and with its distance in time
/// from the first of them. The time of the first event is that of this first report,
/// and the flush is due an interval after it.
pub proof fn queue_holds_waiting_reports(
    states: Seq<TelemetryState>,
    operations: Seq<Operation>,
    interval_millis: u64,
    count: int,
)
    requires
        is_history(states, operations, interval_millis),
        states[0].is_empty_spec(),
        0 <= count < states.len(),
    ensures
        states[count].events_queue@.len() == waiting(operations, count).len(),
        forall|k: int|
            #![trigger waiting(operations, count)[k]]
            0 <= k < waiting(operations, count).len() ==> {
                &&& 0 <= waiting(operations, count)[k] < count
                &&& is_kept_report(
                    states[0],
                    operations,
                    waiting(operations, count)[0],
                    waiting(operations, count)[k],
                    states[count].events_queue@[k],
                )
            },
        waiting(operations, count).len() == 0 ==> {
            &&& states[count].first_event_date_time is None
            &&& states[count].flush_events_task is None
        },
        waiting(operations, count).len() > 0 ==> {
            let first = waiting(operations, count)[0];
            &&& operations[first] is Report
            &&& states[count].first_event_date_time == Some(operations[first]->Report_now)
            &&& states[count].flush_events_task is Some
            &&& states[count].flush_events_task->0.remaining_millis == interval_millis
                - elapsed_between(operations, first + 1, count)
        },
    decreases count,
{
    if count > 0 {
        queue_holds_waiting_reports(states, operations, interval_millis, count - 1);
        latest_news_hold(states, operations, interval_millis, count - 1);
        let before = states[count - 1];
        let after = states[count];
        let last = operations[count - 1];
        assert(last.leads(before, interval_millis, after));
        let waited = waiting(operations, count - 1);
        let waits = waiting(operations, count);
        match last {
            Operation::Report { event, now, outcome } => {
                lemma_report_is_kept(
                    states,
                    operations,
                    interval_millis,
                    count - 1,
                );
                if outcome is Queued {
                    assert forall|k: int| #![trigger waits[k]] 0 <= k < waits.len() implies {
                        &&& 0 <= waits[k] < count
                        &&& is_kept_report(
                            states[0],
                            operations,
                            waits[0],
                            waits[k],
                            after.events_queue@[k],
                        )
                    } by {
                        if k < waited.len() {
                            assert(waits[k] == waited[k]);
                            assert(waits[0] == waited[0]);
                            assert(after.events_queue@[k] == before.events_queue@[k]);
                        }
                    }
                    assert(waits[0] == if waited.len() > 0 {
                        waited[0]
                    } else {
                        count - 1
                    });
                }
            },
            _ => {},
        }
    }
}

/// What a report adds to the state that it finds is the report as it is to be kept.
proof fn lemma_report_is_kept(
    states: Seq<TelemetryState>,
    operations: Seq<Operation>,
    interval_millis: u64,
    at: int,
)
    requires
        is_history(states, operations, interval_millis),
        0 <= at < operations.len(),
        operations[at] is Report,
        waiting(operations, at).len() == 0 ==> states[at].first_event_date_time is None,
        waiting(operations, at).len() > 0 ==> operations[waiting(operations, at)[0]] is Report
            && states[at].first_event_date_time == Some(
            operations[waiting(operations, at)[0]]->Report_now,
        ),
    ensures
        is_kept_report(
            states[0],
            operations,
            if waiting(operations, at).len() > 0 {
                waiting(operations, at)[0]
            } else {
                at
            },
            at,
            states[at].wrapped(operations[at]->Report_event, operations[at]->Report_now),
        ),
{
    latest_news_hold(states, operations, interval_millis, at);
    let now = operations[at]->Report_now;
    match states[at].first_event_date_time {
        Some(first) => {
            period_is_counted(first, now);
            period_is_bounded(first, now);
        },
        None => {},
    }
}

/// In every history that begins with nothing waiting, what is sent are the reports
/// that waited, in their order, each as it was reported and with its distance in time
/// from the first of its batch.
pub proof fn batches_hold_reports(
    states: Seq<TelemetryState>,
    operations: Seq<Operation>,
    interval_millis: u64,
    at: int,
)
    requires
        is_history(states, operations, interval_millis),
        states[0].is_empty_spec(),
        0 <= at < operations.len(),
    ensures
        operations[at].sent().len() == batch(operations, at).len(),
        forall|k: int|
            #![trigger batch(operations, at)[k]]
            0 <= k < batch(operations, at).len() ==> is_kept_report(
                states[0],
                operations,
                batch(operations, at)[0],
                batch(operations, at)[k],
                operations[at].sent()[k],
            ),
{
    queue_holds_waiting_reports(states, operations, interval_millis, at);
    assert(operations[at].leads(states[at], interval_millis, states[at + 1]));
    let waited = waiting(operations, at);
    let sent = operations[at].sent();
    let indices = batch(operations, at);
    if operations[at] is Report {
        lemma_report_is_kept(states, operations, interval_millis, at);
    }
    assert forall|k: int| #![trigger indices[k]] 0 <= k < indices.len() implies is_kept_report(
        states[0],
        operations,
        indices[0],
        indices[k],
        sent[k],
    ) by {
        if k < waited.len() {
            assert(indices[k] == waited[k]);
            assert(indices[0] == waited[0]);
            assert(sent[k] == states[at].events_queue@[k]);
        } else if waited.len() > 0 {
            assert(indices[0] == waited[0]);
        }
    }
}

/// In every history that begins with nothing waiting, a report is ignored exactly
/// while the user does not allow metrics. It sends the batch exactly if the
/// installation is known and as many events are there as may wait. Else it waits, and
/// the first one to wait starts the timer. Time sends the batch exactly when the
/// interval has passed since its first report; a flush sends it at once.
pub proof fn batches_are_sent_in_time(
    states: Seq<TelemetryState>,
    operations: Seq<Operation>,
    interval_millis: u64,
    at: int,
)
    requires
        is_history(states, operations, interval_millis),
        states[0].is_empty_spec(),
        0 <= at < operations.len(),
    ensures
        match operations[at] {
            Operation::Report { outcome, .. } => {
                &&& outcome is Ignored <==> !has_consent(states[0].settings, operations, at)
                &&& outcome is Flush <==> {
                    &&& has_consent(states[0].settings, operations, at)
                    &&& is_installation_known(states[0], operations, at)
                    &&& waiting(operations, at).len() + 1 >= states[0].max_queue_size
                }
                &&& outcome matches ReportOutcome::Queued { start_timer_millis } ==> (
                start_timer_millis == if waiting(operations, at).len() == 0 {
                    Some(interval_millis)
                } else {
                    None
                })
            },
            Operation::Advance { elapsed_millis, pending } => {
                &&& pending is Some <==> {
                    &&& waiting(operations, at).len() > 0
                    &&& elapsed_between(operations, waiting(operations, at)[0] + 1, at)
                        + elapsed_millis >= interval_millis
                }
            },
            Operation::Flush { pending } => pending is Some <==> waiting(operations, at).len() > 0,
            _ => true,
        },
{
    queue_holds_waiting_reports(states, operations, interval_millis, at);
    latest_news_hold(states, operations, interval_millis, at);
    assert(operations[at].leads(states[at], interval_millis, states[at + 1]));
}

/// Whether one of the first operations found something in a worktree.
pub open spec fn was_found(operations: Seq<Operation>, count: int, worktree_id: usize) -> bool {
    exists|i: int|
        0 <= i < count && (#[trigger] operations[i] matches Operation::Detect {
            worktree_id: looked_at,
            labels: Some(labels),
            ..
        } && looked_at == worktree_id && labels.len() > 0)
}

proof fn lemma_found_worktrees(
    states: Seq<TelemetryState>,
    operations: Seq<Operation>,
    interval_millis: u64,
    count: int,
    worktree_id: usize,
)
    requires
        is_history(states, operations, interval_millis),
        0 <= count < states.len(),
    ensures
        states[count].worktrees_with_project_type_events_sent@.contains(worktree_id) <==> {
            ||| states[0].worktrees_with_project_type_events_sent@.contains(worktree_id)
            ||| was_found(operations, count, worktree_id)
        },
    decreases count,
{
    if count > 0 {
        lemma_found_worktrees(states, operations, interval_millis, count - 1, worktree_id);
        let last = operations[count - 1];
        assert(last.leads(states[count - 1], interval_millis, states[count]));
        if was_found(operations, count - 1, worktree_id) {
            let i = choose|i: int|
                0 <= i < count - 1 && (#[trigger] operations[i] matches Operation::Detect {
                    worktree_id: looked_at,
                    labels: Some(labels),
                    ..
                } && looked_at == worktree_id && labels.len() > 0);
            assert(0 <= i < count);
            assert(was_found(operations, count, worktree_id));
        }
        if was_found(operations, count, worktree_id) && !was_found(
            operations,
            count - 1,
            worktree_id,
        ) {
            let i = choose|i: int|
                0 <= i < count && (#[trigger] operations[i] matches Operation::Detect {
                    worktree_id: looked_at,
                    labels: Some(labels),
                    ..
                } && looked_at == worktree_id && labels.len() > 0);
            assert(i == count - 1);
        }
    }
}

/// In every history a worktree is looked through as long as nothing was found in it,
/// and not any more once something was, whatever happens in between. Looking through
/// it gives what its entries point to.
pub proof fn worktree_is_looked_through_until_found(
    states: Seq<TelemetryState>,
    operations: Seq<Operation>,
    interval_millis: u64,
    at: int,
)
    requires
        is_history(states, operations, interval_millis),
        0 <= at < operations.len(),
    ensures
        operations[at] matches Operation::Detect { worktree_id, entries, labels } ==> {
            &&& labels is None <==> {
                ||| states[0].worktrees_with_project_type_events_sent@.contains(worktree_id)
                ||| was_found(operations, at, worktree_id)
            }
            &&& labels is Some ==> labels->0 == discovered_labels(entries)
        },
{
    assert(operations[at].leads(states[at], interval_millis, states[at + 1]));
    match operations[at] {
        Operation::Detect { worktree_id, .. } => {
            lemma_found_worktrees(states, operations, interval_millis, at, worktree_id);
        },
        _ => {},
    }
}

/// Whether what never changes is the same in both.
pub open spec fn is_set_up_alike(before: Telemetry, after: Telemetry) -> bool {
    &&& after.checksum_seed == before.checksum_seed
    &&& after.flush_interval_millis == before.flush_interval_millis
    &&& after.dotnet_pattern == before.dotnet_pattern
}

/// The calls that tell telemetry something are operations of a history.
pub proof fn news_are_operations(
    changed: &mut Telemetry,
    settings: TelemetrySettings,
    versioned: &mut Telemetry,
    os_version: String,
    started: &mut Telemetry,
    ids: (Option<String>, Option<String>, String),
    names: (String, String),
    authenticated: &mut Telemetry,
    user: (Option<String>, bool),
)
    requires
        call_ensures(Telemetry::settings_changed, (changed, settings), ()),
        call_ensures(Telemetry::set_os_version, (versioned, os_version), ()),
        call_ensures(Telemetry::start, (started, ids.0, ids.1, ids.2, names.0, names.1), ()),
        call_ensures(
            Telemetry::set_authenticated_user_info,
            (authenticated, user.0, user.1),
            (),
        ),
    ensures
        (Operation::ChangeSettings { settings }).leads(
            old(changed).state,
            old(changed).flush_interval_millis,
            final(changed).state,
        ),
        is_set_up_alike(*old(changed), *final(changed)),
        (Operation::SetOsVersion { os_version }).leads(
            old(versioned).state,
            old(versioned).flush_interval_millis,
            final(versioned).state,
        ),
        is_set_up_alike(*old(versioned), *final(versioned)),
        (Operation::Start {
            system_id: ids.0,
            installation_id: ids.1,
            session_id: ids.2,
            app_version: names.0,
            os_name: names.1,
        }).leads(old(started).state, old(started).flush_interval_millis, final(started).state),
        is_set_up_alike(*old(started), *final(started)),
        (Operation::Authenticate { metrics_id: user.0, is_staff: user.1 }).leads(
            old(authenticated).state,
            old(authenticated).flush_interval_millis,
            final(authenticated).state,
        ),
        is_set_up_alike(*old(authenticated), *final(authenticated)),
{
}

/// The calls that report, flush and let time pass are operations of a history.
pub proof fn reports_are_operations(
    reporting: &mut Telemetry,
    event: Event,
    now: Instant,
    outcome: ReportOutcome,
    advancing: &mut Telemetry,
    elapsed_millis: u64,
    advanced: Option<PendingFlush>,
    flushing: &mut Telemetry,
    flushed: Option<PendingFlush>,
)
    requires
        call_ensures(Telemetry::report_event, (reporting, event, now), outcome),
        call_ensures(Telemetry::advance_flush_timer, (advancing, elapsed_millis), advanced),
        call_ensures(Telemetry::flush_events, (flushing,), flushed),
    ensures
        (Operation::Report { event, now, outcome }).leads(
            old(reporting).state,
            old(reporting).flush_interval_millis,
            final(reporting).state,
        ),
        is_set_up_alike(*old(reporting), *final(reporting)),
        (Operation::Advance { elapsed_millis, pending: advanced }).leads(
            old(advancing).state,
            old(advancing).flush_interval_millis,
            final(advancing).state,
        ),
        is_set_up_alike(*old(advancing), *final(advancing)),
        (Operation::Flush { pending: flushed }).leads(
            old(flushing).state,
            old(flushing).flush_interval_millis,
            final(flushing).state,
        ),
        is_set_up_alike(*old(flushing), *final(flushing)),
{
}

/// The calls that look through worktrees are operations of a history.
pub proof fn detections_are_operations(
    detecting: &mut Telemetry,
    reporting: &mut Telemetry,
    worktree_id: usize,
    entries: Vec<UpdatedEntry>,
    labels: Option<Vec<String>>,
    reports: Vec<FlexibleEvent>,
)
    requires
        call_ensures(Telemetry::detect_project_types, (detecting, worktree_id, &entries), labels),
        call_ensures(
            Telemetry::report_discovered_project_type_events,
            (reporting, worktree_id, &entries),
            reports,
        ),
    ensures
        (Operation::Detect { worktree_id, entries: entries@, labels: labels_view(labels) }).leads(
            old(detecting).state,
            old(detecting).flush_interval_millis,
            final(detecting).state,
        ),
        is_set_up_alike(*old(detecting), *final(detecting)),
        (Operation::Detect {
            worktree_id,
            entries: entries@,
            labels: old(reporting).state.labels_to_report(worktree_id, entries@),
        }).leads(
            old(reporting).state,
            old(reporting).flush_interval_millis,
            final(reporting).state,
        ),
        is_set_up_alike(*old(reporting), *final(reporting)),
{
}

} // verus!
