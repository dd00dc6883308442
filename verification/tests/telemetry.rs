use client::event::{
    AssistantEventData, AssistantPhase, EditPeriod, Event, EventWrapper, FlexibleEvent,
    PropertyValue,
};
use client::flush::{
    log_line, responded, FlushFailure, FlushOutcome, FlushStep, PendingFlush, Reply,
};
use client::project_types::{
    discover_project_types, project_type_of_name, PathComponent, ProjectType, UpdatedEntry,
};
use client::request::{BuildRequestError, Method, TELEMETRY_EVENTS_PATH};
use client::telemetry::{
    flush_interval_millis, BuildProfile, Environment, FlushTask, ReportOutcome, Telemetry,
    TelemetrySettings, LOG_FILE_NAME,
};
use client::time::Instant;
use std::path::Path;

fn new_telemetry() -> Telemetry {
    Telemetry::new(Environment {
        profile: BuildProfile::Debug,
        settings: TelemetrySettings { metrics: true },
        release_channel: Some("Dev".to_string()),
        architecture: "x86_64".to_string(),
        os_name: "Linux X11".to_string(),
        app_version: "0.1.0".to_string(),
        checksum_seed: None,
    })
}

fn start_telemetry(telemetry: &mut Telemetry) {
    telemetry.start(
        Some("system_id".to_string()),
        Some("installation_id".to_string()),
        "session_id".to_string(),
        "0.1.0".to_string(),
        "Linux X11".to_string(),
    );
}

fn test_event() -> Event {
    Event::Flexible(
        FlexibleEvent::new("test".to_string()).with_property(
            "test_key".to_string(),
            PropertyValue::Text("test_value".to_string()),
        ),
    )
}

fn assert_test_events(wrappers: &Vec<EventWrapper>, expected: Vec<(bool, i64)>) {
    assert_eq!(wrappers.len(), expected.len());
    for (wrapper, (signed_in, millis)) in wrappers.iter().zip(expected) {
        let Event::Flexible(event) = &wrapper.event;
        assert_eq!(wrapper.signed_in, signed_in);
        assert_eq!(wrapper.milliseconds_since_first_event, millis);
        assert_eq!(event.event_type(), "test");
        assert_eq!(event.properties().len(), 1);
        assert_eq!(
            event.property("test_key"),
            Some(&PropertyValue::Text("test_value".to_string()))
        );
    }
}

fn at_millis(millis: u128) -> Instant {
    Instant { nanos: millis * 1_000_000 }
}

fn is_empty_state(telemetry: &Telemetry) -> bool {
    telemetry.state.events_queue.is_empty()
        && telemetry.state.flush_events_task.is_none()
        && telemetry.state.first_event_date_time.is_none()
}

fn entry_of(path: &str) -> UpdatedEntry {
    UpdatedEntry {
        path: Path::new(path)
            .components()
            .map(|component| match component {
                std::path::Component::Prefix(_) => PathComponent::Prefix,
                std::path::Component::RootDir => PathComponent::RootDir,
                std::path::Component::CurDir => PathComponent::CurDir,
                std::path::Component::ParentDir => PathComponent::ParentDir,
                std::path::Component::Normal(name) => {
                    PathComponent::Normal(name.to_str().map(String::from))
                }
            })
            .collect(),
    }
}

fn test_project_discovery_helper(
    telemetry: &mut Telemetry,
    file_paths: Vec<&str>,
    expected_project_types: Option<Vec<&str>>,
    worktree_id: usize,
) {
    let entries: Vec<UpdatedEntry> = file_paths.into_iter().map(entry_of).collect();
    let detected_project_types = telemetry.detect_project_types(worktree_id, &entries);
    let expected_project_types: Option<Vec<String>> =
        expected_project_types.map(|types| types.iter().map(|&t| t.to_string()).collect());
    assert_eq!(detected_project_types, expected_project_types);
}

#[test]
fn test_telemetry_flush_on_max_queue_size() {
    let mut telemetry = new_telemetry();
    telemetry.state.max_queue_size = 4;
    start_telemetry(&mut telemetry);

    assert!(is_empty_state(&telemetry));

    let first_date_time = at_millis(0);

    telemetry.report_event(test_event(), at_millis(0));
    assert_eq!(telemetry.state.events_queue.len(), 1);
    assert!(telemetry.state.flush_events_task.is_some());
    assert_eq!(telemetry.state.first_event_date_time, Some(first_date_time));

    telemetry.report_event(test_event(), at_millis(100));
    assert_eq!(telemetry.state.events_queue.len(), 2);
    assert!(telemetry.state.flush_events_task.is_some());
    assert_eq!(telemetry.state.first_event_date_time, Some(first_date_time));

    telemetry.report_event(test_event(), at_millis(100 + 100));
    assert_eq!(telemetry.state.events_queue.len(), 3);
    assert!(telemetry.state.flush_events_task.is_some());
    assert_eq!(telemetry.state.first_event_date_time, Some(first_date_time));

    // Adding a 4th event should cause a flush
    telemetry.report_event(test_event(), at_millis(100 + 100 + 100));
    assert!(is_empty_state(&telemetry));
}

#[test]
fn test_telemetry_flush_on_flush_interval() {
    let mut telemetry = new_telemetry();
    telemetry.state.max_queue_size = 4;
    start_telemetry(&mut telemetry);

    assert!(is_empty_state(&telemetry));
    let first_date_time = at_millis(0);

    telemetry.report_event(test_event(), first_date_time);
    assert_eq!(telemetry.state.events_queue.len(), 1);
    assert!(telemetry.state.flush_events_task.is_some());
    assert_eq!(telemetry.state.first_event_date_time, Some(first_date_time));

    let duration = 1;

    // Test 1 millisecond before the flush interval limit is met
    telemetry.advance_flush_timer(flush_interval_millis(BuildProfile::Debug) - duration);

    assert!(!is_empty_state(&telemetry));

    // Test the exact moment the flush interval limit is met
    telemetry.advance_flush_timer(duration);

    assert!(is_empty_state(&telemetry));
}

#[test]
fn test_project_discovery_does_not_double_report() {
    let mut telemetry = new_telemetry();
    let worktree_id = 1;

    // Scan of empty worktree finds nothing
    test_project_discovery_helper(&mut telemetry, vec![], Some(vec![]), worktree_id);

    // Files added, second scan of worktree 1 finds project type
    test_project_discovery_helper(
        &mut telemetry,
        vec!["package.json"],
        Some(vec!["node"]),
        worktree_id,
    );

    // Third scan of worktree does not double report, as we already reported
    test_project_discovery_helper(&mut telemetry, vec!["package.json"], None, worktree_id);
}

#[test]
fn test_pnpm_project_discovery() {
    let mut telemetry = new_telemetry();
    test_project_discovery_helper(
        &mut telemetry,
        vec!["package.json", "pnpm-lock.yaml"],
        Some(vec!["node", "pnpm"]),
        1,
    );
}

#[test]
fn test_yarn_project_discovery() {
    let mut telemetry = new_telemetry();
    test_project_discovery_helper(
        &mut telemetry,
        vec!["package.json", "yarn.lock"],
        Some(vec!["node", "yarn"]),
        1,
    );
}

#[test]
fn test_dotnet_project_discovery() {
    let mut telemetry = new_telemetry();

    // Using different worktrees, as a project type is not reported for the same
    // worktree multiple times
    test_project_discovery_helper(&mut telemetry, vec!["global.json"], Some(vec!["dotnet"]), 1);
    test_project_discovery_helper(
        &mut telemetry,
        vec!["Directory.Build.props"],
        Some(vec!["dotnet"]),
        2,
    );
    test_project_discovery_helper(&mut telemetry, vec!["file.csproj"], Some(vec!["dotnet"]), 3);
    test_project_discovery_helper(&mut telemetry, vec!["file.fsproj"], Some(vec!["dotnet"]), 4);
    test_project_discovery_helper(&mut telemetry, vec!["file.vbproj"], Some(vec!["dotnet"]), 5);
    test_project_discovery_helper(&mut telemetry, vec!["file.sln"], Some(vec!["dotnet"]), 6);

    // Each worktree should only send a single project type event, even when
    // encountering multiple files associated with that project type
    test_project_discovery_helper(
        &mut telemetry,
        vec!["global.json", "Directory.Build.props"],
        Some(vec!["dotnet"]),
        7,
    );
}

#[test]
fn discovery_reads_the_last_step_of_a_path() {
    let mut telemetry = new_telemetry();
    test_project_discovery_helper(
        &mut telemetry,
        vec!["", "..", "package.json/..", "/", "package.json/src", "./yarn.locks"],
        Some(vec![]),
        1,
    );
    test_project_discovery_helper(
        &mut telemetry,
        vec!["a/b/yarn.lock", "/x/./package.json/", "c/pnpm-lock.yaml", "d/e.sln"],
        Some(vec!["dotnet", "node", "pnpm", "yarn"]),
        1,
    );
}

#[test]
fn discovery_skips_names_that_are_not_unicode() {
    let mut telemetry = new_telemetry();
    let entries = vec![
        UpdatedEntry { path: vec![PathComponent::Normal(None)] },
        UpdatedEntry {
            path: vec![
                PathComponent::Normal(None),
                PathComponent::Normal(Some("package.json".to_string())),
            ],
        },
    ];
    assert_eq!(telemetry.detect_project_types(1, &entries), Some(vec!["node".to_string()]));
}

#[test]
fn dotnet_pattern_on_odd_names() {
    let named = |name: &str| UpdatedEntry {
        path: vec![PathComponent::Normal(Some(name.to_string()))],
    };
    let dotnet = [
        ".csproj", "..sln", "a.b.fsproj", "\u{e9}.vbproj", "x\r.sln", "global.json.sln", " .sln",
    ];
    let others = [
        "csproj", "a.csproj\n", "a\nb.csproj", "\n.sln", "a.CSPROJ", "xglobal.json", "global.json ",
        "globalxjson", "global.json\n", "Directory.Build.propss", "a.slnx", "a.csproj.user", "sln",
    ];
    let mut telemetry = new_telemetry();
    let mut worktree_id = 0;
    for name in dotnet {
        worktree_id += 1;
        assert_eq!(
            telemetry.detect_project_types(worktree_id, &vec![named(name)]),
            Some(vec!["dotnet".to_string()])
        );
    }
    for name in others {
        worktree_id += 1;
        assert_eq!(telemetry.detect_project_types(worktree_id, &vec![named(name)]), Some(vec![]));
    }
}

#[test]
fn discovered_project_types_are_reported() {
    let mut telemetry = new_telemetry();
    let entries = vec![entry_of("yarn.lock"), entry_of("a.csproj"), entry_of("package.json")];
    let reports = telemetry.report_discovered_project_type_events(3, &entries);
    assert_eq!(reports.len(), 3);
    for (report, label) in reports.iter().zip(["dotnet", "node", "yarn"]) {
        assert_eq!(report.event_type(), "Project Opened");
        assert_eq!(report.properties().len(), 1);
        assert_eq!(
            report.property("project_type"),
            Some(&PropertyValue::Text(label.to_string()))
        );
    }
    assert_eq!(telemetry.report_discovered_project_type_events(3, &entries).len(), 0);
    assert_eq!(telemetry.report_discovered_project_type_events(4, &entries).len(), 3);
    assert_eq!(telemetry.report_discovered_project_type_events(5, &vec![]).len(), 0);
    assert_eq!(telemetry.report_discovered_project_type_events(5, &entries).len(), 3);
    telemetry.report_event(test_event(), at_millis(0));
    telemetry.flush_events();
    assert_eq!(telemetry.detect_project_types(3, &entries), None);
}

#[test]
fn new_telemetry_knows_its_environment() {
    let telemetry = new_telemetry();
    assert!(is_empty_state(&telemetry));
    assert_eq!(telemetry.state.max_queue_size, 5);
    assert_eq!(telemetry.flush_interval_millis, 1_000);
    assert_eq!(telemetry.state.os_version, None);
    assert_eq!(telemetry.system_id(), None);
    assert_eq!(telemetry.installation_id(), None);
    assert_eq!(telemetry.metrics_id(), None);
    assert_eq!(telemetry.is_staff(), None);
    assert!(!telemetry.has_checksum_seed());
    assert!(telemetry.metrics_enabled());
    assert_eq!(LOG_FILE_NAME, "telemetry.log");
    assert_eq!(flush_interval_millis(BuildProfile::Release), 300_000);
    let release = Telemetry::new(Environment {
        profile: BuildProfile::Release,
        settings: TelemetrySettings { metrics: false },
        release_channel: None,
        architecture: "aarch64".to_string(),
        os_name: "macOS".to_string(),
        app_version: "1.0.0".to_string(),
        checksum_seed: Some(b"seed".to_vec()),
    });
    assert_eq!(release.state.max_queue_size, 50);
    assert!(release.has_checksum_seed());
    assert!(!release.metrics_enabled());
}

#[test]
fn start_takes_over_identifiers() {
    let mut telemetry = new_telemetry();
    start_telemetry(&mut telemetry);
    assert_eq!(telemetry.system_id(), Some("system_id".to_string()));
    assert_eq!(telemetry.installation_id(), Some("installation_id".to_string()));
    assert_eq!(telemetry.state.session_id, Some("session_id".to_string()));
}

#[test]
fn user_info_needs_consent() {
    let mut telemetry = new_telemetry();
    telemetry.settings_changed(TelemetrySettings { metrics: false });
    telemetry.set_authenticated_user_info(Some("user".to_string()), true);
    assert_eq!(telemetry.metrics_id(), None);
    assert_eq!(telemetry.is_staff(), None);
    telemetry.settings_changed(TelemetrySettings { metrics: true });
    telemetry.set_authenticated_user_info(Some("user".to_string()), false);
    assert_eq!(telemetry.metrics_id(), Some("user".to_string()));
    assert_eq!(telemetry.is_staff(), Some(false));
    telemetry.set_authenticated_user_info(None, true);
    assert_eq!(telemetry.metrics_id(), None);
    assert_eq!(telemetry.is_staff(), Some(true));
}

#[test]
fn reports_need_consent() {
    let mut telemetry = new_telemetry();
    telemetry.settings_changed(TelemetrySettings { metrics: false });
    assert!(matches!(
        telemetry.report_event(test_event(), at_millis(0)),
        ReportOutcome::Ignored
    ));
    assert!(is_empty_state(&telemetry));
}

#[test]
fn first_report_starts_the_timer() {
    let mut telemetry = new_telemetry();
    assert!(matches!(
        telemetry.report_event(test_event(), at_millis(3)),
        ReportOutcome::Queued { start_timer_millis: Some(1_000) }
    ));
    assert!(matches!(
        telemetry.report_event(test_event(), at_millis(4)),
        ReportOutcome::Queued { start_timer_millis: None }
    ));
}

#[test]
fn queue_has_no_limit_before_the_installation_is_known() {
    let mut telemetry = new_telemetry();
    for i in 0..20 {
        let outcome = telemetry.report_event(test_event(), at_millis(i));
        assert!(matches!(outcome, ReportOutcome::Queued { .. }));
    }
    assert_eq!(telemetry.state.events_queue.len(), 20);
    start_telemetry(&mut telemetry);
    match telemetry.report_event(test_event(), at_millis(20)) {
        ReportOutcome::Flush(pending) => assert_eq!(pending.events().len(), 21),
        _ => panic!("the queue is full"),
    }
    assert!(is_empty_state(&telemetry));
}

#[test]
fn events_count_from_the_first_one() {
    let mut telemetry = new_telemetry();
    telemetry.report_event(test_event(), at_millis(50));
    telemetry.set_authenticated_user_info(Some("user".to_string()), false);
    telemetry.report_event(test_event(), at_millis(150));
    telemetry.report_event(test_event(), at_millis(40));
    telemetry.report_event(test_event(), at_millis(50 + 90_000_000));
    let pending = telemetry.flush_events().unwrap();
    assert_test_events(
        pending.events(),
        vec![(false, 0), (true, 100), (true, 0), (true, 86_400_000)],
    );
    assert!(is_empty_state(&telemetry));
    telemetry.report_event(test_event(), at_millis(7));
    assert_test_events(&telemetry.state.events_queue, vec![(true, 0)]);
    assert_eq!(telemetry.state.first_event_date_time, Some(at_millis(7)));
}

#[test]
fn flush_of_nothing_is_nothing() {
    let mut telemetry = new_telemetry();
    assert!(telemetry.flush_events().is_none());
    assert!(telemetry.advance_flush_timer(5_000).is_none());
    assert!(is_empty_state(&telemetry));
}

#[test]
fn timer_runs_down_in_parts() {
    let mut telemetry = new_telemetry();
    telemetry.report_event(test_event(), at_millis(0));
    assert!(telemetry.advance_flush_timer(400).is_none());
    telemetry.report_event(test_event(), at_millis(400));
    assert!(telemetry.advance_flush_timer(599).is_none());
    assert_eq!(telemetry.advance_flush_timer(1).unwrap().events().len(), 2);
    assert!(telemetry.advance_flush_timer(1).is_none());
}

#[test]
fn events_about_the_program() {
    let telemetry = new_telemetry();
    let closed = telemetry.shutdown_telemetry(false).unwrap();
    assert_eq!(closed.event_type(), "App Closed");
    assert_eq!(closed.properties().len(), 0);
    assert!(telemetry.shutdown_telemetry(true).is_none());
    assert!(telemetry.log_edit_event(None, true).is_none());
    let period = EditPeriod {
        start: at_millis(10),
        end: at_millis(35),
        environment: "terminal".to_string(),
    };
    let edited = telemetry.log_edit_event(Some(period), false).unwrap();
    assert_eq!(edited.event_type(), "Editor Edited");
    assert_eq!(edited.property("duration"), Some(&PropertyValue::Integer(25)));
    assert_eq!(
        edited.property("environment"),
        Some(&PropertyValue::Text("terminal".to_string()))
    );
    assert_eq!(edited.property("is_via_ssh"), Some(&PropertyValue::Bool(false)));
    let responded = telemetry.report_assistant_event(AssistantEventData {
        conversation_id: PropertyValue::Null,
        kind: PropertyValue::Null,
        phase: AssistantPhase::Accepted,
        message_id: PropertyValue::Null,
        model: PropertyValue::Null,
        model_provider: PropertyValue::Null,
        response_latency: PropertyValue::Null,
        error_message: PropertyValue::Null,
        language_name: PropertyValue::Null,
    });
    assert_eq!(responded.event_type(), "Assistant Response Accepted");
}

fn pending_events(telemetry: &mut Telemetry, count: u128) -> PendingFlush {
    for i in 0..count {
        telemetry.report_event(test_event(), at_millis(i));
    }
    telemetry.flush_events().unwrap()
}

#[test]
fn flush_logs_every_event_and_delivers_them() {
    let mut telemetry = new_telemetry();
    let pending = pending_events(&mut telemetry, 3);
    start_telemetry(&mut telemetry);
    telemetry.set_authenticated_user_info(Some("user".to_string()), true);
    telemetry.set_os_version("ubuntu 22.04".to_string());
    let mut step = pending.begin(&telemetry, true);
    for i in 0..3 {
        step = match step {
            FlushStep::LogEvent(log) => {
                assert_eq!(log.event().milliseconds_since_first_event, i);
                assert!(!log.event().signed_in);
                log.logged(&telemetry, true)
            }
            _ => panic!("an event is left"),
        };
    }
    match step {
        FlushStep::SerializeBody(body) => {
            assert_eq!(body.system_id, Some("system_id".to_string()));
            assert_eq!(body.installation_id, Some("installation_id".to_string()));
            assert_eq!(body.session_id, Some("session_id".to_string()));
            assert_eq!(body.metrics_id, Some("user".to_string()));
            assert_eq!(body.is_staff, Some(true));
            assert_eq!(body.app_version, "0.1.0");
            assert_eq!(body.os_name, "Linux X11");
            assert_eq!(body.os_version, Some("ubuntu 22.04".to_string()));
            assert_eq!(body.architecture, "x86_64");
            assert_eq!(body.release_channel, Some("Dev".to_string()));
            assert_test_events(&body.events, vec![(false, 0), (false, 1), (false, 2)]);
        }
        _ => panic!("every event is logged"),
    }
}

#[test]
fn flush_without_log_file_delivers_at_once() {
    let mut telemetry = new_telemetry();
    let pending = pending_events(&mut telemetry, 2);
    match pending.begin(&telemetry, false) {
        FlushStep::SerializeBody(body) => assert_eq!(body.events.len(), 2),
        _ => panic!("there is no log file"),
    }
}

#[test]
fn failure_to_log_ends_the_flush() {
    let mut telemetry = new_telemetry();
    let pending = pending_events(&mut telemetry, 2);
    match pending.begin(&telemetry, true) {
        FlushStep::LogEvent(log) => assert!(matches!(
            log.logged(&telemetry, false),
            FlushStep::Done(FlushOutcome::Failed(FlushFailure::Log))
        )),
        _ => panic!("there is a log file"),
    }
    assert_eq!(log_line(b"{}".to_vec()), b"{}\n".to_vec());
}

#[test]
fn request_carries_the_checksum_of_its_body() {
    let mut telemetry = new_telemetry();
    telemetry.checksum_seed = Some(b"seed".to_vec());
    let json = br#"{"events":[]}"#.to_vec();
    let uri = format!("https://api.example.com{}", TELEMETRY_EVENTS_PATH);
    match telemetry.body_serialized(Some(json.clone()), Some(uri)) {
        FlushStep::Send(request) => {
            assert_eq!(request.method, Method::Post);
            assert_eq!(request.uri, "https://api.example.com/telemetry/events");
            assert_eq!(request.body, json);
            assert_eq!(request.headers.len(), 2);
            assert_eq!(request.headers[0].name, "Content-Type");
            assert_eq!(request.headers[0].value, "application/json");
            assert_eq!(request.headers[1].name, "x-zed-checksum");
            assert_eq!(
                request.headers[1].value,
                "53e4fefbe31a4edadb137a104d48a516ec11211cc0ce9114aa9d54773790a96c"
            );
        }
        _ => panic!("the request can be built"),
    }
    telemetry.checksum_seed = None;
    let request = telemetry.build_request(Some(json), Some("x".to_string())).unwrap();
    assert_eq!(request.headers[1].value, "");
}

#[test]
fn request_that_cannot_be_built() {
    let telemetry = new_telemetry();
    assert_eq!(
        telemetry.build_request(None, Some("x".to_string())),
        Err(BuildRequestError::Serialization)
    );
    assert_eq!(telemetry.build_request(None, None), Err(BuildRequestError::Serialization));
    assert_eq!(telemetry.build_request(Some(vec![]), None), Err(BuildRequestError::Uri));
    assert!(matches!(
        telemetry.body_serialized(Some(vec![]), None),
        FlushStep::Done(FlushOutcome::Failed(FlushFailure::Request(BuildRequestError::Uri)))
    ));
    assert!(matches!(
        telemetry.body_serialized(None, None),
        FlushStep::Done(FlushOutcome::Failed(FlushFailure::Request(
            BuildRequestError::Serialization
        )))
    ));
}

#[test]
fn replies() {
    assert_eq!(responded(Reply::Status(200)), FlushOutcome::Delivered);
    assert_eq!(responded(Reply::Status(201)), FlushOutcome::Refused { status: 201 });
    assert_eq!(responded(Reply::Status(500)), FlushOutcome::Refused { status: 500 });
    assert_eq!(responded(Reply::NotBuilt), FlushOutcome::Failed(FlushFailure::Builder));
    assert_eq!(responded(Reply::NotReceived), FlushOutcome::Failed(FlushFailure::Transport));
}

#[test]
fn every_event_is_sent_once_in_order() {
    let mut telemetry = new_telemetry();
    let mut accepted: Vec<String> = Vec::new();
    let mut sent: Vec<String> = Vec::new();
    let name_of = |wrapper: &EventWrapper| match &wrapper.event {
        Event::Flexible(event) => event.event_type().clone(),
    };
    for i in 0..200u128 {
        let event_type = format!("event {}", i);
        if telemetry.metrics_enabled() {
            accepted.push(event_type.clone());
        }
        let event = Event::Flexible(FlexibleEvent::new(event_type));
        let pending = match telemetry.report_event(event, at_millis(i)) {
            ReportOutcome::Flush(pending) => Some(pending),
            _ => telemetry.advance_flush_timer(290),
        };
        if let Some(pending) = pending {
            assert_eq!(pending.events()[0].milliseconds_since_first_event, 0);
            sent.extend(pending.events().iter().map(name_of));
        }
        if i % 7 == 3 {
            let metrics = i % 2 == 1;
            telemetry.settings_changed(TelemetrySettings { metrics });
        }
        if i == 100 {
            start_telemetry(&mut telemetry);
            telemetry.state.max_queue_size = 3;
        }
        let waiting: Vec<String> = telemetry.state.events_queue.iter().map(name_of).collect();
        let mut all = sent.clone();
        all.extend(waiting);
        assert_eq!(all, accepted);
        assert_eq!(
            telemetry.state.events_queue.is_empty(),
            is_empty_state(&telemetry)
        );
    }
}

#[test]
fn discovery_depends_on_names_only() {
    let mut telemetry = new_telemetry();
    let expected = Some(vec!["dotnet", "pnpm", "yarn"]);
    test_project_discovery_helper(
        &mut telemetry,
        vec!["yarn.lock", "a.sln", "pnpm-lock.yaml"],
        expected.clone(),
        1,
    );
    test_project_discovery_helper(
        &mut telemetry,
        vec!["pnpm-lock.yaml", "yarn.lock", "yarn.lock", "a.sln", "pnpm-lock.yaml"],
        expected.clone(),
        2,
    );
    test_project_discovery_helper(
        &mut telemetry,
        vec!["/x/a.sln", "..", "b/c/yarn.lock", "pnpm-lock.yaml/", "yarn.lock/.."],
        expected,
        3,
    );
}

#[test]
fn names_belong_to_kinds_of_projects() {
    let pattern = new_telemetry().dotnet_pattern;
    let type_of = |name: &str| project_type_of_name(&name.to_string(), &pattern);
    assert_eq!(type_of("pnpm-lock.yaml"), Some(ProjectType::Pnpm));
    assert_eq!(type_of("yarn.lock"), Some(ProjectType::Yarn));
    assert_eq!(type_of("package.json"), Some(ProjectType::Node));
    assert_eq!(type_of("global.json"), Some(ProjectType::Dotnet));
    assert_eq!(type_of("a.vbproj"), Some(ProjectType::Dotnet));
    assert_eq!(type_of("package.json5"), None);
    let entries = vec![entry_of("src/a.fsproj"), entry_of("b.txt"), entry_of("package.json")];
    assert_eq!(discover_project_types(&entries, &pattern), vec!["dotnet", "node"]);
}

#[test]
fn later_reports_do_not_move_the_timer() {
    let mut telemetry = new_telemetry();
    telemetry.report_event(test_event(), at_millis(0));
    assert_eq!(telemetry.state.flush_events_task, Some(FlushTask { remaining_millis: 1_000 }));
    for i in 1..10u128 {
        telemetry.report_event(test_event(), at_millis(i * 1_000));
        assert_eq!(telemetry.state.flush_events_task, Some(FlushTask { remaining_millis: 1_000 }));
    }
    assert!(telemetry.advance_flush_timer(300).is_none());
    telemetry.report_event(test_event(), at_millis(300));
    telemetry.settings_changed(TelemetrySettings { metrics: false });
    telemetry.report_event(test_event(), at_millis(310));
    telemetry.detect_project_types(1, &vec![entry_of("package.json")]);
    telemetry.set_os_version("arch unknown".to_string());
    assert!(telemetry.advance_flush_timer(200).is_none());
    assert_eq!(telemetry.state.flush_events_task, Some(FlushTask { remaining_millis: 500 }));
    assert_eq!(telemetry.advance_flush_timer(500).unwrap().events().len(), 11);
}

#[test]
fn every_batch_begins_at_zero() {
    let mut telemetry = new_telemetry();
    start_telemetry(&mut telemetry);
    for i in 0..30u128 {
        if let ReportOutcome::Flush(pending) =
            telemetry.report_event(test_event(), at_millis(1_000 + i * 10))
        {
            assert_test_events(
                pending.events(),
                vec![(false, 0), (false, 10), (false, 20), (false, 30), (false, 40)],
            );
        }
    }
    assert!(is_empty_state(&telemetry));
}

#[test]
fn worktree_yields_labels_once() {
    let mut telemetry = new_telemetry();
    let entries = vec![entry_of("yarn.lock")];
    assert_eq!(telemetry.detect_project_types(7, &vec![]), Some(vec![]));
    assert_eq!(telemetry.detect_project_types(7, &entries), Some(vec!["yarn".to_string()]));
    telemetry.report_event(test_event(), at_millis(0));
    telemetry.settings_changed(TelemetrySettings { metrics: false });
    start_telemetry(&mut telemetry);
    telemetry.advance_flush_timer(2_000);
    assert_eq!(telemetry.detect_project_types(7, &entries), None);
    assert_eq!(telemetry.detect_project_types(8, &entries), Some(vec!["yarn".to_string()]));
    assert_eq!(telemetry.detect_project_types(7, &vec![entry_of("package.json")]), None);
}

#[test]
fn latest_settings_hold() {
    let mut telemetry = new_telemetry();
    for metrics in [true, false, false, true, false] {
        telemetry.settings_changed(TelemetrySettings { metrics });
        telemetry.report_event(test_event(), at_millis(0));
        telemetry.flush_events();
        start_telemetry(&mut telemetry);
        telemetry.set_authenticated_user_info(None, true);
        assert_eq!(telemetry.metrics_enabled(), metrics);
    }
}

#[test]
fn os_version_is_taken_over() {
    let mut telemetry = new_telemetry();
    let pending = pending_events(&mut telemetry, 1);
    match pending.begin(&telemetry, false) {
        FlushStep::SerializeBody(body) => assert_eq!(body.os_version, None),
        _ => panic!("there is no log file"),
    }
    telemetry.set_os_version("debian 12".to_string());
    assert_eq!(telemetry.state.os_version, Some("debian 12".to_string()));
    assert!(is_empty_state(&telemetry));
}
