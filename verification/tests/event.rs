use client::event::{
    app_closed_event, assistant_event, edit_event, project_opened_event, AssistantEventData,
    AssistantPhase, EditPeriod, FlexibleEvent, PropertyValue,
};
use client::time::{period_millis, Instant};

fn assert_event(event: &FlexibleEvent, event_type: &str, properties: Vec<(&str, PropertyValue)>) {
    assert_eq!(event.event_type(), event_type);
    assert_eq!(event.properties().len(), properties.len());
    for (key, value) in &properties {
        assert_eq!(event.property(key), Some(value));
    }
}

fn text_value(text: &str) -> PropertyValue {
    PropertyValue::Text(text.to_string())
}

fn assistant_data(phase: AssistantPhase) -> AssistantEventData {
    AssistantEventData {
        conversation_id: text_value("conversation"),
        kind: text_value("panel"),
        phase,
        message_id: PropertyValue::Null,
        model: text_value("model"),
        model_provider: text_value("provider"),
        response_latency: PropertyValue::Json("{\"secs\":1,\"nanos\":5}".to_string()),
        error_message: PropertyValue::Null,
        language_name: text_value("Rust"),
    }
}

#[test]
fn assistant_event_carries_its_data() {
    assert_event(
        &assistant_event(assistant_data(AssistantPhase::Response)),
        "Assistant Responded",
        vec![
            ("conversation_id", text_value("conversation")),
            ("kind", text_value("panel")),
            ("phase", PropertyValue::Phase(AssistantPhase::Response)),
            ("message_id", PropertyValue::Null),
            ("model", text_value("model")),
            ("model_provider", text_value("provider")),
            (
                "response_latency",
                PropertyValue::Json("{\"secs\":1,\"nanos\":5}".to_string()),
            ),
            ("error_message", PropertyValue::Null),
            ("language_name", text_value("Rust")),
        ],
    );
}

#[test]
fn assistant_event_is_named_by_its_phase() {
    let cases = [
        (AssistantPhase::Response, "Assistant Responded"),
        (AssistantPhase::Invoked, "Assistant Invoked"),
        (AssistantPhase::Accepted, "Assistant Response Accepted"),
        (AssistantPhase::Rejected, "Assistant Response Rejected"),
    ];
    for (phase, name) in cases {
        assert_eq!(assistant_event(assistant_data(phase)).event_type(), name);
    }
}

#[test]
fn events_have_distinct_keys() {
    let period = EditPeriod {
        start: Instant { nanos: 0 },
        end: Instant { nanos: 1 },
        environment: "editor".to_string(),
    };
    for event in [assistant_event(assistant_data(AssistantPhase::Invoked)), edit_event(period, false)]
    {
        let mut keys: Vec<String> = event.properties().iter().map(|p| p.key.clone()).collect();
        let count = keys.len();
        keys.sort();
        keys.dedup();
        assert_eq!(keys.len(), count);
    }
}

#[test]
fn edit_event_reports_the_period() {
    let period = EditPeriod {
        start: Instant { nanos: 1_000_000 },
        end: Instant { nanos: 3_999_999 },
        environment: "editor".to_string(),
    };
    assert_event(
        &edit_event(period, true),
        "Editor Edited",
        vec![
            ("duration", PropertyValue::Integer(2)),
            ("environment", text_value("editor")),
            ("is_via_ssh", PropertyValue::Bool(true)),
        ],
    );
}

#[test]
fn other_events() {
    assert_event(
        &project_opened_event("node".to_string()),
        "Project Opened",
        vec![("project_type", text_value("node"))],
    );
    assert_event(&app_closed_event(), "App Closed", vec![]);
}

#[test]
fn a_key_keeps_its_last_value() {
    let event = FlexibleEvent::new("test".to_string())
        .with_property("a".to_string(), PropertyValue::Integer(1))
        .with_property("b".to_string(), PropertyValue::Bool(true))
        .with_property("c".to_string(), PropertyValue::Null)
        .with_property("b".to_string(), text_value("later"))
        .with_property("".to_string(), PropertyValue::Integer(-7));
    assert_event(
        &event,
        "test",
        vec![
            ("a", PropertyValue::Integer(1)),
            ("b", text_value("later")),
            ("c", PropertyValue::Null),
            ("", PropertyValue::Integer(-7)),
        ],
    );
    assert_eq!(event.property("d"), None);
    assert_eq!(FlexibleEvent::new("test".to_string()).property(""), None);
}

#[test]
fn periods_count_whole_milliseconds_up_to_a_day() {
    let at = |nanos: u128| Instant { nanos };
    let day: u128 = 24 * 60 * 60 * 1_000_000_000;
    assert_eq!(period_millis(at(5), at(5)), 0);
    assert_eq!(period_millis(at(0), at(999_999)), 0);
    assert_eq!(period_millis(at(0), at(1_000_000)), 1);
    assert_eq!(period_millis(at(7), at(day + 6)), 86_399_999);
    assert_eq!(period_millis(at(0), at(day)), 86_400_000);
    assert_eq!(period_millis(at(0), at(u128::MAX)), 86_400_000);
}

#[test]
fn period_is_empty_when_the_clock_steps_back() {
    assert_eq!(period_millis(Instant { nanos: 9_000_000 }, Instant { nanos: 1 }), 0);
}

#[test]
fn period_grows_with_time() {
    let mut last = 0;
    for step in 0..100u128 {
        let millis = period_millis(Instant { nanos: 3 }, Instant { nanos: step * 700_000 });
        assert!(millis >= last);
        last = millis;
    }
}
