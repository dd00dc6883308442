//! Events and what they carry.

use crate::time::{
    is_period_millis, period_is_counted, period_millis, period_millis_spec, Instant,
};
use vstd::prelude::*;

verus! {

/// The stages of an exchange with an assistant.
#[derive(Clone, Copy, Debug, PartialEq, Eq, Structural)]
pub enum AssistantPhase {
    Response,
    Invoked,
    Accepted,
    Rejected,
}

/// The value of a property of an event.
#[derive(Debug, PartialEq)]
pub enum PropertyValue {
    Null,
    Bool(bool),
    Integer(i64),
    Text(String),
    Phase(AssistantPhase),
    /// Any other value, written as JSON.
    Json(String),
}

/// A property value with its text as a sequence of characters.
pub enum PropertyValueView {
    Null,
    Bool(bool),
    Integer(int),
    Text(Seq<char>),
    Phase(AssistantPhase),
    Json(Seq<char>),
}

impl View for PropertyValue {
    type V = PropertyValueView;

    open spec fn view(&self) -> PropertyValueView {
        match *self {
            PropertyValue::Null => PropertyValueView::Null,
            PropertyValue::Bool(value) => PropertyValueView::Bool(value),
            PropertyValue::Integer(value) => PropertyValueView::Integer(value as int),
            PropertyValue::Text(value) => PropertyValueView::Text(value@),
            PropertyValue::Phase(value) => PropertyValueView::Phase(value),
            PropertyValue::Json(value) => PropertyValueView::Json(value@),
        }
    }
}

/// A named value that an event carries.
#[derive(Debug, PartialEq)]
pub struct Property {
    pub key: String,
    pub value: PropertyValue,
}

impl View for Property {
    type V = (Seq<char>, PropertyValueView);

    open spec fn view(&self) -> (Seq<char>, PropertyValueView) {
        (self.key@, self.value@)
    }
}

/// What a list of properties amounts to: each key with its last value.
pub open spec fn properties_map(properties: Seq<Property>) -> Map<Seq<char>, PropertyValueView>
    decreases properties.len(),
{
    if properties.len() == 0 {
        Map::empty()
    } else {
        properties_map(properties.drop_last()).insert(
            properties.last().key@,
            properties.last().value@,
        )
    }
}

/// Whether every key occurs once at most.
pub open spec fn has_distinct_keys(properties: Seq<Property>) -> bool {
    forall|i: int, j: int|
        0 <= i < j < properties.len() ==> (#[trigger] properties[i]).key@ != (
        #[trigger] properties[j]).key@
}

/// An event with properties of its own choosing, no two of which have the same
/// key.
#[derive(Debug)]
pub struct FlexibleEvent {
    event_type: String,
    event_properties: Vec<Property>,
}

/// An event with its text as a sequence of characters, and its properties by
/// their keys.
#[verifier::ext_equal]
pub struct FlexibleEventView {
    pub event_type: Seq<char>,
    pub event_properties: Map<Seq<char>, PropertyValueView>,
}

impl View for FlexibleEvent {
    type V = FlexibleEventView;

    closed spec fn view(&self) -> FlexibleEventView {
        FlexibleEventView {
            event_type: self.event_type@,
            event_properties: properties_map(self.event_properties@),
        }
    }
}

impl FlexibleEvent {
    #[verifier::type_invariant]
    spec fn keys_are_distinct(self) -> bool {
        has_distinct_keys(self.event_properties@)
    }

    /// An event without properties.
    pub fn new(event_type: String) -> (event: FlexibleEvent)
        ensures
            event@ == (FlexibleEventView {
                event_type: event_type@,
                event_properties: Map::empty(),
            }),
    {
        FlexibleEvent { event_type, event_properties: Vec::new() }
    }

    /// This event with one more property. A property that has the key already
    /// gives way to it.
    pub fn with_property(self, key: String, value: PropertyValue) -> (event: FlexibleEvent)
        ensures
            event@ == (FlexibleEventView {
                event_type: self@.event_type,
                event_properties: self@.event_properties.insert(key@, value@),
            }),
    {
        proof {
            use_type_invariant(&self);
        }
        let mut event_properties = self.event_properties;
        let ghost before = event_properties@;
        match position(&event_properties, key.as_str()) {
            Some(at) => {
                proof {
                    lemma_update_property(before, at as int, Property { key, value });
                }
                event_properties.set(at, Property { key, value });
            },
            None => {
                event_properties.push(Property { key, value });
                assert(event_properties@.drop_last() == before);
            },
        }
        FlexibleEvent { event_type: self.event_type, event_properties }
    }

    /// What the event is called.
    pub fn event_type(&self) -> (event_type: &String)
        ensures
            event_type@ == self@.event_type,
    {
        &self.event_type
    }

    /// The value of the property with this key.
    pub fn property(&self, key: &str) -> (value: Option<&PropertyValue>)
        ensures
            match value {
                Some(value) => self@.event_properties.contains_key(key@)
                    && self@.event_properties[key@] == value@,
                None => !self@.event_properties.contains_key(key@),
            },
    {
        proof {
            use_type_invariant(self);
        }
        match position(&self.event_properties, key) {
            Some(at) => {
                proof {
                    lemma_property_at(self.event_properties@, at as int);
                }
                Some(&self.event_properties[at].value)
            },
            None => None,
        }
    }

    /// All properties, each key once.
    pub fn properties(&self) -> (properties: &Vec<Property>)
        ensures
            properties_map(properties@) == self@.event_properties,
            has_distinct_keys(properties@),
    {
        proof {
            use_type_invariant(self);
        }
        &self.event_properties
    }
}

/// Where the property with a key stands, if there is one.
fn position(properties: &Vec<Property>, key: &str) -> (at: Option<usize>)
    ensures
        match at {
            Some(at) => at < properties@.len() && properties@[at as int].key@ == key@,
            None => {
                &&& !properties_map(properties@).contains_key(key@)
                &&& forall|i: int|
                    0 <= i < properties@.len() ==> (#[trigger] properties@[i]).key@ != key@
            },
        },
{
    let wanted = key.to_string();
    for i in 0..properties.len()
        invariant
            wanted@ == key@,
            forall|k: int| 0 <= k < i ==> (#[trigger] properties@[k]).key@ != key@,
            !properties_map(properties@.take(i as int)).contains_key(key@),
    {
        if properties[i].key == wanted {
            return Some(i);
        }
        assert(properties@.take(i + 1).drop_last() == properties@.take(i as int));
    }
    assert(properties@.take(properties@.len() as int) == properties@);
    None
}

/// Among properties with distinct keys each one is found by its key.
proof fn lemma_property_at(properties: Seq<Property>, at: int)
    requires
        has_distinct_keys(properties),
        0 <= at < properties.len(),
    ensures
        properties_map(properties).contains_key(properties[at].key@),
        properties_map(properties)[properties[at].key@] == properties[at].value@,
    decreases properties.len(),
{
    if at < properties.len() - 1 {
        lemma_property_at(properties.drop_last(), at);
        assert(properties[at].key@ != properties[properties.len() - 1].key@);
    }
}

/// A property that takes the place of one with the same key gives the key its
/// value.
proof fn lemma_update_property(properties: Seq<Property>, at: int, property: Property)
    requires
        has_distinct_keys(properties),
        0 <= at < properties.len(),
        properties[at].key@ == property.key@,
    ensures
        has_distinct_keys(properties.update(at, property)),
        properties_map(properties.update(at, property)) == properties_map(properties).insert(
            property.key@,
            property.value@,
        ),
    decreases properties.len(),
{
    let updated = properties.update(at, property);
    let last = properties.len() - 1;
    if at < last {
        lemma_update_property(properties.drop_last(), at, property);
        assert(updated.drop_last() == properties.drop_last().update(at, property));
        assert(properties[at].key@ != properties[last].key@);
        let rest = properties_map(properties.drop_last());
        assert(rest.insert(property.key@, property.value@).insert(
            properties[last].key@,
            properties[last].value@,
        ) == rest.insert(properties[last].key@, properties[last].value@).insert(
            property.key@,
            property.value@,
        ));
    } else {
        assert(updated.drop_last() == properties.drop_last());
        let rest = properties_map(properties.drop_last());
        assert(rest.insert(property.key@, properties[at].value@).insert(
            property.key@,
            property.value@,
        ) == rest.insert(property.key@, property.value@));
    }
    assert(has_distinct_keys(updated));
}

/// What can be reported.
#[derive(Debug)]
pub enum Event {
    Flexible(FlexibleEvent),
}

/// An event as it waits for the next flush.
#[derive(Debug)]
pub struct EventWrapper {
    pub signed_in: bool,
    pub milliseconds_since_first_event: i64,
    pub event: Event,
}

/// What is known of an exchange with an assistant. All but its phase is carried
/// along as it is.
pub struct AssistantEventData {
    pub conversation_id: PropertyValue,
    pub kind: PropertyValue,
    pub phase: AssistantPhase,
    pub message_id: PropertyValue,
    pub model: PropertyValue,
    pub model_provider: PropertyValue,
    pub response_latency: PropertyValue,
    pub error_message: PropertyValue,
    pub language_name: PropertyValue,
}

/// What the event of each phase is called.
pub open spec fn assistant_event_type(phase: AssistantPhase) -> Seq<char> {
    match phase {
        AssistantPhase::Response => "Assistant Responded"@,
        AssistantPhase::Invoked => "Assistant Invoked"@,
        AssistantPhase::Accepted => "Assistant Response Accepted"@,
        AssistantPhase::Rejected => "Assistant Response Rejected"@,
    }
}

/// The event that reports an exchange with an assistant.
pub open spec fn assistant_event_spec(data: AssistantEventData) -> FlexibleEventView {
    FlexibleEventView {
        event_type: assistant_event_type(data.phase),
        event_properties: map![
            "conversation_id"@ => data.conversation_id@,
            "kind"@ => data.kind@,
            "phase"@ => PropertyValueView::Phase(data.phase),
            "message_id"@ => data.message_id@,
            "model"@ => data.model@,
            "model_provider"@ => data.model_provider@,
            "response_latency"@ => data.response_latency@,
            "error_message"@ => data.error_message@,
            "language_name"@ => data.language_name@,
        ],
    }
}

/// Makes the event that reports an exchange with an assistant.
pub fn assistant_event(data: AssistantEventData) -> (event: FlexibleEvent)
    ensures
        event@ == assistant_event_spec(data),
{
    let event_type = match data.phase {
        AssistantPhase::Response => "Assistant Responded",
        AssistantPhase::Invoked => "Assistant Invoked",
        AssistantPhase::Accepted => "Assistant Response Accepted",
        AssistantPhase::Rejected => "Assistant Response Rejected",
    };
    FlexibleEvent::new(event_type.to_string())
        .with_property("conversation_id".to_string(), data.conversation_id)
        .with_property("kind".to_string(), data.kind)
        .with_property("phase".to_string(), PropertyValue::Phase(data.phase))
        .with_property("message_id".to_string(), data.message_id)
        .with_property("model".to_string(), data.model)
        .with_property("model_provider".to_string(), data.model_provider)
        .with_property("response_latency".to_string(), data.response_latency)
        .with_property("error_message".to_string(), data.error_message)
        .with_property("language_name".to_string(), data.language_name)
}

/// A stretch of editing in one environment that has come to an end.
pub struct EditPeriod {
    pub start: Instant,
    pub end: Instant,
    pub environment: String,
}

/// The event that reports a stretch of editing.
pub open spec fn edit_event_spec(period: EditPeriod, is_via_ssh: bool) -> FlexibleEventView {
    FlexibleEventView {
        event_type: "Editor Edited"@,
        event_properties: map![
            "duration"@ => PropertyValueView::Integer(
                period_millis_spec(period.start, period.end),
            ),
            "environment"@ => PropertyValueView::Text(period.environment@),
            "is_via_ssh"@ => PropertyValueView::Bool(is_via_ssh),
        ],
    }
}

/// Makes the event that reports a stretch of editing.
pub fn edit_event(period: EditPeriod, is_via_ssh: bool) -> (event: FlexibleEvent)
    ensures
        event@ == edit_event_spec(period, is_via_ssh),
{
    let duration = period_millis(period.start, period.end);
    FlexibleEvent::new("Editor Edited".to_string())
        .with_property("duration".to_string(), PropertyValue::Integer(duration))
        .with_property("environment".to_string(), PropertyValue::Text(period.environment))
        .with_property("is_via_ssh".to_string(), PropertyValue::Bool(is_via_ssh))
}

/// The event that reports a project of some kind.
pub open spec fn project_opened_event_spec(project_type: Seq<char>) -> FlexibleEventView {
    FlexibleEventView {
        event_type: "Project Opened"@,
        event_properties: map!["project_type"@ => PropertyValueView::Text(project_type)],
    }
}

/// Makes the event that reports a project of some kind.
pub fn project_opened_event(project_type: String) -> (event: FlexibleEvent)
    ensures
        event@ == project_opened_event_spec(project_type@),
{
    FlexibleEvent::new("Project Opened".to_string())
        .with_property("project_type".to_string(), PropertyValue::Text(project_type))
}

/// The event that reports the end of the program.
pub open spec fn app_closed_event_spec() -> FlexibleEventView {
    FlexibleEventView { event_type: "App Closed"@, event_properties: Map::empty() }
}

/// Makes the event that reports the end of the program.
pub fn app_closed_event() -> (event: FlexibleEvent)
    ensures
        event@ == app_closed_event_spec(),
{
    FlexibleEvent::new("App Closed".to_string())
}

/// An event about an assistant carries everything that is known of the exchange,
/// each part under its own key, and nothing else.
pub proof fn assistant_event_carries_all(data: AssistantEventData)
    ensures
        ({
            let properties = assistant_event_spec(data).event_properties;
            &&& properties["conversation_id"@] == data.conversation_id@
            &&& properties["kind"@] == data.kind@
            &&& properties["phase"@] == PropertyValueView::Phase(data.phase)
            &&& properties["message_id"@] == data.message_id@
            &&& properties["model"@] == data.model@
            &&& properties["model_provider"@] == data.model_provider@
            &&& properties["response_latency"@] == data.response_latency@
            &&& properties["error_message"@] == data.error_message@
            &&& properties["language_name"@] == data.language_name@
            &&& properties.dom().len() == 9
        }),
{
    reveal_strlit("conversation_id");
    reveal_strlit("kind");
    reveal_strlit("phase");
    reveal_strlit("message_id");
    reveal_strlit("model");
    reveal_strlit("model_provider");
    reveal_strlit("response_latency");
    reveal_strlit("error_message");
    reveal_strlit("language_name");
    assert("conversation_id"@.len() == 15);
    assert("kind"@.len() == 4);
    assert("phase"@.len() == 5);
    assert("message_id"@.len() == 10);
    assert("model"@.len() == 5);
    assert("model_provider"@.len() == 14);
    assert("response_latency"@.len() == 16);
    assert("error_message"@.len() == 13);
    assert("language_name"@.len() == 13);
    assert("phase"@[0] == 'p' && "model"@[0] == 'm');
    assert("error_message"@[0] == 'e' && "language_name"@[0] == 'l');
}

/// An event about editing carries the length of the stretch, where it was and
/// over which connection, each under its own key, and nothing else.
pub proof fn edit_event_carries_all(period: EditPeriod, is_via_ssh: bool)
    ensures
        ({
            let properties = edit_event_spec(period, is_via_ssh).event_properties;
            &&& properties["duration"@] == PropertyValueView::Integer(
                period_millis_spec(period.start, period.end),
            )
            &&& properties["environment"@] == PropertyValueView::Text(period.environment@)
            &&& properties["is_via_ssh"@] == PropertyValueView::Bool(is_via_ssh)
            &&& properties.dom().len() == 3
        }),
{
    reveal_strlit("duration");
    reveal_strlit("environment");
    reveal_strlit("is_via_ssh");
    assert("duration"@.len() == 8);
    assert("environment"@.len() == 11);
    assert("is_via_ssh"@.len() == 10);
}

/// What a value stands for is its content: its kind, and what it holds.
pub proof fn values_are_told_apart(left: PropertyValue, right: PropertyValue)
    ensures
        left is Null ==> left@ is Null,
        left matches PropertyValue::Bool(value) ==> left@ == PropertyValueView::Bool(value),
        left matches PropertyValue::Integer(value) ==> left@ == PropertyValueView::Integer(
            value as int,
        ),
        left matches PropertyValue::Text(value) ==> left@ == PropertyValueView::Text(value@),
        left matches PropertyValue::Phase(value) ==> left@ == PropertyValueView::Phase(value),
        left matches PropertyValue::Json(value) ==> left@ == PropertyValueView::Json(value@),
        left@ == right@ ==> {
            &&& left is Null <==> right is Null
            &&& left is Bool <==> right is Bool
            &&& left is Integer <==> right is Integer
            &&& left is Text <==> right is Text
            &&& left is Phase <==> right is Phase
            &&& left is Json <==> right is Json
        },
{
}

/// A new event is called as it was asked to be, and has no property.
pub proof fn new_event_has_no_property(
    event_type: String,
    event: FlexibleEvent,
    name: &String,
    key: &str,
    found: Option<&PropertyValue>,
)
    requires
        call_ensures(FlexibleEvent::new, (event_type,), event),
        call_ensures(FlexibleEvent::event_type, (&event,), name),
        call_ensures(FlexibleEvent::property, (&event, key), found),
    ensures
        name@ == event_type@,
        event@.event_type == event_type@,
        found is None,
{
}

/// A property that was put into an event is found under its key, whatever was found
/// there before. What is found under every other key stays, and so does what the
/// event is called.
pub proof fn property_is_read_back(
    before: FlexibleEvent,
    key: String,
    value: PropertyValue,
    after: FlexibleEvent,
    name_before: &String,
    name_after: &String,
    other: &str,
    found_before: Option<&PropertyValue>,
    found_after: Option<&PropertyValue>,
)
    requires
        call_ensures(FlexibleEvent::with_property, (before, key, value), after),
        call_ensures(FlexibleEvent::event_type, (&before,), name_before),
        call_ensures(FlexibleEvent::event_type, (&after,), name_after),
        call_ensures(FlexibleEvent::property, (&before, other), found_before),
        call_ensures(FlexibleEvent::property, (&after, other), found_after),
    ensures
        name_after@ == name_before@,
        other@ == key@ ==> found_after is Some && found_after->0@ == value@,
        other@ != key@ ==> (found_after is Some <==> found_before is Some),
        other@ != key@ ==> (found_after is Some ==> found_after->0@ == found_before->0@),
{
}

/// The list of all properties holds exactly those that are found by their keys.
pub proof fn all_properties_are_listed(
    event: FlexibleEvent,
    all: &Vec<Property>,
    key: &str,
    found: Option<&PropertyValue>,
)
    requires
        call_ensures(FlexibleEvent::properties, (&event,), all),
        call_ensures(FlexibleEvent::property, (&event, key), found),
    ensures
        found is Some <==> exists|i: int|
            0 <= i < all@.len() && (#[trigger] all@[i]).key@ == key@,
        forall|i: int|
            0 <= i < all@.len() && (#[trigger] all@[i]).key@ == key@ ==> found is Some && found->0@
                == all@[i].value@,
        forall|i: int, j: int|
            0 <= i < j < all@.len() ==> (#[trigger] all@[i]).key@ != (#[trigger] all@[j]).key@,
{
    assert forall|i: int| 0 <= i < all@.len() && (#[trigger] all@[i]).key@ == key@ implies found
        is Some && found->0@ == all@[i].value@ by {
        lemma_property_at(all@, i);
    }
    if found is Some {
        lemma_key_is_listed(all@, key@);
    }
}

proof fn lemma_key_is_listed(properties: Seq<Property>, key: Seq<char>)
    requires
        properties_map(properties).contains_key(key),
    ensures
        exists|i: int| 0 <= i < properties.len() && (#[trigger] properties[i]).key@ == key,
    decreases properties.len(),
{
    if properties.last().key@ == key {
        assert(properties[properties.len() - 1].key@ == key);
    } else {
        lemma_key_is_listed(properties.drop_last(), key);
        let i = choose|i: int|
            0 <= i < properties.len() - 1 && (#[trigger] properties.drop_last()[i]).key@ == key;
        assert(properties[i].key@ == key);
    }
}

/// An event about an assistant is called by the phase of the exchange alone, and
/// has one property for each thing that is known of it.
pub proof fn assistant_event_reports_exchange(data: AssistantEventData, event: FlexibleEvent)
    requires
        call_ensures(assistant_event, (data,), event),
    ensures
        is_report_of_exchange(event@, data),
{
    assistant_event_carries_all(data);
}

/// Whether an event reports an exchange with an assistant.
pub open spec fn is_report_of_exchange(event: FlexibleEventView, data: AssistantEventData) -> bool {
    &&& data.phase == AssistantPhase::Response ==> event.event_type == "Assistant Responded"@
    &&& data.phase == AssistantPhase::Invoked ==> event.event_type == "Assistant Invoked"@
    &&& data.phase == AssistantPhase::Accepted ==> event.event_type
        == "Assistant Response Accepted"@
    &&& data.phase == AssistantPhase::Rejected ==> event.event_type
        == "Assistant Response Rejected"@
    &&& has_property(event, "conversation_id"@, data.conversation_id@)
    &&& has_property(event, "kind"@, data.kind@)
    &&& has_property(event, "phase"@, PropertyValueView::Phase(data.phase))
    &&& has_property(event, "message_id"@, data.message_id@)
    &&& has_property(event, "model"@, data.model@)
    &&& has_property(event, "model_provider"@, data.model_provider@)
    &&& has_property(event, "response_latency"@, data.response_latency@)
    &&& has_property(event, "error_message"@, data.error_message@)
    &&& has_property(event, "language_name"@, data.language_name@)
    &&& event.event_properties.dom().len() == 9
}

/// Whether an event has a property with this key and this value.
pub open spec fn has_property(
    event: FlexibleEventView,
    key: Seq<char>,
    value: PropertyValueView,
) -> bool {
    event.event_properties.contains_key(key) && event.event_properties[key] == value
}

/// An event about editing reports the whole milliseconds of the stretch, up to a
/// day, where it was, and over which connection.
pub proof fn edit_event_reports_stretch(
    period: EditPeriod,
    is_via_ssh: bool,
    event: FlexibleEvent,
)
    requires
        call_ensures(edit_event, (period, is_via_ssh), event),
    ensures
        is_report_of_stretch(event@, period, is_via_ssh),
{
    edit_event_carries_all(period, is_via_ssh);
    period_is_counted(period.start, period.end);
}

/// Whether an event reports a stretch of editing.
pub open spec fn is_report_of_stretch(
    event: FlexibleEventView,
    period: EditPeriod,
    is_via_ssh: bool,
) -> bool {
    &&& event.event_type == "Editor Edited"@
    &&& event.event_properties.contains_key("duration"@)
    &&& event.event_properties["duration"@] matches PropertyValueView::Integer(millis)
        && is_period_millis(period.start, period.end, millis)
    &&& has_property(event, "environment"@, PropertyValueView::Text(period.environment@))
    &&& has_property(event, "is_via_ssh"@, PropertyValueView::Bool(is_via_ssh))
    &&& event.event_properties.dom().len() == 3
}

/// An event about a project names its kind, and says nothing else. An event about
/// the end of the program says nothing but that.
pub proof fn other_events_report_one_thing(
    project_type: String,
    opened: FlexibleEvent,
    closed: FlexibleEvent,
)
    requires
        call_ensures(project_opened_event, (project_type,), opened),
        call_ensures(app_closed_event, (), closed),
    ensures
        opened@.event_type == "Project Opened"@,
        has_property(opened@, "project_type"@, PropertyValueView::Text(project_type@)),
        opened@.event_properties.dom().len() == 1,
        closed@.event_type == "App Closed"@,
        closed@.event_properties.dom().len() == 0,
{
}

} // verus!
