use animus_subject_zendesk::backend::ZendeskBackend;
use animus_subject_zendesk::config::ZendeskConfig;
use animus_subject_zendesk::json::Json;
use animus_subject_zendesk::native::KIND_TICKET;
use animus_subject_zendesk::protocol::{BackendError, SubjectStatus, Timestamp};

fn string(s: &str) -> Json {
    Json::String(s.to_string())
}

fn object(entries: Vec<(&str, Json)>) -> Json {
    Json::Object(entries.into_iter().map(|(key, value)| (key.to_string(), value)).collect())
}

fn sample_entries() -> Vec<(&'static str, Json)> {
    vec![
        ("id", Json::Unsigned(42)),
        ("subject", string("Checkout is broken")),
        ("description", string("Customer cannot pay")),
        ("status", string("open")),
        ("priority", string("high")),
        ("url", string("https://example.zendesk.com/api/v2/tickets/42.json")),
        ("created_at", string("2026-05-28T00:00:00Z")),
        ("updated_at", string("2026-05-28T01:00:00Z")),
        ("tags", Json::Array(vec![string("checkout"), string("vip")])),
        ("assignee_id", Json::Unsigned(1234)),
        ("requester_id", Json::Unsigned(9876)),
        ("submitter_id", Json::Unsigned(9876)),
        ("group_id", Json::Unsigned(55)),
    ]
}

fn sample_ticket() -> Json {
    object(sample_entries())
}

fn sample_without(key: &str) -> Json {
    object(sample_entries().into_iter().filter(|(name, _)| *name != key).collect())
}

fn sample_with(key: &'static str, value: Json) -> Json {
    let mut entries = sample_entries();
    entries.push((key, value));
    object(entries)
}

fn backend() -> ZendeskBackend {
    ZendeskBackend::new(ZendeskConfig::for_testing("https://example.zendesk.com"))
}

fn other(words: &str) -> BackendError {
    BackendError::Other(words.to_string())
}

#[test]
fn ticket_maps_to_subject() {
    let backend =
        ZendeskBackend::new(ZendeskConfig::for_testing("https://example.zendesk.com"));
    let subject = backend.ticket_to_subject(&sample_ticket()).unwrap();
    assert_eq!(subject.id.as_str(), "zendesk:42");
    assert_eq!(subject.kind, KIND_TICKET);
    assert_eq!(subject.status, SubjectStatus::InProgress);
    assert_eq!(subject.priority, Some(3));
    assert_eq!(subject.assignee.as_deref(), Some("1234"));
    assert_eq!(
        subject.url.as_deref(),
        Some("https://example.zendesk.com/agent/tickets/42")
    );
}

#[test]
fn ticket_gives_the_rest_of_the_subject() {
    let subject = backend().ticket_to_subject(&sample_ticket()).unwrap();
    assert_eq!(subject.title, "Checkout is broken");
    assert_eq!(subject.description.as_deref(), Some("Customer cannot pay"));
    assert_eq!(subject.labels, vec!["checkout".to_string(), "vip".to_string()]);
    assert_eq!(subject.native_status.as_deref(), Some("open"));
    assert_eq!(subject.created_at, Timestamp { seconds: 1779926400, nanos: 0 });
    assert_eq!(subject.updated_at, Timestamp { seconds: 1779930000, nanos: 0 });
    assert_eq!(subject.parent, None);
    assert!(subject.children.is_empty());
    assert_eq!(subject.status_metadata, Json::Null);
    assert!(subject.attachments.is_empty());
}

#[test]
fn ticket_gives_custom_fields() {
    let subject = backend().ticket_to_subject(&sample_ticket()).unwrap();
    assert_eq!(
        subject.custom.entries(),
        &vec![
            ("group_id".to_string(), Json::Unsigned(55)),
            ("priority".to_string(), string("high")),
            ("requester_id".to_string(), Json::Unsigned(9876)),
            ("submitter_id".to_string(), Json::Unsigned(9876)),
        ]
    );
}

#[test]
fn bare_ticket_is_new_and_empty() {
    let ticket = object(vec![
        ("id", Json::Unsigned(7)),
        ("created_at", string("2026-05-28T00:00:00Z")),
        ("updated_at", string("2026-05-28T00:00:00Z")),
    ]);
    let subject = backend().ticket_to_subject(&ticket).unwrap();
    assert_eq!(subject.title, "");
    assert_eq!(subject.description, None);
    assert_eq!(subject.status, SubjectStatus::Ready);
    assert_eq!(subject.native_status.as_deref(), Some("new"));
    assert_eq!(subject.priority, None);
    assert_eq!(subject.assignee, None);
    assert!(subject.labels.is_empty());
    assert!(subject.custom.entries().is_empty());
}

#[test]
fn values_of_the_wrong_kind_count_as_missing() {
    let mut entries = sample_entries();
    entries.push(("tags", Json::Array(vec![string("a"), Json::Unsigned(1), Json::Null, string("b")])));
    entries.push(("assignee_id", string("1234")));
    entries.push(("status", Json::Null));
    entries.push(("description", string("")));
    entries.push(("priority", string("blocker")));
    entries.push(("group_id", Json::parse("-5").unwrap()));
    let subject = backend().ticket_to_subject(&object(entries)).unwrap();
    assert_eq!(subject.labels, vec!["a".to_string(), "b".to_string()]);
    assert_eq!(subject.assignee, None);
    assert_eq!(subject.native_status.as_deref(), Some("new"));
    assert_eq!(subject.description, None);
    assert_eq!(subject.priority, None);
    assert_eq!(
        subject.custom.entries(),
        &vec![
            ("priority".to_string(), string("blocker")),
            ("requester_id".to_string(), Json::Unsigned(9876)),
            ("submitter_id".to_string(), Json::Unsigned(9876)),
        ]
    );
}

#[test]
fn ticket_without_id_is_refused_and_shown() {
    let ticket = Json::parse("{\"subject\":\"x\",\"id\":-3.5,\"a\":null}").unwrap();
    assert_eq!(
        backend().ticket_to_subject(&ticket),
        Err(other("Zendesk ticket missing id: {\"a\":null,\"id\":-3.5,\"subject\":\"x\"}"))
    );
    assert!(backend().ticket_to_subject(&sample_without("id")).is_err());
    assert_eq!(
        backend().ticket_to_subject(&Json::Null),
        Err(other("Zendesk ticket missing id: null"))
    );
}

#[test]
fn ticket_without_times_is_refused() {
    let missing = Err(other("Zendesk ticket missing timestamp field"));
    assert_eq!(backend().ticket_to_subject(&sample_without("created_at")), missing);
    assert_eq!(backend().ticket_to_subject(&sample_without("updated_at")), missing);
}

#[test]
fn ticket_with_bad_time_is_refused() {
    let words = chrono::DateTime::parse_from_rfc3339("soon").unwrap_err().to_string();
    assert_eq!(
        backend().ticket_to_subject(&sample_with("updated_at", string("soon"))),
        Err(BackendError::Other(words))
    );
}

#[test]
fn describing_takes_the_given_id_and_times() {
    let created = Timestamp { seconds: 1, nanos: 2 };
    let updated = Timestamp { seconds: 3, nanos: 4 };
    let subject = backend().describe_ticket(&sample_ticket(), 9, created, updated);
    assert_eq!(subject.id.as_str(), "zendesk:9");
    assert_eq!(subject.url.as_deref(), Some("https://example.zendesk.com/agent/tickets/9"));
    assert_eq!(subject.created_at, created);
    assert_eq!(subject.updated_at, updated);
}
