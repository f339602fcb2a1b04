use animus_subject_zendesk::backend::ZendeskBackend;
use animus_subject_zendesk::config::ZendeskConfig;
use animus_subject_zendesk::http::{Method, Reply};
use animus_subject_zendesk::json::Json;
use animus_subject_zendesk::list::page_size;
use animus_subject_zendesk::native::NativeId;
use animus_subject_zendesk::protocol::{
    BackendError, CustomFieldKind, Subject, SubjectFilter, SubjectId, SubjectStatus, Timestamp,
};

const NOW: Timestamp = Timestamp { seconds: 2_000_000_000, nanos: 5 };

fn any() -> SubjectFilter {
    SubjectFilter {
        kind: vec![],
        status: vec![],
        assignee: vec![],
        labels_any: vec![],
        labels_all: vec![],
        updated_since: None,
        limit: None,
    }
}

fn texts(list: &[&str]) -> Vec<String> {
    list.iter().map(|s| s.to_string()).collect()
}

fn backend() -> ZendeskBackend {
    ZendeskBackend::new(ZendeskConfig::for_testing("https://example.zendesk.com"))
}

fn searching(query: &str) -> ZendeskBackend {
    let mut config = ZendeskConfig::for_testing("https://example.zendesk.com");
    config.query = Some(query.to_string());
    ZendeskBackend::new(config)
}

fn ticket(id: u64, status: &str, tags: &str, updated: &str) -> String {
    format!(
        "{{\"id\":{id},\"status\":\"{status}\",\"tags\":{tags},\"assignee_id\":{},\
         \"created_at\":\"2026-01-01T00:00:00Z\",\"updated_at\":\"{updated}\"}}",
        id * 10
    )
}

fn three_tickets() -> String {
    format!(
        "[{},{},{}]",
        ticket(1, "open", "[\"a\",\"b\"]", "2026-01-01T00:00:00Z"),
        ticket(2, "hold", "[\"b\"]", "2026-01-02T00:00:00Z"),
        ticket(3, "closed", "[]", "2026-01-03T00:00:00Z")
    )
}

fn received(text: String) -> Reply {
    Reply::Received { status: 200, text }
}

fn listed(filter: &SubjectFilter) -> Vec<String> {
    let reply = received(format!("{{\"tickets\":{}}}", three_tickets()));
    let list = backend().list_reply(filter, &reply, NOW).unwrap();
    assert_eq!(list.next_cursor, None);
    assert_eq!(list.fetched_at, NOW);
    list.subjects.iter().map(|subject| subject.id.as_str().to_string()).collect()
}

fn subject() -> Subject {
    let json = Json::parse(&ticket(4, "open", "[\"x\",\"y\"]", "2026-01-02T00:00:00Z")).unwrap();
    backend().ticket_to_subject(&json).unwrap()
}

#[test]
fn page_size_is_clamped() {
    assert_eq!(page_size(None), 50);
    assert_eq!(page_size(Some(0)), 1);
    assert_eq!(page_size(Some(1)), 1);
    assert_eq!(page_size(Some(100)), 100);
    assert_eq!(page_size(Some(101)), 100);
    assert_eq!(page_size(Some(u32::MAX)), 100);
}

#[test]
fn list_asks_for_the_last_updated_tickets() {
    let request = backend().list(&any()).unwrap();
    assert_eq!(request.method, Method::Get);
    assert_eq!(
        request.url,
        "https://example.zendesk.com/api/v2/tickets.json?per_page=50&sort_by=updated_at&sort_order=desc"
    );
    assert_eq!(request.body, None);
}

#[test]
fn list_asks_for_what_the_query_finds() {
    let filter = SubjectFilter { limit: Some(7), ..any() };
    let request = searching("type:ticket status<solved & é").list(&filter).unwrap();
    assert_eq!(
        request.url,
        "https://example.zendesk.com/api/v2/search.json?query=type%3Aticket%20status%3Csolved%20%26%20%C3%A9&per_page=7"
    );
}

#[test]
fn list_without_filter_gives_all_in_order() {
    assert_eq!(listed(&any()), ["zendesk:1", "zendesk:2", "zendesk:3"]);
}

#[test]
fn list_filters_by_status_assignee_and_kind() {
    let by_status = SubjectFilter {
        status: vec![SubjectStatus::Done, SubjectStatus::Blocked],
        ..any()
    };
    assert_eq!(listed(&by_status), ["zendesk:2", "zendesk:3"]);
    let by_assignee = SubjectFilter { assignee: texts(&["30", "10"]), ..any() };
    assert_eq!(listed(&by_assignee), ["zendesk:1", "zendesk:3"]);
    let by_kind = SubjectFilter { kind: texts(&["ticket"]), ..any() };
    assert_eq!(listed(&by_kind).len(), 3);
    let by_other_kind = SubjectFilter { kind: texts(&["issue"]), ..any() };
    assert!(listed(&by_other_kind).is_empty());
}

#[test]
fn list_filters_by_labels() {
    let any_label = SubjectFilter { labels_any: texts(&["a", "z"]), ..any() };
    assert_eq!(listed(&any_label), ["zendesk:1"]);
    let all_labels = SubjectFilter { labels_all: texts(&["b", "a"]), ..any() };
    assert_eq!(listed(&all_labels), ["zendesk:1"]);
    let one_label = SubjectFilter { labels_all: texts(&["b"]), ..any() };
    assert_eq!(listed(&one_label), ["zendesk:1", "zendesk:2"]);
}

#[test]
fn list_filters_by_time_inclusively() {
    let since = SubjectFilter {
        updated_since: Some(Timestamp { seconds: 1767312000, nanos: 0 }),
        ..any()
    };
    assert_eq!(listed(&since), ["zendesk:2", "zendesk:3"]);
    let after = SubjectFilter {
        updated_since: Some(Timestamp { seconds: 1767312000, nanos: 1 }),
        ..any()
    };
    assert_eq!(listed(&after), ["zendesk:3"]);
}

#[test]
fn unassigned_subject_fails_an_assignee_filter() {
    let filter = SubjectFilter { assignee: texts(&["40"]), ..any() };
    assert!(ZendeskBackend::subject_matches_filter(&subject(), &filter));
    let unassigned = Subject { assignee: None, ..subject() };
    assert!(!ZendeskBackend::subject_matches_filter(&unassigned, &filter));
    assert!(ZendeskBackend::subject_matches_filter(&unassigned, &any()));
}

#[test]
fn select_keeps_the_admitted() {
    let filter = SubjectFilter { labels_any: texts(&["x"]), ..any() };
    let unlabelled = Subject { labels: vec![], ..subject() };
    let selected = ZendeskBackend::select(vec![unlabelled, subject(), subject()], &filter);
    assert_eq!(selected, vec![subject(), subject()]);
}

#[test]
fn search_results_are_listed() {
    let reply = received(format!("{{\"results\":{}}}", three_tickets()));
    let list = searching("x").list_reply(&any(), &reply, NOW).unwrap();
    assert_eq!(list.subjects.len(), 3);
}

#[test]
fn list_needs_tickets_or_results() {
    for text in ["{}", "[]", "{\"tickets\":null,\"results\":[]}", "{\"results\":5}", ""] {
        assert_eq!(
            backend().list_reply(&any(), &received(text.to_string()), NOW),
            Err(BackendError::Other("Zendesk ticket list missing tickets/results".to_string())),
            "{text}"
        );
    }
}

#[test]
fn one_bad_ticket_fails_the_list() {
    let reply = received(format!(
        "{{\"tickets\":[{},{{\"x\":1}},{{\"y\":2}}]}}",
        ticket(1, "open", "[]", "2026-01-01T00:00:00Z")
    ));
    let filter = SubjectFilter { kind: texts(&["issue"]), ..any() };
    assert_eq!(
        backend().list_reply(&filter, &reply, NOW),
        Err(BackendError::Other("Zendesk ticket missing id: {\"x\":1}".to_string()))
    );
}

#[test]
fn refused_list_names_its_path() {
    let reply = Reply::Received { status: 404, text: String::new() };
    assert_eq!(
        backend().list_reply(&any(), &reply, NOW),
        Err(BackendError::NotFound(
            "/api/v2/tickets.json?per_page=50&sort_by=updated_at&sort_order=desc".to_string()
        ))
    );
}

#[test]
fn get_asks_for_the_ticket() {
    let request = backend().get(&SubjectId::new("zendesk:12345")).unwrap();
    assert_eq!(request.method, Method::Get);
    assert_eq!(request.url, "https://example.zendesk.com/api/v2/tickets/12345.json");
    assert_eq!(request.body, None);
    assert!(backend().get(&SubjectId::new("12345")).is_err());
}

#[test]
fn bad_id_comes_before_bad_configuration() {
    let unconfigured = ZendeskBackend::new(ZendeskConfig::for_testing(""));
    assert_eq!(
        unconfigured.get(&SubjectId::new("zendesk:x")),
        Err(BackendError::InvalidRequest("invalid Zendesk ticket id in zendesk:x".to_string()))
    );
    assert_eq!(
        unconfigured.get(&SubjectId::new("zendesk:1")),
        Err(BackendError::InvalidRequest(
            "ZENDESK_BASE_URL or ZENDESK_SUBDOMAIN must be set".to_string()
        ))
    );
}

#[test]
fn get_gives_the_ticket() {
    let text =
        format!("{{\"ticket\":{}}}", ticket(4, "open", "[\"x\",\"y\"]", "2026-01-02T00:00:00Z"));
    assert_eq!(backend().get_reply(NativeId { ticket_id: 4 }, &received(text)), Ok(subject()));
}

#[test]
fn get_needs_a_ticket() {
    assert_eq!(
        backend().get_reply(NativeId { ticket_id: 4 }, &received("{\"tickets\":[]}".to_string())),
        Err(BackendError::Other("Zendesk response missing ticket".to_string()))
    );
    assert_eq!(
        backend().get_reply(NativeId { ticket_id: 4 }, &Reply::Received { status: 404, text: String::new() }),
        Err(BackendError::NotFound("/api/v2/tickets/4.json".to_string()))
    );
}

#[test]
fn listed_subject_can_be_got() {
    let request = backend().get(&subject().id).unwrap();
    assert_eq!(request.url, "https://example.zendesk.com/api/v2/tickets/4.json");
}

#[test]
fn schema_is_of_tickets() {
    let schema = backend().schema();
    assert_eq!(schema.kinds, texts(&["ticket"]));
    assert_eq!(
        schema.status_values,
        vec![
            SubjectStatus::Ready,
            SubjectStatus::InProgress,
            SubjectStatus::Blocked,
            SubjectStatus::Done,
            SubjectStatus::Cancelled
        ]
    );
    assert!(!schema.supports_watch && !schema.supports_create && !schema.supports_pagination);
    assert_eq!(
        schema.native_status_values,
        texts(&["new", "open", "pending", "hold", "solved", "closed"])
    );
    assert!(schema.status_dispatch_hints.is_empty());
    let keys: Vec<&str> = schema.custom_fields.iter().map(|field| field.key.as_str()).collect();
    assert_eq!(keys, ["requester_id", "submitter_id", "group_id", "priority"]);
    assert!(schema.custom_fields[..3]
        .iter()
        .all(|field| field.kind == CustomFieldKind::Number && field.values.is_none()));
    assert_eq!(schema.custom_fields[3].kind, CustomFieldKind::String);
    assert_eq!(
        schema.custom_fields[3].values,
        Some(texts(&["low", "normal", "high", "urgent"]))
    );
}
