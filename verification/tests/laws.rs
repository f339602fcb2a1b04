use animus_subject_zendesk::backend::ZendeskBackend;
use animus_subject_zendesk::config::ZendeskConfig;
use animus_subject_zendesk::http::{Method, Reply};
use animus_subject_zendesk::json::Json;
use animus_subject_zendesk::native::{map_status, priority_from_native, status_to_native};
use animus_subject_zendesk::protocol::{
    CustomFieldKind, SubjectFilter, SubjectId, SubjectPatch, SubjectStatus,
};
use animus_subject_zendesk::update::UpdateStep;

fn backend() -> ZendeskBackend {
    ZendeskBackend::new(ZendeskConfig::for_testing("https://example.zendesk.com"))
}

#[test]
fn subject_fits_the_schema() {
    let ticket = Json::parse(
        "{\"id\":8,\"status\":\"hold\",\"priority\":\"low\",\"requester_id\":1,\"submitter_id\":2,\
         \"group_id\":3,\"created_at\":\"2026-01-01T00:00:00Z\",\"updated_at\":\"2026-01-01T00:00:00Z\"}",
    )
    .unwrap();
    let subject = backend().ticket_to_subject(&ticket).unwrap();
    let schema = backend().schema();
    assert!(schema.kinds.contains(&subject.kind));
    assert!(schema.status_values.contains(&subject.status));
    assert_eq!(subject.custom.entries().len(), 4);
    for (name, value) in subject.custom.entries() {
        let fields: Vec<_> = schema.custom_fields.iter().filter(|f| &f.key == name).collect();
        assert_eq!(fields.len(), 1, "{name}");
        match fields[0].kind {
            CustomFieldKind::Number => assert!(value.as_u64().is_some()),
            CustomFieldKind::String => assert!(value.as_str().is_some()),
        }
    }
}

#[test]
fn schema_agrees_with_watching() {
    let unconfigured = ZendeskBackend::new(ZendeskConfig::for_testing(""));
    assert_eq!(unconfigured.schema(), backend().schema());
    assert_eq!(backend().schema().supports_watch, backend().watch().is_some());
    assert_eq!(backend().watch(), None);
}

#[test]
fn statuses_fit_the_schema() {
    let schema = backend().schema();
    for status in schema.status_values {
        let native = status_to_native(status).to_string();
        assert!(schema.native_status_values.contains(&native));
        assert_eq!(status_to_native(map_status(&native)), native);
    }
    for native in schema.native_status_values {
        assert_eq!(map_status(&native) == SubjectStatus::Ready, native == "new");
        assert!(backend().schema().status_values.contains(&map_status(&native)));
    }
}

#[test]
fn priorities_of_the_schema_have_numbers() {
    let values = backend().schema().custom_fields.remove(3).values.unwrap();
    let numbers: Vec<Option<u8>> = values.iter().map(|value| priority_from_native(value)).collect();
    assert_eq!(numbers, [Some(1), Some(2), Some(3), Some(4)]);
    assert_eq!(priority_from_native("Low"), None);
}

#[test]
fn search_cannot_add_a_parameter() {
    let mut config = ZendeskConfig::for_testing("https://example.zendesk.com");
    config.query = Some("x&per_page=1000#?".to_string());
    let filter = SubjectFilter {
        kind: vec![],
        status: vec![],
        assignee: vec![],
        labels_any: vec![],
        labels_all: vec![],
        updated_since: None,
        limit: Some(3),
    };
    let url = ZendeskBackend::new(config).list(&filter).unwrap().url;
    assert_eq!(
        url,
        "https://example.zendesk.com/api/v2/search.json?query=x%26per_page%3D1000%23%3F&per_page=3"
    );
}

#[test]
fn update_makes_at_most_three_requests_and_one_write() {
    let reply = Reply::Received {
        status: 200,
        text: "{\"ticket\":{\"id\":5,\"created_at\":\"2026-01-01T00:00:00Z\",\
               \"updated_at\":\"2026-01-01T00:00:00Z\"}}"
            .to_string(),
    };
    let patch = SubjectPatch {
        status: Some(SubjectStatus::Cancelled),
        assignee: None,
        labels_add: vec![],
        labels_remove: vec![],
        comment: None,
    };
    let mut methods = Vec::new();
    let mut step = backend().update(&SubjectId::new("zendesk:5"), patch);
    loop {
        match step {
            UpdateStep::Send { request, state } => {
                assert_eq!(request.url, "https://example.zendesk.com/api/v2/tickets/5.json");
                methods.push(request.method);
                step = backend().update_reply(state, &reply);
            }
            UpdateStep::Finish(result) => {
                assert!(result.is_ok());
                break;
            }
        }
    }
    assert_eq!(methods, [Method::Get, Method::Put, Method::Get]);
}
