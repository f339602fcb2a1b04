use animus_subject_zendesk::backend::ZendeskBackend;
use animus_subject_zendesk::config::ZendeskConfig;
use animus_subject_zendesk::http::{HttpRequest, Method, Reply};
use animus_subject_zendesk::labels::merge_labels;
use animus_subject_zendesk::native::NativeId;
use animus_subject_zendesk::protocol::{BackendError, SubjectId, SubjectPatch, SubjectStatus};
use animus_subject_zendesk::update::{fields_to_write, UpdateState, UpdateStep};

const URL: &str = "https://example.zendesk.com/api/v2/tickets/42.json";

fn nothing() -> SubjectPatch {
    SubjectPatch {
        status: None,
        assignee: None,
        labels_add: vec![],
        labels_remove: vec![],
        comment: None,
    }
}

fn texts(list: &[&str]) -> Vec<String> {
    list.iter().map(|s| s.to_string()).collect()
}

fn backend() -> ZendeskBackend {
    ZendeskBackend::new(ZendeskConfig::for_testing("https://example.zendesk.com"))
}

fn ticket(status: &str) -> Reply {
    Reply::Received {
        status: 200,
        text: format!(
            "{{\"ticket\":{{\"id\":42,\"status\":\"{status}\",\"tags\":[\"vip\",\"checkout\"],\
             \"created_at\":\"2026-05-28T00:00:00Z\",\"updated_at\":\"2026-05-28T01:00:00Z\"}}}}"
        ),
    }
}

fn written(patch: &SubjectPatch) -> String {
    let fields = fields_to_write(&texts(&["vip", "checkout"]), patch).unwrap();
    fields.into_json().to_text()
}

fn sent(step: UpdateStep) -> (HttpRequest, UpdateState) {
    match step {
        UpdateStep::Send { request, state } => (request, state),
        UpdateStep::Finish(result) => panic!("finished with {:?}", result),
    }
}

#[test]
fn merging_sorts_and_drops_repeats() {
    assert_eq!(
        merge_labels(&texts(&["vip", "b", "b"]), &texts(&["a", "vip"]), &texts(&[])),
        texts(&["a", "b", "vip"])
    );
    assert_eq!(merge_labels(&texts(&[]), &texts(&[]), &texts(&["x"])), texts(&[]));
}

#[test]
fn merging_orders_like_a_set_of_strings() {
    let labels = texts(&["b", "B", "é", "", "z", "\u{ffff}", "\u{10000}", "ba"]);
    let sorted: std::collections::BTreeSet<String> = labels.iter().cloned().collect();
    assert_eq!(
        merge_labels(&labels, &texts(&[]), &texts(&[])),
        sorted.into_iter().collect::<Vec<_>>()
    );
}

#[test]
fn removing_wins_over_adding() {
    assert_eq!(
        merge_labels(&texts(&["a", "b"]), &texts(&["c", "a"]), &texts(&["a", "c", "q"])),
        texts(&["b"])
    );
}

#[test]
fn merging_twice_is_merging_once() {
    let add = texts(&["n", "a"]);
    let remove = texts(&["vip", "n"]);
    let once = merge_labels(&texts(&["vip", "x"]), &add, &remove);
    assert_eq!(merge_labels(&once, &add, &remove), once);
}

#[test]
fn empty_patch_writes_nothing() {
    assert_eq!(written(&nothing()), "{}");
    assert_eq!(written(&SubjectPatch { comment: Some(String::new()), ..nothing() }), "{}");
}

#[test]
fn each_part_of_a_patch_is_written() {
    assert_eq!(
        written(&SubjectPatch { status: Some(SubjectStatus::Done), ..nothing() }),
        "{\"status\":\"solved\"}"
    );
    assert_eq!(
        written(&SubjectPatch { assignee: Some(Some("77".to_string())), ..nothing() }),
        "{\"assignee_id\":77}"
    );
    assert_eq!(
        written(&SubjectPatch { assignee: Some(None), ..nothing() }),
        "{\"assignee_id\":null}"
    );
    assert_eq!(
        written(&SubjectPatch { labels_add: texts(&["new"]), ..nothing() }),
        "{\"tags\":[\"checkout\",\"new\",\"vip\"]}"
    );
    assert_eq!(
        written(&SubjectPatch { labels_remove: texts(&["vip", "checkout"]), ..nothing() }),
        "{\"tags\":[]}"
    );
    assert_eq!(
        written(&SubjectPatch { comment: Some("hi".to_string()), ..nothing() }),
        "{\"comment\":{\"body\":\"hi\",\"public\":false}}"
    );
}

#[test]
fn assignee_must_be_a_number() {
    for raw in ["", "me", "-1", "1.0"] {
        let patch = SubjectPatch { assignee: Some(Some(raw.to_string())), ..nothing() };
        assert_eq!(
            fields_to_write(&vec![], &patch),
            Err(BackendError::InvalidRequest(
                "Zendesk assignee must be a numeric user id".to_string()
            ))
        );
    }
}

#[test]
fn update_reads_writes_and_reads_again() {
    let patch = SubjectPatch {
        status: Some(SubjectStatus::Blocked),
        assignee: Some(Some("5".to_string())),
        labels_add: texts(&["urgent"]),
        labels_remove: texts(&["vip"]),
        comment: Some("looking".to_string()),
    };
    let (first, state) = sent(backend().update(&SubjectId::new("zendesk:42"), patch));
    assert_eq!((first.method, first.url.as_str()), (Method::Get, URL));
    assert_eq!(first.body, None);

    let (second, state) = sent(backend().update_reply(state, &ticket("open")));
    assert_eq!((second.method, second.url.as_str()), (Method::Put, URL));
    assert_eq!(
        second.body.unwrap().to_text(),
        "{\"ticket\":{\"assignee_id\":5,\"comment\":{\"body\":\"looking\",\"public\":false},\
         \"status\":\"pending\",\"tags\":[\"checkout\",\"urgent\"]}}"
    );

    let (third, state) = sent(
        backend().update_reply(state, &Reply::Received { status: 200, text: String::new() }),
    );
    assert_eq!((third.method, third.url.as_str()), (Method::Get, URL));

    match backend().update_reply(state, &ticket("pending")) {
        UpdateStep::Finish(Ok(subject)) => assert_eq!(subject.status, SubjectStatus::Blocked),
        other => panic!("{:?}", other),
    }
}

#[test]
fn update_with_nothing_to_write_only_reads() {
    let (_, state) = sent(backend().update(&SubjectId::new("zendesk:42"), nothing()));
    let (request, state) = sent(backend().update_reply(state, &ticket("open")));
    assert_eq!((request.method, request.url.as_str()), (Method::Get, URL));
    assert_eq!(state, UpdateState::Rereading { native: NativeId { ticket_id: 42 } });
}

#[test]
fn update_of_a_bad_id_sends_nothing() {
    assert_eq!(
        backend().update(&SubjectId::new("zendesk:?"), nothing()),
        UpdateStep::Finish(Err(BackendError::InvalidRequest(
            "invalid Zendesk ticket id in zendesk:?".to_string()
        )))
    );
}

#[test]
fn unconfigured_update_sends_nothing() {
    let unconfigured = ZendeskBackend::new(ZendeskConfig::for_testing(""));
    assert!(matches!(
        unconfigured.update(&SubjectId::new("zendesk:42"), nothing()),
        UpdateStep::Finish(Err(BackendError::InvalidRequest(_)))
    ));
}

#[test]
fn update_of_a_missing_ticket_ends_before_writing() {
    let (_, state) = sent(backend().update(&SubjectId::new("zendesk:42"), nothing()));
    assert_eq!(
        backend().update_reply(state, &Reply::Received { status: 404, text: String::new() }),
        UpdateStep::Finish(Err(BackendError::NotFound("/api/v2/tickets/42.json".to_string())))
    );
}

#[test]
fn update_with_a_bad_assignee_ends_after_reading() {
    let patch = SubjectPatch { assignee: Some(Some("me".to_string())), ..nothing() };
    let (_, state) = sent(backend().update(&SubjectId::new("zendesk:42"), patch));
    assert_eq!(
        backend().update_reply(state, &ticket("open")),
        UpdateStep::Finish(Err(BackendError::InvalidRequest(
            "Zendesk assignee must be a numeric user id".to_string()
        )))
    );
}

#[test]
fn refused_write_ends_the_update() {
    let state = UpdateState::Writing { native: NativeId { ticket_id: 42 } };
    assert_eq!(
        backend().update_reply(state, &Reply::Received { status: 422, text: "bad".to_string() }),
        UpdateStep::Finish(Err(BackendError::Unavailable(
            "Zendesk API returned 422 Unprocessable Entity: bad".to_string()
        )))
    );
    let state = UpdateState::Writing { native: NativeId { ticket_id: 42 } };
    assert!(matches!(
        backend().update_reply(state, &Reply::Received { status: 200, text: "<ok>".to_string() }),
        UpdateStep::Finish(Err(BackendError::Other(_)))
    ));
}
