use animus_subject_zendesk::json::Json;
use animus_subject_zendesk::native::{
    map_status, parse_ts, priority_from_native, status_to_native, NativeId,
};
use animus_subject_zendesk::protocol::{BackendError, SubjectId, SubjectStatus, Timestamp};

fn string(s: &str) -> Json {
    Json::String(s.to_string())
}

#[test]
fn native_id_parses() {
    let parsed = NativeId::parse(&SubjectId::new("zendesk:123")).unwrap();
    assert_eq!(parsed.ticket_id, 123);
}

#[test]
fn native_id_needs_its_prefix() {
    assert_eq!(
        NativeId::parse(&SubjectId::new("jira:123")),
        Err(BackendError::InvalidRequest(
            "expected Zendesk subject id shaped zendesk:<ticket-id>, got jira:123".to_string()
        ))
    );
    assert!(NativeId::parse(&SubjectId::new("zendesk")).is_err());
}

#[test]
fn native_id_needs_a_number() {
    for raw in ["zendesk:", "zendesk:12a", "zendesk:-1", "zendesk: 1", "zendesk:+"] {
        assert_eq!(
            NativeId::parse(&SubjectId::new(raw)),
            Err(BackendError::InvalidRequest(format!("invalid Zendesk ticket id in {raw}")))
        );
    }
}

#[test]
fn native_id_is_bounded() {
    let max = NativeId::parse(&SubjectId::new("zendesk:18446744073709551615")).unwrap();
    assert_eq!(max.ticket_id, u64::MAX);
    assert!(NativeId::parse(&SubjectId::new("zendesk:18446744073709551616")).is_err());
}

#[test]
fn native_id_may_have_a_plus_sign_and_zeros() {
    assert_eq!(NativeId::parse(&SubjectId::new("zendesk:+007")).unwrap().ticket_id, 7);
}

#[test]
fn subject_id_round_trips() {
    for ticket_id in [0, 9, 10, 12345, u64::MAX] {
        let id = NativeId::subject_id(ticket_id);
        assert_eq!(id.as_str(), format!("zendesk:{ticket_id}"));
        assert_eq!(NativeId::parse(&id).unwrap().ticket_id, ticket_id);
    }
}

#[test]
fn maps_native_statuses() {
    assert_eq!(map_status("new"), SubjectStatus::Ready);
    assert_eq!(map_status("open"), SubjectStatus::InProgress);
    assert_eq!(map_status("pending"), SubjectStatus::Blocked);
    assert_eq!(map_status("hold"), SubjectStatus::Blocked);
    assert_eq!(map_status("solved"), SubjectStatus::Done);
}

#[test]
fn maps_closed_and_unknown_statuses() {
    assert_eq!(map_status("closed"), SubjectStatus::Done);
    assert_eq!(map_status("Open"), SubjectStatus::Ready);
    assert_eq!(map_status(""), SubjectStatus::Ready);
}

#[test]
fn writes_native_statuses() {
    assert_eq!(status_to_native(SubjectStatus::Ready), "open");
    assert_eq!(status_to_native(SubjectStatus::InProgress), "open");
    assert_eq!(status_to_native(SubjectStatus::Blocked), "pending");
    assert_eq!(status_to_native(SubjectStatus::Done), "solved");
    assert_eq!(status_to_native(SubjectStatus::Cancelled), "solved");
}

#[test]
fn written_status_is_stable() {
    for status in [
        SubjectStatus::Ready,
        SubjectStatus::InProgress,
        SubjectStatus::Blocked,
        SubjectStatus::Done,
        SubjectStatus::Cancelled,
    ] {
        let native = status_to_native(status);
        assert_eq!(status_to_native(map_status(native)), native);
    }
    assert_eq!(map_status(status_to_native(SubjectStatus::Ready)), SubjectStatus::InProgress);
    assert_eq!(map_status(status_to_native(SubjectStatus::Blocked)), SubjectStatus::Blocked);
}

#[test]
fn maps_priorities() {
    assert_eq!(priority_from_native("urgent"), Some(4));
    assert_eq!(priority_from_native("high"), Some(3));
    assert_eq!(priority_from_native("normal"), Some(2));
    assert_eq!(priority_from_native("low"), Some(1));
    assert_eq!(priority_from_native("LOW"), None);
}

#[test]
fn timestamp_is_taken_in_utc() {
    let instant = Timestamp { seconds: 1779926400, nanos: 0 };
    assert_eq!(parse_ts(Some(&string("2026-05-28T00:00:00Z"))), Ok(instant));
    assert_eq!(parse_ts(Some(&string("2026-05-28T02:30:00+02:30"))), Ok(instant));
    assert_eq!(
        parse_ts(Some(&string("2026-05-28T00:00:00.250Z"))),
        Ok(Timestamp { seconds: 1779926400, nanos: 250_000_000 })
    );
}

#[test]
fn timestamp_can_be_before_the_epoch() {
    assert_eq!(
        parse_ts(Some(&string("1969-12-31T23:59:59.5Z"))),
        Ok(Timestamp { seconds: -1, nanos: 500_000_000 })
    );
}

#[test]
fn timestamp_must_be_there() {
    let missing =
        Err(BackendError::Other("Zendesk ticket missing timestamp field".to_string()));
    assert_eq!(parse_ts(None), missing);
    assert_eq!(parse_ts(Some(&Json::Unsigned(5))), missing);
    assert_eq!(parse_ts(Some(&Json::Null)), missing);
}

#[test]
fn timestamp_must_be_rfc_3339() {
    let expected = chrono::DateTime::parse_from_rfc3339("yesterday").unwrap_err().to_string();
    assert_eq!(parse_ts(Some(&string("yesterday"))), Err(BackendError::Other(expected)));
}

#[test]
fn timestamps_are_ordered() {
    let early = Timestamp { seconds: 5, nanos: 9 };
    let late = Timestamp { seconds: 6, nanos: 1 };
    assert!(early.is_before(&late));
    assert!(!late.is_before(&early));
    assert!(!early.is_before(&early));
    assert!(early.is_before(&Timestamp { seconds: 5, nanos: 10 }));
}
