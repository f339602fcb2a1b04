use animus_subject_zendesk::backend::ZendeskBackend;
use animus_subject_zendesk::config::ZendeskConfig;
use animus_subject_zendesk::http::{check_status, json_reply, Method, Reply};
use animus_subject_zendesk::json::Json;
use animus_subject_zendesk::protocol::{BackendError, HealthStatus};

fn received(status: u16, text: &str) -> Reply {
    Reply::Received { status, text: text.to_string() }
}

fn backend(base_url: &str, email: Option<&str>, api_token: Option<&str>) -> ZendeskBackend {
    ZendeskBackend::new(ZendeskConfig {
        base_url: base_url.to_string(),
        email: email.map(str::to_string),
        api_token: api_token.map(str::to_string),
        query: None,
    })
}

#[test]
fn request_carries_address_and_credentials() {
    let backend = ZendeskBackend::new(ZendeskConfig::for_testing("https://example.zendesk.com"));
    let request = backend.request(Method::Put, "/x.json", Some(Json::Bool(true))).unwrap();
    assert_eq!(request.method, Method::Put);
    assert_eq!(request.url, "https://example.zendesk.com/x.json");
    assert_eq!(request.accept, "application/json");
    assert_eq!(request.username, "agent@example.com/token");
    assert_eq!(request.password, "test-token");
    assert_eq!(request.body, Some(Json::Bool(true)));
}

#[test]
fn request_needs_an_address() {
    let expected = BackendError::InvalidRequest(
        "ZENDESK_BASE_URL or ZENDESK_SUBDOMAIN must be set".to_string(),
    );
    assert_eq!(backend("", None, None).request(Method::Get, "/", None), Err(expected));
    assert!(backend("", Some("e"), Some("t")).ensure_configured().is_err());
}

#[test]
fn request_needs_credentials() {
    let expected = || {
        BackendError::PermissionDenied(
            "ZENDESK_EMAIL and ZENDESK_API_TOKEN must be set".to_string(),
        )
    };
    assert_eq!(backend("u", None, Some("t")).ensure_configured(), Err(expected()));
    assert_eq!(backend("u", Some("e"), None).request(Method::Get, "/", None), Err(expected()));
    assert_eq!(backend("u", Some("e"), Some("t")).ensure_configured(), Ok(()));
}

#[test]
fn health_tells_what_is_missing() {
    let cases = [
        (backend("", None, None), Some("ZENDESK_BASE_URL or ZENDESK_SUBDOMAIN, ZENDESK_EMAIL, and ZENDESK_API_TOKEN unset")),
        (backend("", Some("e"), Some("t")), Some("ZENDESK_BASE_URL or ZENDESK_SUBDOMAIN unset")),
        (backend("u", Some("e"), None), Some("ZENDESK_EMAIL or ZENDESK_API_TOKEN unset")),
        (backend("u", None, Some("t")), Some("ZENDESK_EMAIL or ZENDESK_API_TOKEN unset")),
        (backend("u", Some("e"), Some("t")), None),
    ];
    for (backend, words) in cases {
        let health = backend.health();
        assert_eq!(health.last_error.as_deref(), words);
        let healthy = health.status == HealthStatus::Healthy;
        assert_eq!(healthy, words.is_none());
        assert_eq!(healthy, backend.request(Method::Get, "/", None).is_ok());
        assert_eq!(health.uptime_ms, None);
        assert_eq!(health.memory_usage_bytes, None);
    }
}

#[test]
fn success_gives_the_json() {
    assert_eq!(json_reply("/p", &received(200, "[1]")), Ok(Json::Array(vec![Json::Unsigned(1)])));
    assert_eq!(json_reply("/p", &received(299, "null")), Ok(Json::Null));
}

#[test]
fn blank_success_gives_null() {
    assert_eq!(json_reply("/p", &received(204, "")), Ok(Json::Null));
    assert_eq!(json_reply("/p", &received(200, " \n\u{2003}")), Ok(Json::Null));
}

#[test]
fn success_with_bad_json_fails() {
    let words = serde_json::from_str::<serde_json::Value>("<html>").unwrap_err().to_string();
    assert_eq!(json_reply("/p", &received(200, "<html>")), Err(BackendError::Other(words)));
}

#[test]
fn not_found_names_the_path() {
    assert_eq!(
        json_reply("/api/v2/tickets/1.json", &received(404, "gone")),
        Err(BackendError::NotFound("/api/v2/tickets/1.json".to_string()))
    );
}

#[test]
fn refused_credentials_are_permission_denied() {
    assert_eq!(
        json_reply("/p", &received(401, "who?")),
        Err(BackendError::PermissionDenied(
            "Zendesk API returned 401 Unauthorized: who?".to_string()
        ))
    );
    assert_eq!(
        json_reply("/p", &received(403, "no")),
        Err(BackendError::PermissionDenied("Zendesk API returned 403 Forbidden: no".to_string()))
    );
}

#[test]
fn rate_limit_is_unavailable() {
    assert_eq!(
        json_reply("/p", &received(429, "slow down")),
        Err(BackendError::Unavailable("Zendesk API rate limited request: slow down".to_string()))
    );
}

#[test]
fn other_statuses_are_unavailable() {
    assert_eq!(
        json_reply("/p", &received(500, "oops")),
        Err(BackendError::Unavailable(
            "Zendesk API returned 500 Internal Server Error: oops".to_string()
        ))
    );
    assert_eq!(
        json_reply("/p", &received(302, "")),
        Err(BackendError::Unavailable("Zendesk API returned 302 Found: ".to_string()))
    );
    assert_eq!(
        json_reply("/p", &received(599, "x")),
        Err(BackendError::Unavailable(
            "Zendesk API returned 599 <unknown status code>: x".to_string()
        ))
    );
}

#[test]
fn failed_transport_is_unavailable() {
    assert_eq!(
        json_reply("/p", &Reply::Failed("connection refused".to_string())),
        Err(BackendError::Unavailable("connection refused".to_string()))
    );
}

#[test]
fn status_is_checked_with_the_line_it_is_given() {
    assert_eq!(check_status("/p", 200, "x", "y"), Ok(()));
    assert_eq!(check_status("/p", 199, "L", "T"), Err(BackendError::Unavailable("Zendesk API returned L: T".to_string())));
    assert_eq!(check_status("/p", 300, "L", "T"), Err(BackendError::Unavailable("Zendesk API returned L: T".to_string())));
    assert_eq!(check_status("/p", 401, "L", "T"), Err(BackendError::PermissionDenied("Zendesk API returned L: T".to_string())));
}
