//! The backend: an account, what it offers, and how it is.

use vstd::prelude::*;

use crate::config::{ZendeskConfig, ZendeskConfigView};
use crate::native::KIND_TICKET;
use crate::protocol::{
    CustomFieldKind, CustomFieldSpec, CustomFieldSpecView, EventStream, HealthCheckResult,
    HealthCheckResultView, HealthStatus, SubjectSchema, SubjectSchemaView, SubjectStatus,
};

verus! {

/// Tickets of a Zendesk account as subjects.
#[derive(Debug, PartialEq, Eq)]
pub struct ZendeskBackend {
    pub config: ZendeskConfig,
}

/// A custom field that holds a number.
pub open spec fn number_field(key: Seq<char>) -> CustomFieldSpecView {
    CustomFieldSpecView { key, kind: CustomFieldKind::Number, values: None }
}

/// What the backend has and can do: tickets, in all statuses, which can be neither watched nor
/// created nor paged through.
pub open spec fn ticket_schema() -> SubjectSchemaView {
    SubjectSchemaView {
        kinds: seq![KIND_TICKET@],
        status_values: seq![
            SubjectStatus::Ready,
            SubjectStatus::InProgress,
            SubjectStatus::Blocked,
            SubjectStatus::Done,
            SubjectStatus::Cancelled,
        ],
        supports_watch: false,
        supports_create: false,
        supports_pagination: false,
        native_status_values: seq![
            "new"@,
            "open"@,
            "pending"@,
            "hold"@,
            "solved"@,
            "closed"@,
        ],
        status_dispatch_hints: Seq::empty(),
        custom_fields: seq![
            number_field("requester_id"@),
            number_field("submitter_id"@),
            number_field("group_id"@),
            CustomFieldSpecView {
                key: "priority"@,
                kind: CustomFieldKind::String,
                values: Some(seq!["low"@, "normal"@, "high"@, "urgent"@]),
            },
        ],
    }
}

/// What a backend with a configuration has and can do: the same for every configuration.
pub open spec fn schema_of(config: ZendeskConfigView) -> SubjectSchemaView {
    ticket_schema()
}

/// The changes that a backend with a configuration can be watched for: none.
pub open spec fn watch_of(config: ZendeskConfigView) -> Option<EventStream> {
    None
}

/// How a backend with a configuration is: healthy if the address and the credentials are
/// there, and otherwise not, with words for what is missing.
pub open spec fn health_of(config: ZendeskConfigView) -> HealthCheckResultView {
    let missing_base = config.base_url.len() == 0;
    let missing_auth = config.email is None || config.api_token is None;
    HealthCheckResultView {
        status: if missing_base || missing_auth {
            HealthStatus::Unhealthy
        } else {
            HealthStatus::Healthy
        },
        uptime_ms: None,
        memory_usage_bytes: None,
        last_error: if missing_base && missing_auth {
            Some(
                "ZENDESK_BASE_URL or ZENDESK_SUBDOMAIN, ZENDESK_EMAIL, and ZENDESK_API_TOKEN unset"@,
            )
        } else if missing_base {
            Some("ZENDESK_BASE_URL or ZENDESK_SUBDOMAIN unset"@)
        } else if missing_auth {
            Some("ZENDESK_EMAIL or ZENDESK_API_TOKEN unset"@)
        } else {
            None
        },
    }
}

fn number_field_spec(key: &str) -> (field: CustomFieldSpec)
    ensures
        field@ == number_field(key@),
{
    CustomFieldSpec { key: key.to_owned(), kind: CustomFieldKind::Number, values: None }
}

impl ZendeskBackend {
    /// The backend for an account.
    pub fn new(config: ZendeskConfig) -> (backend: ZendeskBackend)
        ensures
            backend.config == config,
    {
        ZendeskBackend { config }
    }

    /// What the backend has and can do.
    pub fn schema(&self) -> (schema: SubjectSchema)
        ensures
            schema@ == schema_of(self.config@),
    {
        let schema = SubjectSchema {
            kinds: vec![KIND_TICKET.to_owned()],
            status_values: vec![
                SubjectStatus::Ready,
                SubjectStatus::InProgress,
                SubjectStatus::Blocked,
                SubjectStatus::Done,
                SubjectStatus::Cancelled,
            ],
            supports_watch: false,
            supports_create: false,
            supports_pagination: false,
            native_status_values: vec![
                "new".to_owned(),
                "open".to_owned(),
                "pending".to_owned(),
                "hold".to_owned(),
                "solved".to_owned(),
                "closed".to_owned(),
            ],
            status_dispatch_hints: Vec::new(),
            custom_fields: vec![
                number_field_spec("requester_id"),
                number_field_spec("submitter_id"),
                number_field_spec("group_id"),
                CustomFieldSpec {
                    key: "priority".to_owned(),
                    kind: CustomFieldKind::String,
                    values: Some(
                        vec![
                            "low".to_owned(),
                            "normal".to_owned(),
                            "high".to_owned(),
                            "urgent".to_owned(),
                        ],
                    ),
                },
            ],
        };
        proof {
            let expected = ticket_schema();
            assert(schema@.kinds =~= expected.kinds);
            assert(schema@.status_values =~= expected.status_values);
            assert(schema@.native_status_values =~= expected.native_status_values);
            assert(schema@.status_dispatch_hints =~= expected.status_dispatch_hints);
            assert(schema@.custom_fields[3].values->0 =~= expected.custom_fields[3].values->0);
            assert(schema@.custom_fields =~= expected.custom_fields);
        }
        schema
    }

    /// The changes to tickets as they happen: they cannot be watched.
    pub fn watch(&self) -> (stream: Option<EventStream>)
        ensures
            stream == watch_of(self.config@),
    {
        None
    }

    /// How the backend is.
    pub fn health(&self) -> (health: HealthCheckResult)
        ensures
            health@ == health_of(self.config@),
    {
        let missing_base = self.config.base_url.as_str().is_empty();
        let missing_auth = self.config.email.is_none() || self.config.api_token.is_none();
        let status = if missing_base || missing_auth {
            HealthStatus::Unhealthy
        } else {
            HealthStatus::Healthy
        };
        let last_error = if missing_base && missing_auth {
            Some(
                "ZENDESK_BASE_URL or ZENDESK_SUBDOMAIN, ZENDESK_EMAIL, and ZENDESK_API_TOKEN unset".to_owned(),
            )
        } else if missing_base {
            Some("ZENDESK_BASE_URL or ZENDESK_SUBDOMAIN unset".to_owned())
        } else if missing_auth {
            Some("ZENDESK_EMAIL or ZENDESK_API_TOKEN unset".to_owned())
        } else {
            None
        };
        HealthCheckResult { status, uptime_ms: None, memory_usage_bytes: None, last_error }
    }
}

} // verus!
