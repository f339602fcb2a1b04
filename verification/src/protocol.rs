//! The data of the subject protocol: subjects, filters, patches, schemas, health, errors.

use vstd::prelude::*;

use crate::fields::Fields;
use crate::json::{json_views, Json, JsonView};
use crate::text::{opt_string, strings};

verus! {

/// An instant: seconds since the start of 1970 in UTC, and the nanoseconds that follow the
/// last whole second. In a leap second the nanoseconds go past one second.
#[derive(Clone, Copy, Debug, PartialEq, Eq, Structural)]
pub struct Timestamp {
    pub seconds: i64,
    pub nanos: u32,
}

impl View for Timestamp {
    type V = Timestamp;

    open spec fn view(&self) -> Timestamp {
        *self
    }
}

impl Timestamp {
    /// Whether this instant comes before another.
    pub open spec fn earlier(self, other: Timestamp) -> bool {
        self.seconds < other.seconds || (self.seconds == other.seconds && self.nanos < other.nanos)
    }

    /// Whether this instant comes before another.
    pub fn is_before(&self, other: &Timestamp) -> (before: bool)
        ensures
            before == self.earlier(*other),
    {
        self.seconds < other.seconds || (self.seconds == other.seconds && self.nanos < other.nanos)
    }
}

/// What went wrong, by kind, with the words for it.
#[derive(Debug, PartialEq, Eq)]
pub enum BackendError {
    /// The request cannot be served as it stands.
    InvalidRequest(String),
    /// The credentials are missing or were refused.
    PermissionDenied(String),
    /// There is nothing at the place asked for.
    NotFound(String),
    /// The service cannot be reached or did not answer as it should.
    Unavailable(String),
    /// Anything else.
    Other(String),
}

/// A `BackendError` by its characters.
pub enum BackendErrorView {
    InvalidRequest(Seq<char>),
    PermissionDenied(Seq<char>),
    NotFound(Seq<char>),
    Unavailable(Seq<char>),
    Other(Seq<char>),
}

impl View for BackendError {
    type V = BackendErrorView;

    open spec fn view(&self) -> BackendErrorView {
        match self {
            BackendError::InvalidRequest(words) => BackendErrorView::InvalidRequest(words@),
            BackendError::PermissionDenied(words) => BackendErrorView::PermissionDenied(words@),
            BackendError::NotFound(words) => BackendErrorView::NotFound(words@),
            BackendError::Unavailable(words) => BackendErrorView::Unavailable(words@),
            BackendError::Other(words) => BackendErrorView::Other(words@),
        }
    }
}

/// A result by the views of its value and its error.
pub open spec fn outcome<T: View>(result: Result<T, BackendError>) -> Result<
    T::V,
    BackendErrorView,
> {
    match result {
        Ok(value) => Ok(value@),
        Err(error) => Err(error@),
    }
}

/// Makes an error of the kind `Other` out of the words of an error.
pub fn or_other<T>(result: Result<T, String>) -> (mapped: Result<T, BackendError>)
    ensures
        match result {
            Ok(value) => mapped == Ok::<T, BackendError>(value),
            Err(words) => mapped matches Err(error) && error@ == BackendErrorView::Other(words@),
        },
{
    match result {
        Ok(value) => Ok(value),
        Err(words) => Err(BackendError::Other(words)),
    }
}

/// The name of a subject within the protocol.
#[derive(Debug, PartialEq, Eq)]
pub struct SubjectId {
    text: String,
}

impl View for SubjectId {
    type V = Seq<char>;

    closed spec fn view(&self) -> Seq<char> {
        self.text@
    }
}

impl SubjectId {
    /// The id with the given text.
    pub fn new(text: &str) -> (id: SubjectId)
        ensures
            id@ == text@,
    {
        SubjectId { text: text.to_owned() }
    }

    /// The text of the id.
    pub fn as_str(&self) -> (text: &str)
        ensures
            text@ == self@,
    {
        self.text.as_str()
    }
}

/// The ids of a list by their texts.
pub open spec fn id_views(ids: Seq<SubjectId>) -> Seq<Seq<char>> {
    Seq::new(ids.len(), |i: int| ids[i]@)
}

/// Where a subject stands.
#[derive(Clone, Copy, Debug, PartialEq, Eq, Structural)]
pub enum SubjectStatus {
    Ready,
    InProgress,
    Blocked,
    Done,
    Cancelled,
}

/// A piece of work.
#[derive(Debug, PartialEq, Eq)]
pub struct Subject {
    pub id: SubjectId,
    pub kind: String,
    pub title: String,
    pub description: Option<String>,
    pub status: SubjectStatus,
    pub priority: Option<u8>,
    pub assignee: Option<String>,
    pub labels: Vec<String>,
    pub parent: Option<SubjectId>,
    pub children: Vec<SubjectId>,
    pub url: Option<String>,
    pub created_at: Timestamp,
    pub updated_at: Timestamp,
    /// Fields of the service's own.
    pub custom: Fields,
    pub native_status: Option<String>,
    pub status_metadata: Json,
    pub attachments: Vec<Json>,
}

/// A `Subject` by its characters, its labels in order, its own fields as a map.
pub struct SubjectView {
    pub id: Seq<char>,
    pub kind: Seq<char>,
    pub title: Seq<char>,
    pub description: Option<Seq<char>>,
    pub status: SubjectStatus,
    pub priority: Option<u8>,
    pub assignee: Option<Seq<char>>,
    pub labels: Seq<Seq<char>>,
    pub parent: Option<Seq<char>>,
    pub children: Seq<Seq<char>>,
    pub url: Option<Seq<char>>,
    pub created_at: Timestamp,
    pub updated_at: Timestamp,
    pub custom: Map<Seq<char>, JsonView>,
    pub native_status: Option<Seq<char>>,
    pub status_metadata: JsonView,
    pub attachments: Seq<JsonView>,
}

impl View for Subject {
    type V = SubjectView;

    open spec fn view(&self) -> SubjectView {
        SubjectView {
            id: self.id@,
            kind: self.kind@,
            title: self.title@,
            description: opt_string(self.description),
            status: self.status,
            priority: self.priority,
            assignee: opt_string(self.assignee),
            labels: strings(self.labels@),
            parent: match self.parent {
                Some(id) => Some(id@),
                None => None,
            },
            children: id_views(self.children@),
            url: opt_string(self.url),
            created_at: self.created_at,
            updated_at: self.updated_at,
            custom: self.custom@,
            native_status: opt_string(self.native_status),
            status_metadata: self.status_metadata@,
            attachments: json_views(self.attachments@),
        }
    }
}

/// The subjects of a list by their views.
pub open spec fn subject_views(subjects: Seq<Subject>) -> Seq<SubjectView> {
    Seq::new(subjects.len(), |i: int| subjects[i]@)
}

/// Which subjects are asked for. An empty list asks for nothing in particular.
#[derive(Debug, PartialEq, Eq)]
pub struct SubjectFilter {
    pub kind: Vec<String>,
    pub status: Vec<SubjectStatus>,
    pub assignee: Vec<String>,
    pub labels_any: Vec<String>,
    pub labels_all: Vec<String>,
    pub updated_since: Option<Timestamp>,
    pub limit: Option<u32>,
}

/// A `SubjectFilter` by its characters.
pub struct SubjectFilterView {
    pub kind: Seq<Seq<char>>,
    pub status: Seq<SubjectStatus>,
    pub assignee: Seq<Seq<char>>,
    pub labels_any: Seq<Seq<char>>,
    pub labels_all: Seq<Seq<char>>,
    pub updated_since: Option<Timestamp>,
    pub limit: Option<u32>,
}

impl View for SubjectFilter {
    type V = SubjectFilterView;

    open spec fn view(&self) -> SubjectFilterView {
        SubjectFilterView {
            kind: strings(self.kind@),
            status: self.status@,
            assignee: strings(self.assignee@),
            labels_any: strings(self.labels_any@),
            labels_all: strings(self.labels_all@),
            updated_since: self.updated_since,
            limit: self.limit,
        }
    }
}

impl SubjectFilterView {
    /// Whether a subject is among those asked for.
    pub open spec fn admits(self, subject: SubjectView) -> bool {
        &&& self.kind.len() == 0 || self.kind.contains(subject.kind)
        &&& self.status.len() == 0 || self.status.contains(subject.status)
        &&& self.assignee.len() == 0 || (subject.assignee matches Some(assignee)
            && self.assignee.contains(assignee))
        &&& self.labels_any.len() == 0 || exists|i: int|
            0 <= i < self.labels_any.len() && subject.labels.contains(#[trigger] self.labels_any[i])
        &&& forall|i: int|
            0 <= i < self.labels_all.len() ==> subject.labels.contains(
                #[trigger] self.labels_all[i],
            )
        &&& self.updated_since matches Some(since) ==> !subject.updated_at.earlier(since)
    }
}

/// A change to a subject: each part that is there is to be changed.
#[derive(Debug, PartialEq, Eq)]
pub struct SubjectPatch {
    pub status: Option<SubjectStatus>,
    /// `Some(None)` takes the assignee away.
    pub assignee: Option<Option<String>>,
    pub labels_add: Vec<String>,
    pub labels_remove: Vec<String>,
    pub comment: Option<String>,
}

/// A `SubjectPatch` by its characters.
pub struct SubjectPatchView {
    pub status: Option<SubjectStatus>,
    pub assignee: Option<Option<Seq<char>>>,
    pub labels_add: Seq<Seq<char>>,
    pub labels_remove: Seq<Seq<char>>,
    pub comment: Option<Seq<char>>,
}

impl View for SubjectPatch {
    type V = SubjectPatchView;

    open spec fn view(&self) -> SubjectPatchView {
        SubjectPatchView {
            status: self.status,
            assignee: match self.assignee {
                Some(assignee) => Some(opt_string(assignee)),
                None => None,
            },
            labels_add: strings(self.labels_add@),
            labels_remove: strings(self.labels_remove@),
            comment: opt_string(self.comment),
        }
    }
}

/// Subjects, and when they were fetched.
#[derive(Debug, PartialEq, Eq)]
pub struct SubjectList {
    pub subjects: Vec<Subject>,
    pub next_cursor: Option<String>,
    pub fetched_at: Timestamp,
}

/// A `SubjectList` by its characters.
pub struct SubjectListView {
    pub subjects: Seq<SubjectView>,
    pub next_cursor: Option<Seq<char>>,
    pub fetched_at: Timestamp,
}

impl View for SubjectList {
    type V = SubjectListView;

    open spec fn view(&self) -> SubjectListView {
        SubjectListView {
            subjects: subject_views(self.subjects@),
            next_cursor: opt_string(self.next_cursor),
            fetched_at: self.fetched_at,
        }
    }
}

/// What a custom field holds.
#[derive(Clone, Copy, Debug, PartialEq, Eq, Structural)]
pub enum CustomFieldKind {
    String,
    Number,
}

/// A custom field, and the values that it takes where they are few.
#[derive(Debug, PartialEq, Eq)]
pub struct CustomFieldSpec {
    pub key: String,
    pub kind: CustomFieldKind,
    pub values: Option<Vec<String>>,
}

/// A `CustomFieldSpec` by its characters.
pub struct CustomFieldSpecView {
    pub key: Seq<char>,
    pub kind: CustomFieldKind,
    pub values: Option<Seq<Seq<char>>>,
}

impl View for CustomFieldSpec {
    type V = CustomFieldSpecView;

    open spec fn view(&self) -> CustomFieldSpecView {
        CustomFieldSpecView {
            key: self.key@,
            kind: self.kind,
            values: match self.values {
                Some(values) => Some(strings(values@)),
                None => None,
            },
        }
    }
}

/// What a backend has and can do.
#[derive(Debug, PartialEq, Eq)]
pub struct SubjectSchema {
    pub kinds: Vec<String>,
    pub status_values: Vec<SubjectStatus>,
    pub supports_watch: bool,
    pub supports_create: bool,
    pub supports_pagination: bool,
    pub native_status_values: Vec<String>,
    pub status_dispatch_hints: Vec<Json>,
    pub custom_fields: Vec<CustomFieldSpec>,
}

/// A `SubjectSchema` by its characters.
pub struct SubjectSchemaView {
    pub kinds: Seq<Seq<char>>,
    pub status_values: Seq<SubjectStatus>,
    pub supports_watch: bool,
    pub supports_create: bool,
    pub supports_pagination: bool,
    pub native_status_values: Seq<Seq<char>>,
    pub status_dispatch_hints: Seq<JsonView>,
    pub custom_fields: Seq<CustomFieldSpecView>,
}

impl View for SubjectSchema {
    type V = SubjectSchemaView;

    open spec fn view(&self) -> SubjectSchemaView {
        SubjectSchemaView {
            kinds: strings(self.kinds@),
            status_values: self.status_values@,
            supports_watch: self.supports_watch,
            supports_create: self.supports_create,
            supports_pagination: self.supports_pagination,
            native_status_values: strings(self.native_status_values@),
            status_dispatch_hints: json_views(self.status_dispatch_hints@),
            custom_fields: Seq::new(
                self.custom_fields@.len(),
                |i: int| self.custom_fields@[i]@,
            ),
        }
    }
}

/// A stream of changes to subjects. It only stands for the stream: to carry the changes is
/// left to whoever opens it.
#[derive(Clone, Copy, Debug, PartialEq, Eq, Structural)]
pub struct EventStream;

/// Whether a backend can serve.
#[derive(Clone, Copy, Debug, PartialEq, Eq, Structural)]
pub enum HealthStatus {
    Healthy,
    Unhealthy,
}

/// How a backend is.
#[derive(Debug, PartialEq, Eq)]
pub struct HealthCheckResult {
    pub status: HealthStatus,
    pub uptime_ms: Option<u64>,
    pub memory_usage_bytes: Option<u64>,
    pub last_error: Option<String>,
}

/// A `HealthCheckResult` by its characters.
pub struct HealthCheckResultView {
    pub status: HealthStatus,
    pub uptime_ms: Option<u64>,
    pub memory_usage_bytes: Option<u64>,
    pub last_error: Option<Seq<char>>,
}

impl View for HealthCheckResult {
    type V = HealthCheckResultView;

    open spec fn view(&self) -> HealthCheckResultView {
        HealthCheckResultView {
            status: self.status,
            uptime_ms: self.uptime_ms,
            memory_usage_bytes: self.memory_usage_bytes,
            last_error: opt_string(self.last_error),
        }
    }
}

} // verus!
