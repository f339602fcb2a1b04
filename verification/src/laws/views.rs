//! What the views tell: each part of a value, and nothing else.

use vstd::prelude::*;

use crate::config::ZendeskConfig;
use crate::http::{opt_json, HttpRequest, Reply, ReplyView};
use crate::json::{entries_map, entry_views, json_views, Json, JsonView};
use crate::protocol::{
    id_views, outcome, subject_views, BackendError, BackendErrorView, CustomFieldSpec,
    HealthCheckResult, Subject, SubjectFilter, SubjectList, SubjectPatch, SubjectSchema,
    Timestamp,
};
use crate::update::{UpdateState, UpdateStateView, UpdateStep, UpdateStepView};

verus! {

/// A member of a value is what its object has under the key.
pub proof fn lemma_member_is_under_its_key(
    value: JsonView,
    members: Map<Seq<char>, JsonView>,
    key: Seq<char>,
)
    ensures
        value !is Object ==> value.field(key) is None,
        JsonView::Object(members).field(key) is Some <==> members.dom().contains(key),
        members.dom().contains(key) ==> JsonView::Object(members).field(key) == Some(members[key]),
{
}

/// A value is an unsigned number, a string or an array only where it is one.
pub proof fn lemma_value_is_of_one_sort(value: JsonView, n: u64, s: Seq<char>, a: Seq<JsonView>)
    ensures
        value.unsigned() == Some(n) <==> value == JsonView::Unsigned(n),
        value.string() == Some(s) <==> value == JsonView::String(s),
        value.array() == Some(a) <==> value == JsonView::Array(a),
{
}

/// What a value has under a key, by sort, is the member of that sort.
pub proof fn lemma_member_is_of_one_sort(
    value: JsonView,
    key: Seq<char>,
    n: u64,
    s: Seq<char>,
    a: Seq<JsonView>,
)
    ensures
        value.unsigned_field(key) == Some(n) <==> value.field(key) == Some(JsonView::Unsigned(n)),
        value.string_field(key) == Some(s) <==> value.field(key) == Some(JsonView::String(s)),
        value.array_field(key) == Some(a) <==> value.field(key) == Some(JsonView::Array(a)),
{
}

/// Entries go into a map one after the other, the later in place of the earlier.
pub proof fn lemma_entries_go_in_one_by_one(
    entries: Seq<(Seq<char>, JsonView)>,
    key: Seq<char>,
    value: JsonView,
)
    ensures
        entries_map(Seq::empty()) == Map::<Seq<char>, JsonView>::empty(),
        entries_map(entries.push((key, value))) == entries_map(entries).insert(key, value),
{
    assert(entries.push((key, value)).drop_last() =~= entries);
}

/// The view of a JSON value is of its own sort, with all of its elements and members.
pub proof fn lemma_json_view(json: Json)
    ensures
        json is Null ==> json@ == JsonView::Null,
        json matches Json::Bool(b) ==> json@ == JsonView::Bool(b),
        json matches Json::Unsigned(n) ==> json@ == JsonView::Unsigned(n),
        json matches Json::String(s) ==> json@ == JsonView::String(s@),
        json matches Json::Array(items) ==> {
            &&& json@ is Array
            &&& json@->Array_0.len() == items@.len()
            &&& forall|i: int|
                0 <= i < items@.len() ==> #[trigger] json@->Array_0[i] == items@[i]@
        },
        json matches Json::Object(entries) ==> json@ == JsonView::Object(
            entries_map(entry_views(entries@)),
        ),
{
}

/// Elements and entries are taken by their views one by one.
pub proof fn lemma_elements_are_all_there(
    items: Seq<Json>,
    entries: Seq<(String, Json)>,
    value: Option<Json>,
    i: int,
)
    ensures
        json_views(items).len() == items.len(),
        0 <= i < items.len() ==> json_views(items)[i] == items[i]@,
        entry_views(entries).len() == entries.len(),
        0 <= i < entries.len() ==> entry_views(entries)[i] == (entries[i].0@, entries[i].1@),
        value is None <==> opt_json(value) is None,
        value matches Some(json) ==> opt_json(value) == Some(json@),
{
}

/// Two errors with one view are of one kind and have the same words.
pub proof fn lemma_error_view(error: BackendError)
    ensures
        error matches BackendError::InvalidRequest(words) ==> error@
            == BackendErrorView::InvalidRequest(words@),
        error matches BackendError::PermissionDenied(words) ==> error@
            == BackendErrorView::PermissionDenied(words@),
        error matches BackendError::NotFound(words) ==> error@ == BackendErrorView::NotFound(words@),
        error matches BackendError::Unavailable(words) ==> error@ == BackendErrorView::Unavailable(
            words@,
        ),
        error matches BackendError::Other(words) ==> error@ == BackendErrorView::Other(words@),
{
}

/// A result succeeds by its view if and only if it succeeds, with the same value or error.
pub proof fn lemma_outcome<T: View>(result: Result<T, BackendError>)
    ensures
        result matches Ok(value) ==> outcome(result) == Ok::<T::V, BackendErrorView>(value@),
        result matches Err(error) ==> outcome(result) == Err::<T::V, BackendErrorView>(error@),
{
}

/// One instant comes before another if and only if it is the lesser number of seconds, or the
/// same with fewer nanoseconds: as numbers, counted in steps that hold every nanosecond count.
pub proof fn lemma_earlier_is_less(a: Timestamp, b: Timestamp)
    ensures
        a.earlier(b) <==> a.seconds * 0x1_0000_0000 + a.nanos < b.seconds * 0x1_0000_0000 + b.nanos,
{
}

/// Each part of a subject is in its view.
pub proof fn lemma_subject_view(subject: Subject)
    ensures
        subject@.id == subject.id@,
        subject@.kind == subject.kind@,
        subject@.title == subject.title@,
        subject.description is None <==> subject@.description is None,
        subject.description matches Some(text) ==> subject@.description == Some(text@),
        subject@.status == subject.status,
        subject@.priority == subject.priority,
        subject.assignee is None <==> subject@.assignee is None,
        subject.assignee matches Some(text) ==> subject@.assignee == Some(text@),
        subject@.labels.len() == subject.labels@.len(),
        forall|i: int|
            0 <= i < subject.labels@.len() ==> #[trigger] subject@.labels[i]
                == subject.labels@[i]@,
        subject.parent is None <==> subject@.parent is None,
        subject.parent matches Some(id) ==> subject@.parent == Some(id@),
        subject@.children == id_views(subject.children@),
        subject.children@.len() == subject@.children.len(),
        subject.url is None <==> subject@.url is None,
        subject.url matches Some(text) ==> subject@.url == Some(text@),
        subject@.created_at == subject.created_at,
        subject@.updated_at == subject.updated_at,
        subject@.custom == subject.custom@,
        subject.native_status is None <==> subject@.native_status is None,
        subject.native_status matches Some(text) ==> subject@.native_status == Some(text@),
        subject@.status_metadata == subject.status_metadata@,
        subject.attachments@.len() == subject@.attachments.len(),
{
}

/// Each part of a list is in its view.
pub proof fn lemma_list_view(list: SubjectList, i: int)
    ensures
        list@.subjects.len() == list.subjects@.len(),
        0 <= i < list.subjects@.len() ==> list@.subjects[i] == list.subjects@[i]@,
        subject_views(list.subjects@) == list@.subjects,
        list.next_cursor is None <==> list@.next_cursor is None,
        list@.fetched_at == list.fetched_at,
{
}

/// Each part of a filter is in its view.
pub proof fn lemma_filter_view(filter: SubjectFilter, i: int)
    ensures
        filter@.kind.len() == filter.kind@.len(),
        0 <= i < filter.kind@.len() ==> filter@.kind[i] == filter.kind@[i]@,
        filter@.status == filter.status@,
        filter@.assignee.len() == filter.assignee@.len(),
        0 <= i < filter.assignee@.len() ==> filter@.assignee[i] == filter.assignee@[i]@,
        filter@.labels_any.len() == filter.labels_any@.len(),
        0 <= i < filter.labels_any@.len() ==> filter@.labels_any[i] == filter.labels_any@[i]@,
        filter@.labels_all.len() == filter.labels_all@.len(),
        0 <= i < filter.labels_all@.len() ==> filter@.labels_all[i] == filter.labels_all@[i]@,
        filter@.updated_since == filter.updated_since,
        filter@.limit == filter.limit,
{
}

/// Each part of a patch is in its view.
pub proof fn lemma_patch_view(patch: SubjectPatch, i: int)
    ensures
        patch@.status == patch.status,
        patch.assignee is None ==> patch@.assignee is None,
        patch.assignee matches Some(None) ==> patch@.assignee == Some(None::<Seq<char>>),
        patch.assignee matches Some(Some(raw)) ==> patch@.assignee == Some(Some(raw@)),
        patch@.labels_add.len() == patch.labels_add@.len(),
        0 <= i < patch.labels_add@.len() ==> patch@.labels_add[i] == patch.labels_add@[i]@,
        patch@.labels_remove.len() == patch.labels_remove@.len(),
        0 <= i < patch.labels_remove@.len() ==> patch@.labels_remove[i] == patch.labels_remove@[i]@,
        patch.comment is None <==> patch@.comment is None,
        patch.comment matches Some(text) ==> patch@.comment == Some(text@),
{
}

/// Each part of a configuration is in its view.
pub proof fn lemma_config_view(config: ZendeskConfig)
    ensures
        config@.base_url == config.base_url@,
        config.email is None <==> config@.email is None,
        config.email matches Some(text) ==> config@.email == Some(text@),
        config.api_token is None <==> config@.api_token is None,
        config.api_token matches Some(text) ==> config@.api_token == Some(text@),
        config.query is None <==> config@.query is None,
        config.query matches Some(text) ==> config@.query == Some(text@),
{
}

/// Each part of a request is in its view.
pub proof fn lemma_request_view(request: HttpRequest)
    ensures
        request@.method == request.method,
        request@.url == request.url@,
        request@.accept == request.accept@,
        request@.username == request.username@,
        request@.password == request.password@,
        request.body is None <==> request@.body is None,
        request.body matches Some(json) ==> request@.body == Some(json@),
{
}

/// Each part of a reply is in its view.
pub proof fn lemma_reply_view(reply: Reply)
    ensures
        reply matches Reply::Received { status, text } ==> reply@ == (ReplyView::Received {
            status,
            text: text@,
        }),
        reply matches Reply::Failed(words) ==> reply@ == ReplyView::Failed(words@),
{
}

/// Each part of a step of an update, and of where it stands, is in its view.
pub proof fn lemma_step_view(step: UpdateStep, state: UpdateState)
    ensures
        state matches UpdateState::Reading { native, patch } ==> state@ == (
        UpdateStateView::Reading { native, patch: patch@ }),
        state matches UpdateState::Writing { native } ==> state@ == (UpdateStateView::Writing {
            native,
        }),
        state matches UpdateState::Rereading { native } ==> state@ == (
        UpdateStateView::Rereading { native }),
        step matches UpdateStep::Send { request, state: next } ==> step@ == (
        UpdateStepView::Send { request: request@, state: next@ }),
        step matches UpdateStep::Finish(Ok(subject)) ==> step@ == UpdateStepView::Finish(
            Ok(subject@),
        ),
        step matches UpdateStep::Finish(Err(error)) ==> step@ == UpdateStepView::Finish(
            Err(error@),
        ),
{
}

/// Each part of a schema is in its view.
pub proof fn lemma_schema_view(schema: SubjectSchema, field: CustomFieldSpec, i: int)
    ensures
        schema@.kinds.len() == schema.kinds@.len(),
        0 <= i < schema.kinds@.len() ==> schema@.kinds[i] == schema.kinds@[i]@,
        schema@.status_values == schema.status_values@,
        schema@.supports_watch == schema.supports_watch,
        schema@.supports_create == schema.supports_create,
        schema@.supports_pagination == schema.supports_pagination,
        schema@.native_status_values.len() == schema.native_status_values@.len(),
        0 <= i < schema.native_status_values@.len() ==> schema@.native_status_values[i]
            == schema.native_status_values@[i]@,
        schema@.status_dispatch_hints.len() == schema.status_dispatch_hints@.len(),
        schema@.custom_fields.len() == schema.custom_fields@.len(),
        0 <= i < schema.custom_fields@.len() ==> schema@.custom_fields[i]
            == schema.custom_fields@[i]@,
        field@.key == field.key@,
        field@.kind == field.kind,
        field.values is None <==> field@.values is None,
        field.values matches Some(values) ==> field@.values->0.len() == values@.len() && (0 <= i
            < values@.len() ==> field@.values->0[i] == values@[i]@),
{
}

/// Each part of a health check is in its view.
pub proof fn lemma_health_view(health: HealthCheckResult)
    ensures
        health@.status == health.status,
        health@.uptime_ms == health.uptime_ms,
        health@.memory_usage_bytes == health.memory_usage_bytes,
        health.last_error is None <==> health@.last_error is None,
        health.last_error matches Some(text) ==> health@.last_error == Some(text@),
{
}

} // verus!
