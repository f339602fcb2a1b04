//! Updating a ticket: what is written, and in which steps.

use vstd::prelude::*;

use crate::backend::ZendeskBackend;
use crate::config::{non_empty, ZendeskConfigView};
use crate::http::{
    json_reply, reply_outcome, request_outcome, HttpRequest, HttpRequestView, Method,
    Reply, ReplyView,
};
use crate::json::{json_views, Json, JsonObject, JsonView};
use crate::labels::{merge_labels, merged_labels};
use crate::list::{get_outcome, path_of_ticket, ticket_path};
use crate::native::{native_of_status, status_to_native, ticket_named, NativeId};
use crate::protocol::{
    outcome, BackendError, BackendErrorView, Subject, SubjectId, SubjectPatch, SubjectPatchView,
    SubjectView,
};
use crate::text::{parse_u64, parsed_u64, strings};

verus! {

// What is written.

/// The fields with the status of a patch.
pub open spec fn with_status(
    fields: Map<Seq<char>, JsonView>,
    patch: SubjectPatchView,
) -> Map<Seq<char>, JsonView> {
    match patch.status {
        Some(status) => fields.insert("status"@, JsonView::String(native_of_status(status))),
        None => fields,
    }
}

/// The fields with the assignee of a patch, or why it cannot be one: users have numbers.
pub open spec fn with_assignee(
    fields: Map<Seq<char>, JsonView>,
    patch: SubjectPatchView,
) -> Result<Map<Seq<char>, JsonView>, BackendErrorView> {
    match patch.assignee {
        None => Ok(fields),
        Some(None) => Ok(fields.insert("assignee_id"@, JsonView::Null)),
        Some(Some(raw)) => match parsed_u64(raw) {
            Some(id) => Ok(fields.insert("assignee_id"@, JsonView::Unsigned(id))),
            None => Err(
                BackendErrorView::InvalidRequest("Zendesk assignee must be a numeric user id"@),
            ),
        },
    }
}

/// Strings as a JSON array.
pub open spec fn string_array(list: Seq<Seq<char>>) -> JsonView {
    JsonView::Array(Seq::new(list.len(), |i: int| JsonView::String(list[i])))
}

/// The fields with all the labels that a ticket then has, where a patch adds or removes any.
pub open spec fn with_labels(
    fields: Map<Seq<char>, JsonView>,
    labels: Seq<Seq<char>>,
    patch: SubjectPatchView,
) -> Map<Seq<char>, JsonView> {
    if patch.labels_add.len() > 0 || patch.labels_remove.len() > 0 {
        fields.insert(
            "tags"@,
            string_array(merged_labels(labels, patch.labels_add, patch.labels_remove)),
        )
    } else {
        fields
    }
}

/// A comment that only agents see.
pub open spec fn internal_comment(body: Seq<char>) -> JsonView {
    JsonView::Object(
        Map::empty().insert("body"@, JsonView::String(body)).insert(
            "public"@,
            JsonView::Bool(false),
        ),
    )
}

/// The fields with the comment of a patch, where it is not empty.
pub open spec fn with_comment(
    fields: Map<Seq<char>, JsonView>,
    patch: SubjectPatchView,
) -> Map<Seq<char>, JsonView> {
    match non_empty(patch.comment) {
        Some(comment) => fields.insert("comment"@, internal_comment(comment)),
        None => fields,
    }
}

/// The fields of a ticket that a patch writes, given the labels that the ticket has, or why it
/// can write none.
pub open spec fn update_fields(labels: Seq<Seq<char>>, patch: SubjectPatchView) -> Result<
    Map<Seq<char>, JsonView>,
    BackendErrorView,
> {
    match with_assignee(with_status(Map::empty(), patch), patch) {
        Err(error) => Err(error),
        Ok(fields) => Ok(with_comment(with_labels(fields, labels, patch), patch)),
    }
}

/// The body of a write.
pub open spec fn update_body(fields: Map<Seq<char>, JsonView>) -> JsonView {
    JsonView::Object(Map::empty().insert("ticket"@, JsonView::Object(fields)))
}

/// Strings as a JSON array.
fn strings_to_json(list: Vec<String>) -> (array: Json)
    ensures
        array@ == string_array(strings(list@)),
{
    let ghost texts = strings(list@);
    let mut items: Vec<Json> = Vec::new();
    for text in walk: list
        invariant
            texts == strings(walk.seq()),
            items@.len() == walk.index(),
            forall|i: int|
                0 <= i < items@.len() ==> (#[trigger] items@[i])@ == JsonView::String(texts[i]),
    {
        assert(texts[walk.index() as int] == text@);
        items.push(Json::String(text));
    }
    assert(json_views(items@) =~= Seq::new(texts.len(), |i: int| JsonView::String(texts[i])));
    Json::Array(items)
}

fn comment_to_json(body: &str) -> (comment: Json)
    ensures
        comment@ == internal_comment(body@),
{
    let fields = JsonObject::new().insert("body", Json::String(body.to_owned()));
    fields.insert("public", Json::Bool(false)).into_json()
}

/// The fields of a ticket that a patch writes, given the labels that the ticket has.
pub fn fields_to_write(labels: &Vec<String>, patch: &SubjectPatch) -> (fields: Result<
    JsonObject,
    BackendError,
>)
    ensures
        outcome(fields) == update_fields(strings(labels@), patch@),
{
    let fields = match patch.status {
        Some(status) => JsonObject::new().insert(
            "status",
            Json::String(status_to_native(status).to_owned()),
        ),
        None => JsonObject::new(),
    };
    let fields = match &patch.assignee {
        Some(Some(raw)) => match parse_u64(raw.as_str()) {
            Some(id) => fields.insert("assignee_id", Json::Unsigned(id)),
            None => {
                return Err(
                    BackendError::InvalidRequest(
                        "Zendesk assignee must be a numeric user id".to_owned(),
                    ),
                );
            },
        },
        Some(None) => fields.insert("assignee_id", Json::Null),
        None => fields,
    };
    let fields = if !patch.labels_add.is_empty() || !patch.labels_remove.is_empty() {
        let merged = merge_labels(labels, &patch.labels_add, &patch.labels_remove);
        fields.insert("tags", strings_to_json(merged))
    } else {
        fields
    };
    match &patch.comment {
        Some(comment) => if comment.as_str().is_empty() {
            Ok(fields)
        } else {
            Ok(fields.insert("comment", comment_to_json(comment.as_str())))
        },
        None => Ok(fields),
    }
}

// The steps.

/// Where an update stands, between a request and its reply.
#[derive(Debug, PartialEq, Eq)]
pub enum UpdateState {
    /// The ticket is being read, before anything is written.
    Reading { native: NativeId, patch: SubjectPatch },
    /// The fields are being written.
    Writing { native: NativeId },
    /// The ticket is being read again.
    Rereading { native: NativeId },
}

/// An `UpdateState` by its characters.
pub enum UpdateStateView {
    Reading { native: NativeId, patch: SubjectPatchView },
    Writing { native: NativeId },
    Rereading { native: NativeId },
}

impl View for UpdateState {
    type V = UpdateStateView;

    open spec fn view(&self) -> UpdateStateView {
        match self {
            UpdateState::Reading { native, patch } => UpdateStateView::Reading {
                native: *native,
                patch: patch@,
            },
            UpdateState::Writing { native } => UpdateStateView::Writing { native: *native },
            UpdateState::Rereading { native } => UpdateStateView::Rereading { native: *native },
        }
    }
}

impl UpdateStateView {
    /// The ticket that is being updated.
    pub open spec fn native(self) -> NativeId {
        match self {
            UpdateStateView::Reading { native, .. } => native,
            UpdateStateView::Writing { native } => native,
            UpdateStateView::Rereading { native } => native,
        }
    }

    /// How many requests may follow the one that is under way.
    pub open spec fn requests_to_come(self) -> nat {
        match self {
            UpdateStateView::Reading { .. } => 2,
            UpdateStateView::Writing { .. } => 1,
            UpdateStateView::Rereading { .. } => 0,
        }
    }
}

/// What an update does next.
#[derive(Debug, PartialEq, Eq)]
pub enum UpdateStep {
    /// It sends a request and waits for the reply.
    Send { request: HttpRequest, state: UpdateState },
    /// It is over.
    Finish(Result<Subject, BackendError>),
}

/// An `UpdateStep` by its characters.
pub enum UpdateStepView {
    Send { request: HttpRequestView, state: UpdateStateView },
    Finish(Result<SubjectView, BackendErrorView>),
}

impl View for UpdateStep {
    type V = UpdateStepView;

    open spec fn view(&self) -> UpdateStepView {
        match self {
            UpdateStep::Send { request, state } => UpdateStepView::Send {
                request: request@,
                state: state@,
            },
            UpdateStep::Finish(result) => UpdateStepView::Finish(outcome(*result)),
        }
    }
}

/// Sends a request, or ends where there can be none.
pub open spec fn send_or_finish(
    request: Result<HttpRequestView, BackendErrorView>,
    state: UpdateStateView,
) -> UpdateStepView {
    match request {
        Ok(request) => UpdateStepView::Send { request, state },
        Err(error) => UpdateStepView::Finish(Err(error)),
    }
}

/// How an update starts: by reading the ticket that the id names.
pub open spec fn update_start(
    config: ZendeskConfigView,
    id: Seq<char>,
    patch: SubjectPatchView,
) -> UpdateStepView {
    match ticket_named(id) {
        Err(error) => UpdateStepView::Finish(Err(error)),
        Ok(native) => send_or_finish(
            request_outcome(config, Method::Get, ticket_path(native.ticket_id), None),
            UpdateStateView::Reading { native, patch },
        ),
    }
}

/// How an update goes on after a reply: once the ticket is read it writes the fields, if there
/// are any; then it reads the ticket again; and ends with what it read, or with the first
/// error.
pub open spec fn update_next(
    config: ZendeskConfigView,
    state: UpdateStateView,
    reply: ReplyView,
) -> UpdateStepView {
    let path = ticket_path(state.native().ticket_id);
    let reread = send_or_finish(
        request_outcome(config, Method::Get, path, None),
        UpdateStateView::Rereading { native: state.native() },
    );
    match state {
        UpdateStateView::Reading { native, patch } => match get_outcome(
            config,
            native.ticket_id,
            reply,
        ) {
            Err(error) => UpdateStepView::Finish(Err(error)),
            Ok(current) => match update_fields(current.labels, patch) {
                Err(error) => UpdateStepView::Finish(Err(error)),
                Ok(fields) => if fields == Map::<Seq<char>, JsonView>::empty() {
                    reread
                } else {
                    send_or_finish(
                        request_outcome(config, Method::Put, path, Some(update_body(fields))),
                        UpdateStateView::Writing { native },
                    )
                },
            },
        },
        UpdateStateView::Writing { .. } => match reply_outcome(path, reply) {
            Err(error) => UpdateStepView::Finish(Err(error)),
            Ok(_) => reread,
        },
        UpdateStateView::Rereading { native } => UpdateStepView::Finish(
            get_outcome(config, native.ticket_id, reply),
        ),
    }
}

fn step(request: Result<HttpRequest, BackendError>, state: UpdateState) -> (step: UpdateStep)
    ensures
        step@ == send_or_finish(outcome(request), state@),
{
    match request {
        Ok(request) => UpdateStep::Send { request, state },
        Err(error) => UpdateStep::Finish(Err(error)),
    }
}

impl ZendeskBackend {
    /// Reads the ticket again.
    fn reread(&self, native: NativeId) -> (step: UpdateStep)
        ensures
            step@ == send_or_finish(
                request_outcome(self.config@, Method::Get, ticket_path(native.ticket_id), None),
                UpdateStateView::Rereading { native },
            ),
    {
        step(self.fetch_ticket(native), UpdateState::Rereading { native })
    }

    /// Writes the fields, if there are any, and otherwise reads the ticket again.
    pub fn write_fields(&self, native: NativeId, fields: JsonObject) -> (step: UpdateStep)
        ensures
            step@ == if fields@ == Map::<Seq<char>, JsonView>::empty() {
                send_or_finish(
                    request_outcome(self.config@, Method::Get, ticket_path(native.ticket_id), None),
                    UpdateStateView::Rereading { native },
                )
            } else {
                send_or_finish(
                    request_outcome(
                        self.config@,
                        Method::Put,
                        ticket_path(native.ticket_id),
                        Some(update_body(fields@)),
                    ),
                    UpdateStateView::Writing { native },
                )
            },
    {
        if fields.is_empty() {
            return self.reread(native);
        }
        let body = JsonObject::new().insert("ticket", fields.into_json()).into_json();
        step(
            self.request(Method::Put, path_of_ticket(native).as_str(), Some(body)),
            UpdateState::Writing { native },
        )
    }

    /// Starts to update a subject.
    pub fn update(&self, id: &SubjectId, patch: SubjectPatch) -> (next: UpdateStep)
        ensures
            next@ == update_start(self.config@, id@, patch@),
    {
        match NativeId::parse(id) {
            Ok(native) => step(
                self.fetch_ticket(native),
                UpdateState::Reading { native, patch },
            ),
            Err(error) => UpdateStep::Finish(Err(error)),
        }
    }

    /// Goes on with an update after the reply to its last request.
    pub fn update_reply(&self, state: UpdateState, reply: &Reply) -> (next: UpdateStep)
        ensures
            next@ == update_next(self.config@, state@, reply@),
    {
        match state {
            UpdateState::Reading { native, patch } => {
                let current = match self.get_reply(native, reply) {
                    Ok(current) => current,
                    Err(error) => return UpdateStep::Finish(Err(error)),
                };
                match fields_to_write(&current.labels, &patch) {
                    Ok(fields) => self.write_fields(native, fields),
                    Err(error) => UpdateStep::Finish(Err(error)),
                }
            },
            UpdateState::Writing { native } => match json_reply(
                path_of_ticket(native).as_str(),
                reply,
            ) {
                Ok(_) => self.reread(native),
                Err(error) => UpdateStep::Finish(Err(error)),
            },
            UpdateState::Rereading { native } => UpdateStep::Finish(
                self.get_reply(native, reply),
            ),
        }
    }
}

} // verus!
