//! What holds of updates.

use vstd::prelude::*;

use crate::config::ZendeskConfigView;
use crate::http::{reply_outcome, HttpRequestView, Method, ReplyView};
use crate::json::JsonView;
use crate::labels::{lemma_merged_is_the_listing, merged_labels};
use crate::laws::account::lemma_statuses_as_written;
use crate::laws::lemma_nothing_asked_nothing_written;
use crate::list::get_outcome;
use crate::native::{native_of_status, ticket_named, NativeId};
use crate::protocol::{BackendErrorView, SubjectPatchView, SubjectStatus};
use crate::text::{chars_less, decimal, parsed_u64};
use crate::update::{
    update_body, update_fields, update_next, update_start, UpdateStateView, UpdateStepView,
};

verus! {

// Labels.

/// After a merge a label is there if and only if it was there or was added, and is not removed;
/// and the labels stand in strict order.
pub proof fn lemma_merged_labels_are_those(
    current: Seq<Seq<char>>,
    add: Seq<Seq<char>>,
    remove: Seq<Seq<char>>,
    label: Seq<char>,
    i: int,
    j: int,
)
    ensures
        ({
            let merged = merged_labels(current, add, remove);
            &&& merged.contains(label) <==> (current.contains(label) || add.contains(label))
                && !remove.contains(label)
            &&& 0 <= i < j < merged.len() ==> chars_less(merged[i], merged[j])
        }),
{
    lemma_merged_is_the_listing(current, add, remove);
}

// What is written.

proof fn lemma_keys_differ()
    ensures
        "status"@ != "assignee_id"@,
        "status"@ != "tags"@,
        "status"@ != "comment"@,
        "assignee_id"@ != "tags"@,
        "assignee_id"@ != "comment"@,
        "tags"@ != "comment"@,
        "body"@ != "public"@,
{
    reveal_strlit("status");
    reveal_strlit("assignee_id");
    reveal_strlit("tags");
    reveal_strlit("comment");
    reveal_strlit("body");
    reveal_strlit("public");
    assert("status"@.len() == 6 && "assignee_id"@.len() == 11 && "tags"@.len() == 4
        && "comment"@.len() == 7 && "body"@.len() == 4 && "public"@.len() == 6);
}

/// All labels of the merge are written under `tags`, one string each, in their order, wherever a
/// patch adds or removes any; so a label is written if and only if it was there or was added,
/// and is not removed. Otherwise no tags are written.
pub proof fn lemma_all_labels_are_written(
    labels: Seq<Seq<char>>,
    patch: SubjectPatchView,
    label: Seq<char>,
)
    requires
        update_fields(labels, patch) is Ok,
    ensures
        ({
            let written = JsonView::Object(update_fields(labels, patch)->Ok_0).field("tags"@);
            let merged = merged_labels(labels, patch.labels_add, patch.labels_remove);
            &&& patch.labels_add.len() > 0 || patch.labels_remove.len() > 0 ==> {
                &&& written matches Some(JsonView::Array(tags))
                &&& tags.len() == merged.len()
                &&& forall|i: int|
                    0 <= i < merged.len() ==> #[trigger] tags[i] == JsonView::String(merged[i])
                &&& tags.contains(JsonView::String(label)) <==> (labels.contains(label)
                    || patch.labels_add.contains(label)) && !patch.labels_remove.contains(label)
            }
            &&& patch.labels_add.len() == 0 && patch.labels_remove.len() == 0 ==> written is None
        }),
{
    lemma_keys_differ();
    let merged = merged_labels(labels, patch.labels_add, patch.labels_remove);
    lemma_merged_is_the_listing(labels, patch.labels_add, patch.labels_remove);
    if patch.labels_add.len() > 0 || patch.labels_remove.len() > 0 {
        let tags = JsonView::Object(update_fields(labels, patch)->Ok_0).field("tags"@)->0->Array_0;
        if merged.contains(label) {
            let i = choose|i: int| 0 <= i < merged.len() && merged[i] == label;
            assert(tags[i] == JsonView::String(label));
        }
        if tags.contains(JsonView::String(label)) {
            let i = choose|i: int| 0 <= i < tags.len() && tags[i] == JsonView::String(label);
            assert(merged[i] == label);
        }
        assert(merged.contains(label) <==> (labels.contains(label) || patch.labels_add.contains(
            label,
        )) && !patch.labels_remove.contains(label));
    }
}

/// A status is written if and only if the patch has one: work that is ready or started as open,
/// blocked work as pending, and work that is over as solved.
pub proof fn lemma_status_is_written(labels: Seq<Seq<char>>, patch: SubjectPatchView)
    requires
        update_fields(labels, patch) is Ok,
    ensures
        ({
            let written = JsonView::Object(update_fields(labels, patch)->Ok_0).field("status"@);
            &&& written is None <==> patch.status is None
            &&& written == Some(JsonView::String("open"@)) <==> patch.status == Some(
                SubjectStatus::Ready,
            ) || patch.status == Some(SubjectStatus::InProgress)
            &&& written == Some(JsonView::String("pending"@)) <==> patch.status == Some(
                SubjectStatus::Blocked,
            )
            &&& written == Some(JsonView::String("solved"@)) <==> patch.status == Some(
                SubjectStatus::Done,
            ) || patch.status == Some(SubjectStatus::Cancelled)
        }),
{
    lemma_keys_differ();
    match patch.status {
        Some(status) => {
            lemma_statuses_as_written(status);
            assert(JsonView::Object(update_fields(labels, patch)->Ok_0).field("status"@) == Some(
                JsonView::String(native_of_status(status)),
            ));
        },
        None => {},
    }
}

/// The assignee is written if and only if the patch speaks of one: null to take it away, and
/// otherwise the number that its text stands for. A text that stands for none is refused.
pub proof fn lemma_assignee_is_written(labels: Seq<Seq<char>>, patch: SubjectPatchView)
    ensures
        ({
            let result = update_fields(labels, patch);
            let written = JsonView::Object(result->Ok_0).field("assignee_id"@);
            &&& patch.assignee is None ==> result is Ok && written is None
            &&& patch.assignee == Some(None::<Seq<char>>) ==> result is Ok && written == Some(
                JsonView::Null,
            )
            &&& patch.assignee matches Some(Some(raw)) ==> {
                &&& parsed_u64(raw) matches Some(id) ==> result is Ok && written == Some(
                    JsonView::Unsigned(id),
                )
                &&& parsed_u64(raw) is None ==> result == Err::<
                    Map<Seq<char>, JsonView>,
                    BackendErrorView,
                >(BackendErrorView::InvalidRequest("Zendesk assignee must be a numeric user id"@))
            }
        }),
{
    lemma_keys_differ();
}

/// A comment is written if and only if the patch has one that is not empty, with its words, not
/// to be seen by the public, and with nothing else.
pub proof fn lemma_comment_is_written(
    labels: Seq<Seq<char>>,
    patch: SubjectPatchView,
    key: Seq<char>,
)
    requires
        update_fields(labels, patch) is Ok,
    ensures
        ({
            let written = JsonView::Object(update_fields(labels, patch)->Ok_0).field("comment"@);
            &&& written is Some <==> (patch.comment matches Some(words) && words.len() > 0)
            &&& written matches Some(comment) ==> {
                &&& comment.field("body"@) == Some(JsonView::String(patch.comment->0))
                &&& comment.field("public"@) == Some(JsonView::Bool(false))
                &&& key != "body"@ && key != "public"@ ==> comment.field(key) is None
            }
        }),
{
    lemma_keys_differ();
}

/// No other field is written, and the fields are all that the body holds.
pub proof fn lemma_nothing_else_is_written(
    labels: Seq<Seq<char>>,
    patch: SubjectPatchView,
    fields: Map<Seq<char>, JsonView>,
    key: Seq<char>,
)
    ensures
        update_fields(labels, patch) is Ok && key != "status"@ && key != "assignee_id"@ && key
            != "tags"@ && key != "comment"@ ==> JsonView::Object(
            update_fields(labels, patch)->Ok_0,
        ).field(key) is None,
        update_body(fields).field("ticket"@) == Some(JsonView::Object(fields)),
        key != "ticket"@ ==> update_body(fields).field(key) is None,
{
}

/// The parts of a patch do not touch each other: without one of them, the other fields are
/// written as before.
pub proof fn lemma_parts_are_written_apart(
    labels: Seq<Seq<char>>,
    patch: SubjectPatchView,
    other: SubjectPatchView,
)
    requires
        update_fields(labels, patch) is Ok,
        update_fields(labels, other) is Ok,
    ensures
        ({
            let one = JsonView::Object(update_fields(labels, patch)->Ok_0);
            let two = JsonView::Object(update_fields(labels, other)->Ok_0);
            &&& patch.status == other.status ==> one.field("status"@) == two.field("status"@)
            &&& patch.assignee == other.assignee ==> one.field("assignee_id"@) == two.field(
                "assignee_id"@,
            )
            &&& patch.labels_add == other.labels_add && patch.labels_remove == other.labels_remove
                ==> one.field("tags"@) == two.field("tags"@)
            &&& patch.comment == other.comment ==> one.field("comment"@) == two.field("comment"@)
        }),
{
    lemma_keys_differ();
}

// The steps.

/// An update of a configured account whose id names a ticket starts with a read of the ticket;
/// an id that names none ends it with the reason.
pub proof fn lemma_update_starts(
    config: ZendeskConfigView,
    id: Seq<char>,
    patch: SubjectPatchView,
    ticket_id: u64,
)
    ensures
        config.configured() && ticket_named(id) == Ok::<NativeId, BackendErrorView>(
            NativeId { ticket_id },
        ) ==> update_start(config, id, patch) == (UpdateStepView::Send {
            request: HttpRequestView {
                method: Method::Get,
                url: config.base_url + ("/api/v2/tickets/"@ + decimal(ticket_id as nat)
                    + ".json"@),
                accept: "application/json"@,
                username: config.email->0 + "/token"@,
                password: config.api_token->0,
                body: None,
            },
            state: UpdateStateView::Reading { native: NativeId { ticket_id }, patch },
        }),
        ticket_named(id) matches Err(error) ==> update_start(config, id, patch)
            == UpdateStepView::Finish(Err(error)),
{
}

/// Once the ticket is read, a patch that asks for any change goes out in one write to the
/// ticket, with all that it writes given the labels that were read.
pub proof fn lemma_read_is_followed_by_the_write(
    config: ZendeskConfigView,
    ticket_id: u64,
    patch: SubjectPatchView,
    reply: ReplyView,
)
    requires
        config.configured(),
        get_outcome(config, ticket_id, reply) is Ok,
        patch.assignee matches Some(Some(raw)) ==> parsed_u64(raw) is Some,
        patch.status is Some || patch.assignee is Some || patch.labels_add.len() > 0
            || patch.labels_remove.len() > 0 || (patch.comment matches Some(words) && words.len()
            > 0),
    ensures
        ({
            let current = get_outcome(config, ticket_id, reply)->Ok_0;
            let native = NativeId { ticket_id };
            &&& update_fields(current.labels, patch) matches Ok(fields)
            &&& update_next(config, UpdateStateView::Reading { native, patch }, reply) == (
            UpdateStepView::Send {
                request: HttpRequestView {
                    method: Method::Put,
                    url: config.base_url + ("/api/v2/tickets/"@ + decimal(ticket_id as nat)
                        + ".json"@),
                    accept: "application/json"@,
                    username: config.email->0 + "/token"@,
                    password: config.api_token->0,
                    body: Some(update_body(fields)),
                },
                state: UpdateStateView::Writing { native },
            })
        }),
{
    let current = get_outcome(config, ticket_id, reply)->Ok_0;
    lemma_nothing_asked_nothing_written(current.labels, patch);
}

/// A patch that asks for nothing, and every write that succeeds, is followed by another read of
/// the ticket.
pub proof fn lemma_update_reads_again(
    config: ZendeskConfigView,
    ticket_id: u64,
    patch: SubjectPatchView,
    reply: ReplyView,
)
    requires
        config.configured(),
    ensures
        ({
            let native = NativeId { ticket_id };
            let path = "/api/v2/tickets/"@ + decimal(ticket_id as nat) + ".json"@;
            let again = UpdateStepView::Send {
                request: HttpRequestView {
                    method: Method::Get,
                    url: config.base_url + path,
                    accept: "application/json"@,
                    username: config.email->0 + "/token"@,
                    password: config.api_token->0,
                    body: None,
                },
                state: UpdateStateView::Rereading { native },
            };
            &&& get_outcome(config, ticket_id, reply) is Ok && patch.status is None
                && patch.assignee is None && patch.labels_add.len() == 0
                && patch.labels_remove.len() == 0 && !(patch.comment matches Some(words)
                && words.len() > 0) ==> update_next(
                config,
                UpdateStateView::Reading { native, patch },
                reply,
            ) == again
            &&& reply_outcome(path, reply) is Ok ==> update_next(
                config,
                UpdateStateView::Writing { native },
                reply,
            ) == again
        }),
{
    if get_outcome(config, ticket_id, reply) is Ok {
        lemma_nothing_asked_nothing_written(
            get_outcome(config, ticket_id, reply)->Ok_0.labels,
            patch,
        );
    }
}

/// An update ends with the first thing that goes wrong, and otherwise with what the last read
/// gives.
pub proof fn lemma_update_ends_with_the_first_error(
    config: ZendeskConfigView,
    ticket_id: u64,
    patch: SubjectPatchView,
    reply: ReplyView,
)
    ensures
        ({
            let native = NativeId { ticket_id };
            let path = "/api/v2/tickets/"@ + decimal(ticket_id as nat) + ".json"@;
            let reading = update_next(config, UpdateStateView::Reading { native, patch }, reply);
            &&& get_outcome(config, ticket_id, reply) matches Err(error) ==> reading
                == UpdateStepView::Finish(Err(error))
            &&& get_outcome(config, ticket_id, reply) is Ok && (patch.assignee matches Some(
                Some(raw),
            ) && parsed_u64(raw) is None) ==> reading == UpdateStepView::Finish(
                Err(
                    BackendErrorView::InvalidRequest("Zendesk assignee must be a numeric user id"@),
                ),
            )
            &&& reply_outcome(path, reply) matches Err(error) ==> update_next(
                config,
                UpdateStateView::Writing { native },
                reply,
            ) == UpdateStepView::Finish(Err(error))
            &&& update_next(config, UpdateStateView::Rereading { native }, reply)
                == UpdateStepView::Finish(get_outcome(config, ticket_id, reply))
        }),
{
}

/// A whole update: with a ticket that is read, a write that is accepted and a second read, it
/// makes these three requests in turn and gives the subject of the second read, as getting the
/// ticket then would.
pub proof fn lemma_update_gives_what_get_gives(
    config: ZendeskConfigView,
    id: Seq<char>,
    patch: SubjectPatchView,
    ticket_id: u64,
    first: ReplyView,
    second: ReplyView,
    third: ReplyView,
)
    requires
        config.configured(),
        ticket_named(id) == Ok::<NativeId, BackendErrorView>(NativeId { ticket_id }),
        get_outcome(config, ticket_id, first) is Ok,
        patch.assignee matches Some(Some(raw)) ==> parsed_u64(raw) is Some,
        patch.status is Some || patch.assignee is Some || patch.labels_add.len() > 0
            || patch.labels_remove.len() > 0 || (patch.comment matches Some(words) && words.len()
            > 0),
        reply_outcome("/api/v2/tickets/"@ + decimal(ticket_id as nat) + ".json"@, second) is Ok,
    ensures
        ({
            let start = update_start(config, id, patch);
            let write = update_next(config, start->state, first);
            let reread = update_next(config, write->state, second);
            &&& start is Send && start->request.method == Method::Get
            &&& write is Send && write->request.method == Method::Put
            &&& reread is Send && reread->request.method == Method::Get
            &&& update_next(config, reread->state, third) == UpdateStepView::Finish(
                get_outcome(config, ticket_id, third),
            )
        }),
{
    lemma_read_is_followed_by_the_write(config, ticket_id, patch, first);
}

} // verus!
