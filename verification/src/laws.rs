//! What holds of the backend as a whole.

pub mod account;
pub mod filter;
pub mod http;
pub mod list;
pub mod text;
pub mod ticket;
pub mod update;
pub mod views;

use vstd::prelude::*;

use crate::backend::{health_of, schema_of, ticket_schema, watch_of};
use crate::config::{account_url, non_blank, non_empty, ZendeskConfigView};
use crate::filter::lemma_admitted_are_the_admitted;
use crate::http::{reply_outcome, request_outcome, Method, ReplyView};
use crate::json::JsonView;
use crate::labels::{lemma_merged_is_the_listing, merged_labels};
use crate::list::{
    get_outcome, list_outcome, list_path, per_page, subjects_outcome, ticket_items, ticket_path,
};
use crate::native::{
    lemma_id_round_trip, native_of_status, priority_of_native, status_of_native, ticket_named,
    NativeId,
};
use crate::protocol::{
    BackendErrorView, CustomFieldKind, HealthStatus, SubjectFilterView, SubjectPatchView,
    SubjectStatus, SubjectView, Timestamp,
};
use crate::text::{parsed_u64, trimmed, without_end_slashes};
use crate::ticket::ticket_outcome;
use crate::update::{
    internal_comment, string_array, update_body, update_fields, update_next, update_start,
    UpdateStateView, UpdateStepView,
};
use crate::url::{is_query_safe, lemma_encoded_is_query_safe, percent_encoded};

verus! {

// Configuration.

/// A backend says that it is healthy if and only if it can make requests.
pub proof fn lemma_healthy_means_requests(
    config: ZendeskConfigView,
    method: Method,
    path: Seq<char>,
    body: Option<JsonView>,
)
    ensures
        health_of(config).status == HealthStatus::Healthy <==> request_outcome(
            config,
            method,
            path,
            body,
        ) is Ok,
        health_of(config).status == HealthStatus::Healthy <==> health_of(config).last_error is None,
{
}

/// The address of an account does not end with a slash, so a path can follow it.
pub proof fn lemma_base_url_has_no_end_slash(
    base_url: Option<Seq<char>>,
    subdomain: Option<Seq<char>>,
)
    ensures
        account_url(base_url, subdomain).len() > 0 ==> account_url(base_url, subdomain).last()
            != '/',
{
    reveal_strlit(".zendesk.com");
    assert(".zendesk.com"@.len() == 12);
    match base_url {
        Some(url) => lemma_no_end_slash(url),
        None => {},
    }
}

/// Where the base URL is unset or blank, a subdomain that is not blank gives an address.
pub proof fn lemma_subdomain_gives_an_address(
    base_url: Option<Seq<char>>,
    subdomain: Option<Seq<char>>,
)
    requires
        non_blank(base_url) is None,
        non_blank(subdomain) is Some,
    ensures
        account_url(base_url, subdomain).len() > 0,
        account_url(base_url, subdomain) == "https://"@ + trimmed(subdomain->0) + ".zendesk.com"@,
{
    reveal_strlit(".zendesk.com");
    assert(".zendesk.com"@.len() == 12);
}

proof fn lemma_no_end_slash(s: Seq<char>)
    ensures
        without_end_slashes(s).len() > 0 ==> without_end_slashes(s).last() != '/',
    decreases s.len(),
{
    if s.len() > 0 && s.last() == '/' {
        lemma_no_end_slash(s.drop_last());
    }
}

// Tickets as subjects.

/// The id of the subject that stands for a ticket names that ticket.
pub proof fn lemma_subject_names_its_ticket(base_url: Seq<char>, ticket: JsonView)
    requires
        ticket_outcome(base_url, ticket) is Ok,
    ensures
        ticket.unsigned_field("id"@) matches Some(ticket_id) && ticket_named(
            ticket_outcome(base_url, ticket)->Ok_0.id,
        ) == Ok::<NativeId, BackendErrorView>(NativeId { ticket_id }),
{
    lemma_id_round_trip(ticket.unsigned_field("id"@)->0);
}

/// Whether a value is of the kind that a custom field holds.
pub open spec fn is_of_kind(value: JsonView, kind: CustomFieldKind) -> bool {
    match kind {
        CustomFieldKind::Number => value is Unsigned || value is OtherNumber,
        CustomFieldKind::String => value is String,
    }
}

/// The schema has no two custom fields with one key.
pub proof fn lemma_schema_keys_are_distinct(i: int, j: int)
    requires
        0 <= i < ticket_schema().custom_fields.len(),
        0 <= j < ticket_schema().custom_fields.len(),
        ticket_schema().custom_fields[i].key == ticket_schema().custom_fields[j].key,
    ensures
        i == j,
{
    reveal_strlit("requester_id");
    reveal_strlit("submitter_id");
    reveal_strlit("group_id");
    reveal_strlit("priority");
    assert("requester_id"@.len() == 12 && "submitter_id"@.len() == 12);
    assert("group_id"@.len() == 8 && "priority"@.len() == 8);
    assert("requester_id"@[0] != "submitter_id"@[0]);
    assert("group_id"@[0] != "priority"@[0]);
    let fields = ticket_schema().custom_fields;
    assert(fields.len() == 4 && fields[0].key == "requester_id"@ && fields[1].key
        == "submitter_id"@ && fields[2].key == "group_id"@ && fields[3].key == "priority"@);
}

/// The subject that stands for a ticket fits the schema: its kind and its status are among
/// those of the schema, and each of its custom fields is there, once, with a kind that its
/// value is of.
pub proof fn lemma_subject_fits_schema(base_url: Seq<char>, ticket: JsonView)
    requires
        ticket_outcome(base_url, ticket) is Ok,
    ensures
        ({
            let subject = ticket_outcome(base_url, ticket)->Ok_0;
            let schema = ticket_schema();
            &&& schema.kinds.contains(subject.kind)
            &&& schema.status_values.contains(subject.status)
            &&& forall|key: Seq<char>| #[trigger]
                subject.custom.dom().contains(key) ==> {
                    &&& exists|i: int|
                        0 <= i < schema.custom_fields.len() && (
                        #[trigger] schema.custom_fields[i]).key == key && is_of_kind(
                            subject.custom[key],
                            schema.custom_fields[i].kind,
                        )
                    &&& forall|i: int, j: int|
                        0 <= i < schema.custom_fields.len() && 0 <= j < schema.custom_fields.len()
                            && (#[trigger] schema.custom_fields[i]).key == key && (
                        #[trigger] schema.custom_fields[j]).key == key ==> i == j
                }
        }),
{
    let subject = ticket_outcome(base_url, ticket)->Ok_0;
    let schema = ticket_schema();
    assert(schema.kinds[0] == subject.kind);
    assert(schema.status_values[0] == SubjectStatus::Ready);
    assert(schema.status_values[1] == SubjectStatus::InProgress);
    assert(schema.status_values[2] == SubjectStatus::Blocked);
    assert(schema.status_values[3] == SubjectStatus::Done);
    let fields = schema.custom_fields;
    assert(fields.len() == 4);
    assert(fields[0].key == "requester_id"@ && fields[0].kind == CustomFieldKind::Number);
    assert(fields[1].key == "submitter_id"@ && fields[1].kind == CustomFieldKind::Number);
    assert(fields[2].key == "group_id"@ && fields[2].kind == CustomFieldKind::Number);
    assert(fields[3].key == "priority"@ && fields[3].kind == CustomFieldKind::String);
    assert forall|i: int, j: int|
        0 <= i < fields.len() && 0 <= j < fields.len() && (#[trigger] fields[i]).key == (
        #[trigger] fields[j]).key implies i == j by {
        lemma_schema_keys_are_distinct(i, j);
    }
    assert forall|key: Seq<char>| #[trigger]
        subject.custom.dom().contains(key) implies exists|i: int|
        0 <= i < fields.len() && (#[trigger] fields[i]).key == key && is_of_kind(
            subject.custom[key],
            fields[i].kind,
        ) by {
        let i = if key == fields[0].key {
            0int
        } else if key == fields[1].key {
            1int
        } else if key == fields[2].key {
            2int
        } else {
            3int
        };
        assert(fields[3].key != fields[0].key && fields[3].key != fields[1].key && fields[3].key
            != fields[2].key);
        assert(fields[i].key == key && is_of_kind(subject.custom[key], fields[i].kind));
    }
}

/// Whatever the configuration, the schema is the same, and says that tickets can be watched if
/// and only if they can.
pub proof fn lemma_schema_agrees_with_watching(config: ZendeskConfigView, other: ZendeskConfigView)
    ensures
        schema_of(config) == schema_of(other),
        schema_of(config).supports_watch <==> watch_of(config) is Some,
{
}

/// A native status that the schema names is read as a status that the schema names.
pub proof fn lemma_read_status_fits_schema(native: Seq<char>)
    requires
        ticket_schema().native_status_values.contains(native),
    ensures
        ticket_schema().status_values.contains(status_of_native(native)),
{
    let values = ticket_schema().status_values;
    assert(values[0] == SubjectStatus::Ready);
    assert(values[1] == SubjectStatus::InProgress);
    assert(values[2] == SubjectStatus::Blocked);
    assert(values[3] == SubjectStatus::Done);
}

/// The status that is written for a status of the protocol is one that the schema names.
pub proof fn lemma_written_status_fits_schema(status: SubjectStatus)
    ensures
        ticket_schema().native_status_values.contains(native_of_status(status)),
{
    let values = ticket_schema().native_status_values;
    assert(values[1] == "open"@);
    assert(values[2] == "pending"@);
    assert(values[4] == "solved"@);
}

/// A ticket whose native status is one that the schema names, but `new`, is not ready.
pub proof fn lemma_native_statuses(native: Seq<char>)
    requires
        ticket_schema().native_status_values.contains(native),
    ensures
        status_of_native(native) == SubjectStatus::Ready <==> native == "new"@,
{
    reveal_strlit("new");
    reveal_strlit("open");
    reveal_strlit("pending");
    reveal_strlit("hold");
    reveal_strlit("solved");
    reveal_strlit("closed");
    assert("new"@.len() == 3 && "open"@.len() == 4 && "pending"@.len() == 7 && "hold"@.len() == 4
        && "solved"@.len() == 6 && "closed"@.len() == 6);
    let values = ticket_schema().native_status_values;
    let i = choose|i: int| 0 <= i < values.len() && values[i] == native;
    assert(values.len() == 6);
}

/// The four priorities that the schema names are those that have a number.
pub proof fn lemma_priorities(native: Seq<char>)
    ensures
        priority_of_native(native) is Some <==> ticket_schema().custom_fields[3].values->0.contains(
            native,
        ),
{
    let values = ticket_schema().custom_fields[3].values->0;
    assert(values[0] == "low"@ && values[1] == "normal"@ && values[2] == "high"@ && values[3]
        == "urgent"@ && values.len() == 4);
    if values.contains(native) {
        let i = choose|i: int| 0 <= i < values.len() && values[i] == native;
        assert(i == 0 || i == 1 || i == 2 || i == 3);
    }
}

// Listing.

/// From 1 to 100 tickets are asked for, whatever the limit.
pub proof fn lemma_page_is_bounded(limit: Option<u32>)
    ensures
        1 <= per_page(limit) <= 100,
        limit matches Some(n) && 1 <= n <= 100 ==> per_page(limit) == limit->0,
{
}

/// There are subjects for tickets if and only if there is one for each; then they are those,
/// in the order of the tickets.
pub proof fn lemma_subjects_are_of_all_tickets(base_url: Seq<char>, tickets: Seq<JsonView>)
    ensures
        subjects_outcome(base_url, tickets) is Ok <==> forall|i: int|
            0 <= i < tickets.len() ==> ticket_outcome(base_url, #[trigger] tickets[i]) is Ok,
        subjects_outcome(base_url, tickets) matches Ok(subjects) ==> {
            &&& subjects.len() == tickets.len()
            &&& forall|i: int|
                0 <= i < tickets.len() ==> ticket_outcome(base_url, #[trigger] tickets[i]) == Ok::<
                    SubjectView,
                    BackendErrorView,
                >(subjects[i])
        },
    decreases tickets.len(),
{
    if tickets.len() > 0 {
        let front = tickets.drop_last();
        lemma_subjects_are_of_all_tickets(base_url, front);
        assert(forall|i: int| 0 <= i < front.len() ==> #[trigger] tickets[i] == front[i]);
        if subjects_outcome(base_url, front) is Err {
            let i = choose|i: int|
                0 <= i < front.len() && !(ticket_outcome(base_url, #[trigger] front[i]) is Ok);
            assert(!(ticket_outcome(base_url, tickets[i]) is Ok));
        } else {
            assert(tickets[tickets.len() - 1] == tickets.last());
            if ticket_outcome(base_url, tickets.last()) is Ok {
                let subjects = subjects_outcome(base_url, tickets)->Ok_0;
                let firsts = subjects_outcome(base_url, front)->Ok_0;
                assert forall|i: int| 0 <= i < tickets.len() implies ticket_outcome(
                    base_url,
                    #[trigger] tickets[i],
                ) == Ok::<SubjectView, BackendErrorView>(subjects[i]) by {
                    if i < front.len() {
                        assert(ticket_outcome(base_url, front[i]) == Ok::<
                            SubjectView,
                            BackendErrorView,
                        >(firsts[i]));
                    }
                }
            }
        }
    }
}

/// A list holds exactly the subjects that stand for the tickets of the response and that the
/// filter admits.
pub proof fn lemma_list_is_the_admitted_tickets(
    base_url: Seq<char>,
    value: JsonView,
    filter: SubjectFilterView,
    fetched_at: Timestamp,
    subject: SubjectView,
)
    requires
        list_outcome(base_url, value, filter, fetched_at) is Ok,
    ensures
        list_outcome(base_url, value, filter, fetched_at)->Ok_0.subjects.contains(subject)
            <==> filter.admits(subject) && exists|i: int|
            0 <= i < ticket_items(value)->Ok_0.len() && ticket_outcome(
                base_url,
                #[trigger] ticket_items(value)->Ok_0[i],
            ) == Ok::<SubjectView, BackendErrorView>(subject),
{
    let tickets = ticket_items(value)->Ok_0;
    let subjects = subjects_outcome(base_url, tickets)->Ok_0;
    lemma_subjects_are_of_all_tickets(base_url, tickets);
    lemma_admitted_are_the_admitted(subjects, filter, subject);
    if subjects.contains(subject) {
        let i = choose|i: int| 0 <= i < subjects.len() && subjects[i] == subject;
        assert(ticket_outcome(base_url, tickets[i]) == Ok::<SubjectView, BackendErrorView>(subject));
    }
    if exists|i: int|
        0 <= i < tickets.len() && ticket_outcome(base_url, #[trigger] tickets[i]) == Ok::<
            SubjectView,
            BackendErrorView,
        >(subject) {
        let i = choose|i: int|
            0 <= i < tickets.len() && ticket_outcome(base_url, #[trigger] tickets[i]) == Ok::<
                SubjectView,
                BackendErrorView,
            >(subject);
        assert(subjects[i] == subject);
    }
}

/// A search cannot change anything in the request but its own parameter: between the parameter
/// names of the path stand only characters that end no parameter.
pub proof fn lemma_search_stays_in_its_parameter(query: Seq<char>, limit: Option<u32>, i: int)
    requires
        "/api/v2/search.json?query="@.len() <= i < "/api/v2/search.json?query="@.len()
            + percent_encoded(query).len(),
    ensures
        is_query_safe(list_path(Some(query), limit)[i]),
{
    let start = "/api/v2/search.json?query="@;
    lemma_encoded_is_query_safe(query, i - start.len());
    assert(list_path(Some(query), limit)[i] == percent_encoded(query)[i - start.len()]);
}

// Updating.

/// Whether a patch asks for no change.
pub open spec fn asks_for_nothing(patch: SubjectPatchView) -> bool {
    &&& patch.status is None
    &&& patch.assignee is None
    &&& patch.labels_add.len() == 0
    &&& patch.labels_remove.len() == 0
    &&& non_empty(patch.comment) is None
}

/// A patch writes a field if and only if it asks for that change, and no other field; it
/// writes the assignee as a number, or as null to take it away; comments are internal.
pub proof fn lemma_writes_what_is_asked(labels: Seq<Seq<char>>, patch: SubjectPatchView)
    requires
        update_fields(labels, patch) is Ok,
    ensures
        ({
            let fields = JsonView::Object(update_fields(labels, patch)->Ok_0);
            &&& fields.field("status"@) == match patch.status {
                Some(status) => Some(JsonView::String(native_of_status(status))),
                None => None,
            }
            &&& fields.field("assignee_id"@) == match patch.assignee {
                Some(Some(raw)) => Some(JsonView::Unsigned(parsed_u64(raw)->0)),
                Some(None) => Some(JsonView::Null),
                None => None,
            }
            &&& fields.field("tags"@) == if patch.labels_add.len() > 0 || patch.labels_remove.len()
                > 0 {
                Some(string_array(merged_labels(labels, patch.labels_add, patch.labels_remove)))
            } else {
                None
            }
            &&& fields.field("comment"@) == match non_empty(patch.comment) {
                Some(comment) => Some(internal_comment(comment)),
                None => None,
            }
            &&& forall|key: Seq<char>|
                key != "status"@ && key != "assignee_id"@ && key != "tags"@ && key != "comment"@
                    ==> #[trigger] fields.field(key) is None
        }),
{
    reveal_strlit("status");
    reveal_strlit("assignee_id");
    reveal_strlit("tags");
    reveal_strlit("comment");
    assert("status"@.len() == 6 && "assignee_id"@.len() == 11 && "tags"@.len() == 4
        && "comment"@.len() == 7);
}

/// A comment is seen by agents alone.
pub proof fn lemma_comments_are_internal(body: Seq<char>)
    ensures
        internal_comment(body).field("public"@) == Some(JsonView::Bool(false)),
        internal_comment(body).string_field("body"@) == Some(body),
{
    reveal_strlit("body");
    reveal_strlit("public");
    assert("body"@.len() == 4 && "public"@.len() == 6);
}

/// A patch can be written unless it names an assignee that is no number.
pub proof fn lemma_only_assignee_can_be_wrong(labels: Seq<Seq<char>>, patch: SubjectPatchView)
    ensures
        update_fields(labels, patch) is Err <==> (patch.assignee matches Some(Some(raw))
            && parsed_u64(raw) is None),
{
}

/// There is nothing to write if and only if the patch asks for nothing.
pub proof fn lemma_nothing_asked_nothing_written(labels: Seq<Seq<char>>, patch: SubjectPatchView)
    ensures
        update_fields(labels, patch) == Ok::<Map<Seq<char>, JsonView>, BackendErrorView>(
            Map::empty(),
        ) <==> asks_for_nothing(patch),
{
    if !asks_for_nothing(patch) && update_fields(labels, patch) is Ok {
        lemma_writes_what_is_asked(labels, patch);
        let fields = JsonView::Object(update_fields(labels, patch)->Ok_0);
        assert(fields.field("status"@) is Some || fields.field("assignee_id"@) is Some
            || fields.field("tags"@) is Some || fields.field("comment"@) is Some);
        assert(JsonView::Object(Map::empty()).field("status"@) is None);
        assert(JsonView::Object(Map::empty()).field("assignee_id"@) is None);
        assert(JsonView::Object(Map::empty()).field("tags"@) is None);
        assert(JsonView::Object(Map::empty()).field("comment"@) is None);
    }
}

/// Each request of an update goes to the ticket that its id names, with the credentials of the
/// account, and the update stays with that ticket.
pub proof fn lemma_update_stays_with_its_ticket(
    config: ZendeskConfigView,
    state: UpdateStateView,
    reply: ReplyView,
)
    ensures
        update_next(config, state, reply) matches UpdateStepView::Send { request, state: next } ==> {
            &&& next.native() == state.native()
            &&& request.url == config.base_url + ticket_path(state.native().ticket_id)
            &&& Some(request.password) == config.api_token
        },
{
}

/// An update starts with a read of the ticket that the id names; where the id names none, or
/// the account is not configured, it ends at once, without a request.
pub proof fn lemma_update_starts_with_a_read(
    config: ZendeskConfigView,
    id: Seq<char>,
    patch: SubjectPatchView,
)
    ensures
        update_start(config, id, patch) matches UpdateStepView::Send { request, state } ==> {
            &&& request.method == Method::Get
            &&& ticket_named(id) == Ok::<NativeId, BackendErrorView>(state.native())
            &&& request.url == config.base_url + ticket_path(state.native().ticket_id)
            &&& state == UpdateStateView::Reading { native: state.native(), patch }
        },
        update_start(config, id, patch) is Send <==> ticket_named(id) is Ok && config.configured(),
{
}

/// After each reply fewer requests can follow: an update makes at most three.
pub proof fn lemma_update_ends(config: ZendeskConfigView, state: UpdateStateView, reply: ReplyView)
    ensures
        update_next(config, state, reply) matches UpdateStepView::Send { state: next, .. }
            ==> next.requests_to_come() < state.requests_to_come(),
        state.requests_to_come() <= 2,
{
}

/// An update writes only after it has read the ticket, only once, and only what the patch
/// asks for; with a patch that asks for nothing it never writes.
pub proof fn lemma_update_writes_once(
    config: ZendeskConfigView,
    state: UpdateStateView,
    reply: ReplyView,
)
    ensures
        update_next(config, state, reply) matches UpdateStepView::Send { request, state: next } ==> (
        request.method == Method::Put ==> {
            &&& state matches UpdateStateView::Reading { native, patch } && {
                &&& !asks_for_nothing(patch)
                &&& get_outcome(config, native.ticket_id, reply) matches Ok(current) && {
                    &&& update_fields(current.labels, patch) matches Ok(fields) && request.body
                        == Some(update_body(fields))
                }
            }
            &&& next is Writing
        }),
{
    match state {
        UpdateStateView::Reading { native, patch } => {
            match get_outcome(config, native.ticket_id, reply) {
                Ok(current) => {
                    lemma_nothing_asked_nothing_written(current.labels, patch);
                },
                Err(_) => {},
            }
        },
        _ => {},
    }
}

/// What a patch asks for is written: once the ticket is read, a patch that asks for a change and
/// names no assignee that is no number goes out in one request to the ticket.
pub proof fn lemma_update_writes_what_is_asked(
    config: ZendeskConfigView,
    native: NativeId,
    patch: SubjectPatchView,
    reply: ReplyView,
)
    requires
        config.configured(),
        get_outcome(config, native.ticket_id, reply) is Ok,
        !asks_for_nothing(patch),
        patch.assignee matches Some(Some(raw)) ==> parsed_u64(raw) is Some,
    ensures
        ({
            let current = get_outcome(config, native.ticket_id, reply)->Ok_0;
            let fields = update_fields(current.labels, patch);
            &&& fields is Ok
            &&& update_next(config, UpdateStateView::Reading { native, patch }, reply) matches
                UpdateStepView::Send { request, state } && {
                &&& request.method == Method::Put
                &&& request.url == config.base_url + ticket_path(native.ticket_id)
                &&& request.body == Some(update_body(fields->Ok_0))
                &&& state == UpdateStateView::Writing { native }
            }
        }),
{
    let current = get_outcome(config, native.ticket_id, reply)->Ok_0;
    lemma_only_assignee_can_be_wrong(current.labels, patch);
    lemma_nothing_asked_nothing_written(current.labels, patch);
}

/// A patch that asks for nothing leaves the ticket alone: it is read again at once.
pub proof fn lemma_empty_patch_only_reads(
    config: ZendeskConfigView,
    native: NativeId,
    patch: SubjectPatchView,
    reply: ReplyView,
)
    requires
        config.configured(),
        get_outcome(config, native.ticket_id, reply) is Ok,
        asks_for_nothing(patch),
    ensures
        update_next(config, UpdateStateView::Reading { native, patch }, reply) matches
            UpdateStepView::Send { request, state } && {
            &&& request.method == Method::Get
            &&& request.body is None
            &&& state == UpdateStateView::Rereading { native }
        },
{
    let current = get_outcome(config, native.ticket_id, reply)->Ok_0;
    lemma_nothing_asked_nothing_written(current.labels, patch);
}

/// An update that succeeds gives the ticket as it was read last, after anything was written.
pub proof fn lemma_update_gives_what_was_read_last(
    config: ZendeskConfigView,
    state: UpdateStateView,
    reply: ReplyView,
)
    requires
        update_next(config, state, reply) matches UpdateStepView::Finish(Ok(_)),
    ensures
        state is Rereading,
        update_next(config, state, reply) == UpdateStepView::Finish(
            get_outcome(config, state.native().ticket_id, reply),
        ),
{
}

/// An update whose write is refused ends with the reason.
pub proof fn lemma_refused_write_ends_update(
    config: ZendeskConfigView,
    native: NativeId,
    reply: ReplyView,
)
    requires
        reply_outcome(ticket_path(native.ticket_id), reply) is Err,
    ensures
        update_next(config, UpdateStateView::Writing { native }, reply) == UpdateStepView::Finish(
            Err(reply_outcome(ticket_path(native.ticket_id), reply)->Err_0),
        ),
{
}

/// No label that a patch removes is written.
pub proof fn lemma_removed_labels_are_not_written(
    labels: Seq<Seq<char>>,
    patch: SubjectPatchView,
    label: Seq<char>,
)
    requires
        patch.labels_remove.contains(label),
    ensures
        !merged_labels(labels, patch.labels_add, patch.labels_remove).contains(label),
{
    lemma_merged_is_the_listing(labels, patch.labels_add, patch.labels_remove);
}

} // verus!
