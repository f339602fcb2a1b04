//! What holds of listing subjects, and of getting one.

use vstd::prelude::*;

use crate::config::ZendeskConfigView;
use crate::filter::admitted;
use crate::http::{reply_outcome, HttpRequestView, Method, ReplyView};
use crate::json::JsonView;
use crate::laws::filter::lemma_subjects_pass_one_by_one;
use crate::laws::lemma_subjects_are_of_all_tickets;
use crate::laws::text::lemma_decimal_is_injective;
use crate::list::{
    get_outcome, get_request, list_outcome, list_path, list_reply_outcome, list_request, per_page,
    subjects_outcome, ticket_items, ticket_member,
};
use crate::native::{ticket_named, NativeId};
use crate::protocol::{
    BackendErrorView, SubjectFilterView, SubjectListView, SubjectPatchView, SubjectView, Timestamp,
};
use crate::text::{decimal, parsed_u64};
use crate::ticket::ticket_outcome;
use crate::update::{update_next, update_start, UpdateStateView, UpdateStepView};
use crate::url::{lemma_encoding_is_injective, percent_encoded};

verus! {

// Getting one.

/// Getting a subject reads the ticket that its id names, under the number of the ticket, with
/// the credentials of the account, and sends nothing along.
pub proof fn lemma_get_reads_the_named_ticket(
    config: ZendeskConfigView,
    id: Seq<char>,
    ticket_id: u64,
)
    requires
        ticket_named(id) == Ok::<NativeId, BackendErrorView>(NativeId { ticket_id }),
        config.configured(),
    ensures
        get_request(config, id) == Ok::<HttpRequestView, BackendErrorView>(
            HttpRequestView {
                method: Method::Get,
                url: config.base_url + ("/api/v2/tickets/"@ + decimal(ticket_id as nat)
                    + ".json"@),
                accept: "application/json"@,
                username: config.email->0 + "/token"@,
                password: config.api_token->0,
                body: None,
            },
        ),
{
}

/// An id that names no ticket is refused with the reason, before anything else.
pub proof fn lemma_get_refuses_a_bad_id(config: ZendeskConfigView, id: Seq<char>)
    requires
        ticket_named(id) is Err,
    ensures
        get_request(config, id) == Err::<HttpRequestView, BackendErrorView>(
            ticket_named(id)->Err_0,
        ),
{
}

/// Without an address or credentials, getting, listing and updating are refused like any other
/// request, once the id is a good one; an update sends nothing more.
pub proof fn lemma_unconfigured_operations_are_refused_alike(
    config: ZendeskConfigView,
    id: Seq<char>,
    filter: SubjectFilterView,
    patch: SubjectPatchView,
    state: UpdateStateView,
    reply: ReplyView,
    error: BackendErrorView,
)
    requires
        config.base_url.len() == 0 || config.email is None || config.api_token is None,
        config.base_url.len() == 0 ==> error == BackendErrorView::InvalidRequest(
            "ZENDESK_BASE_URL or ZENDESK_SUBDOMAIN must be set"@,
        ),
        config.base_url.len() > 0 ==> error == BackendErrorView::PermissionDenied(
            "ZENDESK_EMAIL and ZENDESK_API_TOKEN must be set"@,
        ),
    ensures
        list_request(config, filter) == Err::<HttpRequestView, BackendErrorView>(error),
        ticket_named(id) is Ok ==> get_request(config, id) == Err::<
            HttpRequestView,
            BackendErrorView,
        >(error),
        ticket_named(id) is Ok ==> update_start(config, id, patch) == UpdateStepView::Finish(
            Err(error),
        ),
        update_next(config, state, reply) is Finish,
        state is Writing && reply_outcome(
            "/api/v2/tickets/"@ + decimal(state.native().ticket_id as nat) + ".json"@,
            reply,
        ) is Ok ==> update_next(config, state, reply) == UpdateStepView::Finish(Err(error)),
        state matches UpdateStateView::Reading { native, patch } && get_outcome(
            config,
            native.ticket_id,
            reply,
        ) is Ok && !(patch.assignee matches Some(Some(raw)) && parsed_u64(raw) is None)
            ==> update_next(config, state, reply) == UpdateStepView::Finish(Err(error)),
{
}

/// Ids of different tickets are read under different addresses.
pub proof fn lemma_different_tickets_different_addresses(
    config: ZendeskConfigView,
    id: Seq<char>,
    other: Seq<char>,
)
    requires
        get_request(config, id) is Ok,
        get_request(config, other) is Ok,
        get_request(config, id)->Ok_0.url == get_request(config, other)->Ok_0.url,
    ensures
        ticket_named(id) == ticket_named(other),
{
    let m = ticket_named(id)->Ok_0.ticket_id;
    let n = ticket_named(other)->Ok_0.ticket_id;
    let start = config.base_url + "/api/v2/tickets/"@;
    let left = get_request(config, id)->Ok_0.url;
    let right = get_request(config, other)->Ok_0.url;
    lemma_middle(start, decimal(m as nat), decimal(n as nat), ".json"@, left, right);
    lemma_decimal_is_injective(m, n);
}

/// What lies between one start and one end in equal strings is equal.
proof fn lemma_middle(
    start: Seq<char>,
    a: Seq<char>,
    b: Seq<char>,
    end: Seq<char>,
    left: Seq<char>,
    right: Seq<char>,
)
    requires
        left =~= start + a + end,
        right =~= start + b + end,
        left == right,
    ensures
        a == b,
{
    assert(left.len() == start.len() + a.len() + end.len());
    assert(right.len() == start.len() + b.len() + end.len());
    assert forall|i: int| 0 <= i < a.len() implies a[i] == b[i] by {
        assert((start + a + end)[start.len() + i] == a[i]);
        assert((start + b + end)[start.len() + i] == b[i]);
    }
    assert(a =~= b);
}

/// The reply to a read gives a subject if and only if its value has a ticket that has one, and
/// then gives that one.
pub proof fn lemma_get_gives_the_ticket(
    config: ZendeskConfigView,
    ticket_id: u64,
    reply: ReplyView,
    subject: SubjectView,
)
    ensures
        get_outcome(config, ticket_id, reply) == Ok::<SubjectView, BackendErrorView>(subject) <==> {
            let path = "/api/v2/tickets/"@ + decimal(ticket_id as nat) + ".json"@;
            &&& reply_outcome(path, reply) matches Ok(value)
            &&& value.field("ticket"@) matches Some(ticket)
            &&& ticket_outcome(config.base_url, ticket) == Ok::<SubjectView, BackendErrorView>(
                subject,
            )
        },
{
}

/// The ticket of a response is its member of that name, whatever that is.
pub proof fn lemma_ticket_is_a_member(value: JsonView, ticket: JsonView)
    ensures
        ticket_member(value) == Ok::<JsonView, BackendErrorView>(ticket) <==> value.field(
            "ticket"@,
        ) == Some(ticket),
        ticket_member(value) matches Err(error) ==> error == BackendErrorView::Other(
            "Zendesk response missing ticket"@,
        ),
{
}

/// Why the reply to a read gives no subject: the reply, the lack of a ticket, or the ticket.
pub proof fn lemma_get_tells_what_is_wrong(
    config: ZendeskConfigView,
    ticket_id: u64,
    reply: ReplyView,
)
    ensures
        ({
            let path = "/api/v2/tickets/"@ + decimal(ticket_id as nat) + ".json"@;
            let result = get_outcome(config, ticket_id, reply);
            &&& reply_outcome(path, reply) matches Err(error) ==> result == Err::<
                SubjectView,
                BackendErrorView,
            >(error)
            &&& reply_outcome(path, reply) matches Ok(value) ==> {
                &&& value.field("ticket"@) is None ==> result == Err::<
                    SubjectView,
                    BackendErrorView,
                >(BackendErrorView::Other("Zendesk response missing ticket"@))
                &&& value.field("ticket"@) matches Some(ticket) ==> result == ticket_outcome(
                    config.base_url,
                    ticket,
                )
            }
        }),
{
}

// Listing many.

/// The limit is kept from 1 to 100, is raised to 1, lowered to 100, and is 50 where it is not
/// given.
pub proof fn lemma_limit_is_clamped(limit: Option<u32>)
    ensures
        limit is None ==> per_page(limit) == 50,
        limit == Some(0u32) ==> per_page(limit) == 1,
        limit matches Some(n) && 1 <= n <= 100 ==> per_page(limit) == limit->0,
        limit matches Some(n) && n > 100 ==> per_page(limit) == 100,
{
}

/// With and without a search, the list asks for as many tickets as the limit says, once it is
/// from 1 to 100: with a search, for what it finds; without, for those last updated.
pub proof fn lemma_list_asks_for_the_limit(limit: Option<u32>, query: Seq<char>, count: u32)
    requires
        limit is None ==> count == 50,
        limit matches Some(n) ==> (n < 1 ==> count == 1) && (1 <= n <= 100 ==> count == n) && (n
            > 100 ==> count == 100),
    ensures
        list_path(None, limit) == "/api/v2/tickets.json?per_page="@ + decimal(count as nat)
            + "&sort_by=updated_at&sort_order=desc"@,
        list_path(Some(query), limit) == "/api/v2/search.json?query="@ + percent_encoded(query)
            + "&per_page="@ + decimal(count as nat),
{
}

/// Different limits from 1 to 100 give different lists, with the same search or without one.
pub proof fn lemma_different_limits_different_lists(query: Option<Seq<char>>, m: u32, n: u32)
    requires
        1 <= m <= 100,
        1 <= n <= 100,
        list_path(query, Some(m)) == list_path(query, Some(n)),
    ensures
        m == n,
{
    let a = decimal(m as nat);
    let b = decimal(n as nat);
    let left = list_path(query, Some(m));
    let right = list_path(query, Some(n));
    match query {
        Some(query) => {
            let start = "/api/v2/search.json?query="@ + percent_encoded(query) + "&per_page="@;
            lemma_middle(start, a, b, Seq::empty(), left, right);
        },
        None => {
            let start = "/api/v2/tickets.json?per_page="@;
            lemma_middle(start, a, b, "&sort_by=updated_at&sort_order=desc"@, left, right);
        },
    }
    lemma_decimal_is_injective(m as u64, n as u64);
}

/// Different searches give different lists.
pub proof fn lemma_different_searches_different_lists(
    query: Seq<char>,
    other: Seq<char>,
    limit: Option<u32>,
)
    requires
        list_path(Some(query), limit) == list_path(Some(other), limit),
    ensures
        query == other,
{
    let end = "&per_page="@ + decimal(per_page(limit) as nat);
    lemma_middle(
        "/api/v2/search.json?query="@,
        percent_encoded(query),
        percent_encoded(other),
        end,
        list_path(Some(query), limit),
        list_path(Some(other), limit),
    );
    lemma_encoding_is_injective(query, other);
}

/// Listing reads the list of the account, with its search and the filter's limit, and sends
/// nothing along; nothing else of the filter matters to the request.
pub proof fn lemma_list_reads_the_list(
    config: ZendeskConfigView,
    filter: SubjectFilterView,
    other: SubjectFilterView,
)
    requires
        config.configured(),
    ensures
        list_request(config, filter) == Ok::<HttpRequestView, BackendErrorView>(
            HttpRequestView {
                method: Method::Get,
                url: config.base_url + list_path(config.query, filter.limit),
                accept: "application/json"@,
                username: config.email->0 + "/token"@,
                password: config.api_token->0,
                body: None,
            },
        ),
        filter.limit == other.limit ==> list_request(config, filter) == list_request(config, other),
{
}

/// The tickets of a response are the array under `tickets`; only where there is nothing at all
/// under that key, the array under `results`; and otherwise there are none, which is told.
pub proof fn lemma_tickets_or_results(value: JsonView, items: Seq<JsonView>)
    ensures
        ticket_items(value) == Ok::<Seq<JsonView>, BackendErrorView>(items) <==> value.field(
            "tickets"@,
        ) == Some(JsonView::Array(items)) || (value.field("tickets"@) is None && value.field(
            "results"@,
        ) == Some(JsonView::Array(items))),
        ticket_items(value) matches Err(error) ==> error == BackendErrorView::Other(
            "Zendesk ticket list missing tickets/results"@,
        ),
{
}

/// The first ticket that has no subject is why there is no list of subjects.
pub proof fn lemma_first_bad_ticket_is_told(base_url: Seq<char>, tickets: Seq<JsonView>, n: int)
    requires
        0 <= n < tickets.len(),
        forall|i: int| 0 <= i < n ==> ticket_outcome(base_url, #[trigger] tickets[i]) is Ok,
        ticket_outcome(base_url, tickets[n]) is Err,
    ensures
        subjects_outcome(base_url, tickets) == Err::<Seq<SubjectView>, BackendErrorView>(
            ticket_outcome(base_url, tickets[n])->Err_0,
        ),
    decreases tickets.len(),
{
    let front = tickets.drop_last();
    assert(forall|i: int| 0 <= i < front.len() ==> #[trigger] front[i] == tickets[i]);
    if n < front.len() {
        assert(front[n] == tickets[n]);
        lemma_first_bad_ticket_is_told(base_url, front, n);
    } else {
        assert(forall|i: int|
            0 <= i < front.len() ==> ticket_outcome(base_url, #[trigger] front[i]) is Ok);
        lemma_subjects_are_of_all_tickets(base_url, front);
    }
}

/// A response makes a list if and only if it has tickets and each of them has a subject; the
/// list has no next page, and the time that it was given.
pub proof fn lemma_list_needs_all_tickets(
    base_url: Seq<char>,
    value: JsonView,
    filter: SubjectFilterView,
    fetched_at: Timestamp,
)
    ensures
        list_outcome(base_url, value, filter, fetched_at) is Ok <==> ticket_items(value) is Ok && (
        forall|i: int|
            0 <= i < ticket_items(value)->Ok_0.len() ==> ticket_outcome(
                base_url,
                #[trigger] ticket_items(value)->Ok_0[i],
            ) is Ok),
        list_outcome(base_url, value, filter, fetched_at) matches Ok(list) ==> {
            &&& list.next_cursor is None
            &&& list.fetched_at == fetched_at
            &&& list.subjects.len() <= ticket_items(value)->Ok_0.len()
        },
        ticket_items(value) matches Err(error) ==> list_outcome(base_url, value, filter, fetched_at)
            == Err::<SubjectListView, BackendErrorView>(error),
        ticket_items(value) matches Ok(tickets) ==> (subjects_outcome(base_url, tickets) matches Err(
            error,
        ) ==> list_outcome(base_url, value, filter, fetched_at) == Err::<
            SubjectListView,
            BackendErrorView,
        >(error)),
{
    match ticket_items(value) {
        Ok(tickets) => {
            lemma_subjects_are_of_all_tickets(base_url, tickets);
            match subjects_outcome(base_url, tickets) {
                Ok(subjects) => {
                    subjects.lemma_filter_len(|subject: SubjectView| filter.admits(subject));
                },
                Err(_) => {},
            }
        },
        Err(_) => {},
    }
}

/// A list has the subjects of the tickets in their order, those that the filter does not admit
/// left out: with one ticket more there is one subject more at the end, if it is admitted.
pub proof fn lemma_list_keeps_the_order(
    base_url: Seq<char>,
    tickets: Seq<JsonView>,
    ticket: JsonView,
    value: JsonView,
    longer: JsonView,
    filter: SubjectFilterView,
    fetched_at: Timestamp,
)
    requires
        ticket_items(value) == Ok::<Seq<JsonView>, BackendErrorView>(tickets),
        ticket_items(longer) == Ok::<Seq<JsonView>, BackendErrorView>(tickets.push(ticket)),
        list_outcome(base_url, longer, filter, fetched_at) is Ok,
    ensures
        list_outcome(base_url, value, filter, fetched_at) is Ok,
        ticket_outcome(base_url, ticket) is Ok,
        ({
            let shorter = list_outcome(base_url, value, filter, fetched_at)->Ok_0.subjects;
            let subject = ticket_outcome(base_url, ticket)->Ok_0;
            list_outcome(base_url, longer, filter, fetched_at)->Ok_0.subjects == if filter.admits(
                subject,
            ) {
                shorter.push(subject)
            } else {
                shorter
            }
        }),
{
    let more = tickets.push(ticket);
    assert(more.drop_last() =~= tickets);
    assert(more.last() == ticket);
    let subjects = subjects_outcome(base_url, tickets)->Ok_0;
    lemma_subjects_pass_one_by_one(
        subjects,
        ticket_outcome(base_url, ticket)->Ok_0,
        filter,
    );
    assert(admitted(subjects, filter) == list_outcome(
        base_url,
        value,
        filter,
        fetched_at,
    )->Ok_0.subjects);
}

/// The reply to a list gives what its value gives, or the reason why it has none; the reason
/// names the path that was read.
pub proof fn lemma_list_reply_is_read(
    config: ZendeskConfigView,
    filter: SubjectFilterView,
    reply: ReplyView,
    fetched_at: Timestamp,
)
    ensures
        ({
            let path = list_path(config.query, filter.limit);
            let result = list_reply_outcome(config, filter, reply, fetched_at);
            &&& reply_outcome(path, reply) matches Ok(value) ==> result == list_outcome(
                config.base_url,
                value,
                filter,
                fetched_at,
            )
            &&& reply_outcome(path, reply) matches Err(error) ==> result == Err::<
                SubjectListView,
                BackendErrorView,
            >(error)
        }),
{
}

} // verus!
