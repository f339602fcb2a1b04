//! Listing subjects, and getting one.

use vstd::prelude::*;

use crate::backend::ZendeskBackend;
use crate::config::ZendeskConfigView;
use crate::filter::admitted;
use crate::http::{
    json_reply, reply_outcome, request_outcome, HttpRequest, HttpRequestView, Method, Reply,
    ReplyView,
};
use crate::json::{json_views, Json, JsonView};
use crate::native::{ticket_named, NativeId};
use crate::protocol::{
    outcome, subject_views, BackendError, BackendErrorView, Subject, SubjectFilter,
    SubjectFilterView, SubjectId, SubjectList, SubjectListView, SubjectView, Timestamp,
};
use crate::text::{concat3, decimal, u64_text};
use crate::ticket::ticket_outcome;
use crate::url::{encode, percent_encoded};

verus! {

// One ticket.

/// The path of a ticket.
pub open spec fn ticket_path(ticket_id: u64) -> Seq<char> {
    "/api/v2/tickets/"@ + decimal(ticket_id as nat) + ".json"@
}

/// The path of a ticket.
pub fn path_of_ticket(id: NativeId) -> (path: String)
    ensures
        path@ == ticket_path(id.ticket_id),
{
    concat3("/api/v2/tickets/", u64_text(id.ticket_id).as_str(), ".json")
}

/// The ticket within a response, or why there is none.
pub open spec fn ticket_member(value: JsonView) -> Result<JsonView, BackendErrorView> {
    match value.field("ticket"@) {
        Some(ticket) => Ok(ticket),
        None => Err(BackendErrorView::Other("Zendesk response missing ticket"@)),
    }
}

/// The ticket within a response.
pub fn fetched_ticket(value: &Json) -> (ticket: Result<&Json, BackendError>)
    ensures
        outcome(ticket) == ticket_member(value@),
{
    match value.get("ticket") {
        Some(ticket) => Ok(ticket),
        None => Err(BackendError::Other("Zendesk response missing ticket".to_owned())),
    }
}

/// The subject that the reply to a request for a ticket gives, or why it gives none.
pub open spec fn get_outcome(config: ZendeskConfigView, ticket_id: u64, reply: ReplyView) -> Result<
    SubjectView,
    BackendErrorView,
> {
    match reply_outcome(ticket_path(ticket_id), reply) {
        Err(error) => Err(error),
        Ok(value) => match ticket_member(value) {
            Err(error) => Err(error),
            Ok(ticket) => ticket_outcome(config.base_url, ticket),
        },
    }
}

/// The request that getting a subject takes, or why there can be none.
pub open spec fn get_request(config: ZendeskConfigView, id: Seq<char>) -> Result<
    HttpRequestView,
    BackendErrorView,
> {
    match ticket_named(id) {
        Err(error) => Err(error),
        Ok(native) => request_outcome(config, Method::Get, ticket_path(native.ticket_id), None),
    }
}

impl ZendeskBackend {
    /// The request for a ticket.
    pub fn fetch_ticket(&self, id: NativeId) -> (request: Result<HttpRequest, BackendError>)
        ensures
            outcome(request) == request_outcome(
                self.config@,
                Method::Get,
                ticket_path(id.ticket_id),
                None,
            ),
    {
        self.request(Method::Get, path_of_ticket(id).as_str(), None)
    }

    /// The request that getting a subject takes.
    pub fn get(&self, id: &SubjectId) -> (request: Result<HttpRequest, BackendError>)
        ensures
            outcome(request) == get_request(self.config@, id@),
    {
        match NativeId::parse(id) {
            Ok(native) => self.fetch_ticket(native),
            Err(error) => Err(error),
        }
    }

    /// The subject that the reply to the request for a ticket gives.
    pub fn get_reply(&self, id: NativeId, reply: &Reply) -> (subject: Result<Subject, BackendError>)
        ensures
            outcome(subject) == get_outcome(self.config@, id.ticket_id, reply@),
    {
        let value = match json_reply(path_of_ticket(id).as_str(), reply) {
            Ok(value) => value,
            Err(error) => return Err(error),
        };
        match fetched_ticket(&value) {
            Ok(ticket) => self.ticket_to_subject(ticket),
            Err(error) => Err(error),
        }
    }
}

// Many tickets.

/// How many tickets are asked for: as many as the filter says, 50 where it does not, and from
/// 1 to 100 in any case.
pub open spec fn per_page(limit: Option<u32>) -> u32 {
    let wanted = match limit {
        Some(limit) => limit,
        None => 50u32,
    };
    if wanted < 1 {
        1
    } else if wanted > 100 {
        100
    } else {
        wanted
    }
}

/// The path of the list: the tickets that the search finds, where there is one, or those last
/// updated.
pub open spec fn list_path(query: Option<Seq<char>>, limit: Option<u32>) -> Seq<char> {
    let count = decimal(per_page(limit) as nat);
    match query {
        Some(query) => "/api/v2/search.json?query="@ + percent_encoded(query) + "&per_page="@
            + count,
        None => "/api/v2/tickets.json?per_page="@ + count
            + "&sort_by=updated_at&sort_order=desc"@,
    }
}

/// The tickets within a response: the array under `tickets`, or under `results` where there
/// is nothing under `tickets`.
pub open spec fn ticket_items(value: JsonView) -> Result<Seq<JsonView>, BackendErrorView> {
    let member = match value.field("tickets"@) {
        Some(member) => Some(member),
        None => value.field("results"@),
    };
    let items = match member {
        Some(member) => member.array(),
        None => None,
    };
    match items {
        Some(items) => Ok(items),
        None => Err(BackendErrorView::Other("Zendesk ticket list missing tickets/results"@)),
    }
}

/// The subjects that stand for tickets, in order, or why the first that has none has none.
pub open spec fn subjects_outcome(base_url: Seq<char>, tickets: Seq<JsonView>) -> Result<
    Seq<SubjectView>,
    BackendErrorView,
>
    decreases tickets.len(),
{
    if tickets.len() == 0 {
        Ok(Seq::empty())
    } else {
        match subjects_outcome(base_url, tickets.drop_last()) {
            Err(error) => Err(error),
            Ok(front) => match ticket_outcome(base_url, tickets.last()) {
                Err(error) => Err(error),
                Ok(subject) => Ok(front.push(subject)),
            },
        }
    }
}

/// The list that a response gives, or why it gives none.
pub open spec fn list_outcome(
    base_url: Seq<char>,
    value: JsonView,
    filter: SubjectFilterView,
    fetched_at: Timestamp,
) -> Result<SubjectListView, BackendErrorView> {
    match ticket_items(value) {
        Err(error) => Err(error),
        Ok(tickets) => match subjects_outcome(base_url, tickets) {
            Err(error) => Err(error),
            Ok(subjects) => Ok(
                SubjectListView {
                    subjects: admitted(subjects, filter),
                    next_cursor: None,
                    fetched_at,
                },
            ),
        },
    }
}

/// The request that listing subjects takes, or why there can be none.
pub open spec fn list_request(config: ZendeskConfigView, filter: SubjectFilterView) -> Result<
    HttpRequestView,
    BackendErrorView,
> {
    request_outcome(config, Method::Get, list_path(config.query, filter.limit), None)
}

/// The list that the reply to the request for a list gives, or why it gives none.
pub open spec fn list_reply_outcome(
    config: ZendeskConfigView,
    filter: SubjectFilterView,
    reply: ReplyView,
    fetched_at: Timestamp,
) -> Result<SubjectListView, BackendErrorView> {
    match reply_outcome(list_path(config.query, filter.limit), reply) {
        Err(error) => Err(error),
        Ok(value) => list_outcome(config.base_url, value, filter, fetched_at),
    }
}

/// How many tickets are asked for.
pub fn page_size(limit: Option<u32>) -> (count: u32)
    ensures
        count == per_page(limit),
{
    let wanted: u32 = match limit {
        Some(limit) => limit,
        None => 50,
    };
    if wanted < 1 {
        1
    } else if wanted > 100 {
        100
    } else {
        wanted
    }
}

/// The tickets within a response.
pub fn listed_tickets(value: &Json) -> (tickets: Result<&Vec<Json>, BackendError>)
    ensures
        match tickets {
            Ok(tickets) => ticket_items(value@) == Ok::<Seq<JsonView>, BackendErrorView>(
                json_views(tickets@),
            ),
            Err(error) => ticket_items(value@) == Err::<Seq<JsonView>, BackendErrorView>(error@),
        },
{
    let member = match value.get("tickets") {
        Some(member) => Some(member),
        None => value.get("results"),
    };
    let items = match member {
        Some(member) => member.as_array(),
        None => None,
    };
    match items {
        Some(items) => Ok(items),
        None => Err(BackendError::Other("Zendesk ticket list missing tickets/results".to_owned())),
    }
}

impl ZendeskBackend {
    /// The path of the list that a filter asks for.
    pub fn path_of_list(&self, filter: &SubjectFilter) -> (path: String)
        ensures
            path@ == list_path(self.config@.query, filter@.limit),
    {
        let count = u64_text(page_size(filter.limit) as u64);
        match &self.config.query {
            Some(query) => {
                let mut path = concat3(
                    "/api/v2/search.json?query=",
                    encode(query.as_str()).as_str(),
                    "&per_page=",
                );
                path.append(count.as_str());
                path
            },
            None => concat3(
                "/api/v2/tickets.json?per_page=",
                count.as_str(),
                "&sort_by=updated_at&sort_order=desc",
            ),
        }
    }

    /// The request that listing subjects takes.
    pub fn list(&self, filter: &SubjectFilter) -> (request: Result<HttpRequest, BackendError>)
        ensures
            outcome(request) == list_request(self.config@, filter@),
    {
        self.request(Method::Get, self.path_of_list(filter).as_str(), None)
    }

    /// The subjects that stand for tickets, in order.
    pub fn tickets_to_subjects(&self, tickets: &Vec<Json>) -> (subjects: Result<
        Vec<Subject>,
        BackendError,
    >)
        ensures
            match subjects {
                Ok(subjects) => subjects_outcome(self.config@.base_url, json_views(tickets@))
                    == Ok::<Seq<SubjectView>, BackendErrorView>(subject_views(subjects@)),
                Err(error) => subjects_outcome(self.config@.base_url, json_views(tickets@))
                    == Err::<Seq<SubjectView>, BackendErrorView>(error@),
            },
    {
        let ghost base_url = self.config@.base_url;
        let ghost views = json_views(tickets@);
        let mut subjects: Vec<Subject> = Vec::new();
        let mut i: usize = 0;
        assert(views.take(0) =~= Seq::<JsonView>::empty());
        assert(subject_views(subjects@) =~= Seq::<SubjectView>::empty());
        while i < tickets.len()
            invariant
                base_url == self.config@.base_url,
                views == json_views(tickets@),
                i <= tickets@.len(),
                subjects_outcome(base_url, views.take(i as int)) == Ok::<
                    Seq<SubjectView>,
                    BackendErrorView,
                >(subject_views(subjects@)),
            decreases tickets.len() - i,
        {
            let ghost before = subjects@;
            assert(views.take(i + 1).drop_last() =~= views.take(i as int));
            assert(views.take(i + 1).last() == tickets@[i as int]@);
            match self.ticket_to_subject(&tickets[i]) {
                Ok(subject) => {
                    subjects.push(subject);
                    assert(subject_views(subjects@) =~= subject_views(before).push(subject@));
                },
                Err(error) => {
                    proof {
                        lemma_first_failure(base_url, views, i + 1, error@);
                    }
                    return Err(error);
                },
            }
            i = i + 1;
        }
        assert(views.take(i as int) =~= views);
        Ok(subjects)
    }

    /// The list that a response gives.
    pub fn list_response(
        &self,
        value: &Json,
        filter: &SubjectFilter,
        fetched_at: Timestamp,
    ) -> (list: Result<SubjectList, BackendError>)
        ensures
            outcome(list) == list_outcome(self.config@.base_url, value@, filter@, fetched_at),
    {
        let tickets = match listed_tickets(value) {
            Ok(tickets) => tickets,
            Err(error) => return Err(error),
        };
        let subjects = match self.tickets_to_subjects(tickets) {
            Ok(subjects) => subjects,
            Err(error) => return Err(error),
        };
        Ok(
            SubjectList {
                subjects: Self::select(subjects, filter),
                next_cursor: None,
                fetched_at,
            },
        )
    }

    /// The list that the reply to the request for a list gives.
    pub fn list_reply(
        &self,
        filter: &SubjectFilter,
        reply: &Reply,
        fetched_at: Timestamp,
    ) -> (list: Result<SubjectList, BackendError>)
        ensures
            outcome(list) == list_reply_outcome(self.config@, filter@, reply@, fetched_at),
    {
        match json_reply(self.path_of_list(filter).as_str(), reply) {
            Ok(value) => self.list_response(&value, filter, fetched_at),
            Err(error) => Err(error),
        }
    }
}

/// A failure among the first tickets is the failure of all of them.
proof fn lemma_first_failure(
    base_url: Seq<char>,
    tickets: Seq<JsonView>,
    n: int,
    error: BackendErrorView,
)
    requires
        0 <= n <= tickets.len(),
        subjects_outcome(base_url, tickets.take(n)) == Err::<Seq<SubjectView>, BackendErrorView>(
            error,
        ),
    ensures
        subjects_outcome(base_url, tickets) == Err::<Seq<SubjectView>, BackendErrorView>(error),
    decreases tickets.len() - n,
{
    if n == tickets.len() {
        assert(tickets.take(n) =~= tickets);
    } else {
        assert(tickets.take(n + 1).drop_last() =~= tickets.take(n));
        lemma_first_failure(base_url, tickets, n + 1, error);
    }
}

} // verus!
