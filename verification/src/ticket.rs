//! From the JSON of a ticket to a subject.

use vstd::prelude::*;

use crate::backend::ZendeskBackend;
use crate::config::non_empty;
use crate::fields::Fields;
use crate::json::{json_text, json_views, Json, JsonView};
use crate::native::{
    map_status, parse_ts, priority_from_native, priority_of_native, status_of_native, ticket_name,
    timestamp_of, NativeId, KIND_TICKET,
};
use crate::protocol::{
    id_views, outcome, BackendError, BackendErrorView, Subject, SubjectView, Timestamp,
};
use crate::text::{concat3, decimal, strings, u64_text};

verus! {

/// The strings among the elements of an array, in order.
pub open spec fn string_items(items: Seq<JsonView>) -> Seq<Seq<char>>
    decreases items.len(),
{
    if items.len() == 0 {
        Seq::empty()
    } else {
        let front = string_items(items.drop_last());
        match items.last().string() {
            Some(s) => front.push(s),
            None => front,
        }
    }
}

/// The labels of a ticket: the strings among its tags.
pub open spec fn ticket_labels(ticket: JsonView) -> Seq<Seq<char>> {
    match ticket.array_field("tags"@) {
        Some(items) => string_items(items),
        None => Seq::empty(),
    }
}

/// The native status of a ticket; one without a status is new.
pub open spec fn ticket_status(ticket: JsonView) -> Seq<char> {
    match ticket.string_field("status"@) {
        Some(status) => status,
        None => "new"@,
    }
}

/// A map with the unsigned integer that a ticket has under a key, where it has one.
pub open spec fn with_unsigned(
    fields: Map<Seq<char>, JsonView>,
    ticket: JsonView,
    key: Seq<char>,
) -> Map<Seq<char>, JsonView> {
    match ticket.unsigned_field(key) {
        Some(n) => fields.insert(key, JsonView::Unsigned(n)),
        None => fields,
    }
}

/// What a ticket tells beyond the fields of the protocol: who asked, who wrote, which group
/// has it, and the native priority.
pub open spec fn ticket_custom(ticket: JsonView) -> Map<Seq<char>, JsonView> {
    let none = Map::<Seq<char>, JsonView>::empty();
    let requester = with_unsigned(none, ticket, "requester_id"@);
    let submitter = with_unsigned(requester, ticket, "submitter_id"@);
    let group = with_unsigned(submitter, ticket, "group_id"@);
    match ticket.string_field("priority"@) {
        Some(priority) => group.insert("priority"@, JsonView::String(priority)),
        None => group,
    }
}

/// The subject that stands for a ticket with a known id and known times.
pub open spec fn ticket_subject(
    base_url: Seq<char>,
    ticket: JsonView,
    ticket_id: u64,
    created_at: Timestamp,
    updated_at: Timestamp,
) -> SubjectView {
    SubjectView {
        id: ticket_name(ticket_id),
        kind: KIND_TICKET@,
        title: match ticket.string_field("subject"@) {
            Some(title) => title,
            None => Seq::empty(),
        },
        description: non_empty(ticket.string_field("description"@)),
        status: status_of_native(ticket_status(ticket)),
        priority: match ticket.string_field("priority"@) {
            Some(priority) => priority_of_native(priority),
            None => None,
        },
        assignee: match ticket.unsigned_field("assignee_id"@) {
            Some(id) => Some(decimal(id as nat)),
            None => None,
        },
        labels: ticket_labels(ticket),
        parent: None,
        children: Seq::empty(),
        url: Some(base_url + "/agent/tickets/"@ + decimal(ticket_id as nat)),
        created_at,
        updated_at,
        custom: ticket_custom(ticket),
        native_status: Some(ticket_status(ticket)),
        status_metadata: JsonView::Null,
        attachments: Seq::empty(),
    }
}

/// The subject that stands for a ticket, or why there is none: a ticket needs an id, and the
/// times when it was created and last updated.
pub open spec fn ticket_outcome(base_url: Seq<char>, ticket: JsonView) -> Result<
    SubjectView,
    BackendErrorView,
> {
    match ticket.unsigned_field("id"@) {
        None => Err(
            BackendErrorView::Other("Zendesk ticket missing id: "@ + json_text(ticket)),
        ),
        Some(ticket_id) => match timestamp_of(ticket.field("created_at"@)) {
            Err(error) => Err(error),
            Ok(created_at) => match timestamp_of(ticket.field("updated_at"@)) {
                Err(error) => Err(error),
                Ok(updated_at) => Ok(
                    ticket_subject(base_url, ticket, ticket_id, created_at, updated_at),
                ),
            },
        },
    }
}

/// The labels of a ticket.
fn read_labels(ticket: &Json) -> (labels: Vec<String>)
    ensures
        strings(labels@) == ticket_labels(ticket@),
{
    let mut labels: Vec<String> = Vec::new();
    assert(strings(labels@) =~= Seq::<Seq<char>>::empty());
    match ticket.get_array("tags") {
        Some(items) => {
            let ghost views = json_views(items@);
            let mut i: usize = 0;
            assert(views.take(0) =~= Seq::<JsonView>::empty());
            while i < items.len()
                invariant
                    views == json_views(items@),
                    i <= items@.len(),
                    strings(labels@) == string_items(views.take(i as int)),
                decreases items.len() - i,
            {
                let ghost before = labels@;
                assert(views.take(i + 1).drop_last() =~= views.take(i as int));
                assert(views.take(i + 1).last() == items@[i as int]@);
                match items[i].as_str() {
                    Some(label) => {
                        labels.push(label.to_owned());
                        assert(strings(labels@) =~= strings(before).push(label@));
                    },
                    None => {},
                }
                i = i + 1;
            }
            assert(views.take(i as int) =~= views);
        },
        None => {},
    }
    labels
}

/// The fields with the unsigned integer that a ticket has under a key.
fn add_unsigned(fields: Fields, ticket: &Json, key: &str) -> (extended: Fields)
    ensures
        extended@ == with_unsigned(fields@, ticket@, key@),
{
    match ticket.get_u64(key) {
        Some(n) => fields.insert(key, Json::Unsigned(n)),
        None => fields,
    }
}

/// What a ticket tells beyond the fields of the protocol.
fn read_custom(ticket: &Json) -> (fields: Fields)
    ensures
        fields@ == ticket_custom(ticket@),
{
    let requester = add_unsigned(Fields::new(), ticket, "requester_id");
    let submitter = add_unsigned(requester, ticket, "submitter_id");
    let group = add_unsigned(submitter, ticket, "group_id");
    match ticket.get_str("priority") {
        Some(priority) => group.insert("priority", Json::String(priority.to_owned())),
        None => group,
    }
}

impl ZendeskBackend {
    /// The subject that stands for a ticket with a known id and known times.
    pub fn describe_ticket(
        &self,
        ticket: &Json,
        ticket_id: u64,
        created_at: Timestamp,
        updated_at: Timestamp,
    ) -> (subject: Subject)
        ensures
            subject@ == ticket_subject(
                self.config@.base_url,
                ticket@,
                ticket_id,
                created_at,
                updated_at,
            ),
    {
        let status = match ticket.get_str("status") {
            Some(status) => status.to_owned(),
            None => "new".to_owned(),
        };
        let title = match ticket.get_str("subject") {
            Some(title) => title.to_owned(),
            None => String::new(),
        };
        let description = match ticket.get_str("description") {
            Some(description) => if description.is_empty() {
                None
            } else {
                Some(description.to_owned())
            },
            None => None,
        };
        let priority = match ticket.get_str("priority") {
            Some(priority) => priority_from_native(priority),
            None => None,
        };
        let assignee = match ticket.get_u64("assignee_id") {
            Some(id) => Some(u64_text(id)),
            None => None,
        };
        let url = concat3(
            self.config.base_url.as_str(),
            "/agent/tickets/",
            u64_text(ticket_id).as_str(),
        );
        let subject = Subject {
            id: NativeId::subject_id(ticket_id),
            kind: KIND_TICKET.to_owned(),
            title,
            description,
            status: map_status(status.as_str()),
            priority,
            assignee,
            labels: read_labels(ticket),
            parent: None,
            children: Vec::new(),
            url: Some(url),
            created_at,
            updated_at,
            custom: read_custom(ticket),
            native_status: Some(status),
            status_metadata: Json::Null,
            attachments: Vec::new(),
        };
        assert(id_views(subject.children@) =~= Seq::<Seq<char>>::empty());
        assert(json_views(subject.attachments@) =~= Seq::<JsonView>::empty());
        subject
    }

    /// The subject that stands for a ticket.
    pub fn ticket_to_subject(&self, ticket: &Json) -> (subject: Result<Subject, BackendError>)
        ensures
            outcome(subject) == ticket_outcome(self.config@.base_url, ticket@),
    {
        let ticket_id = match ticket.get_u64("id") {
            Some(ticket_id) => ticket_id,
            None => {
                let mut words = "Zendesk ticket missing id: ".to_owned();
                words.append(ticket.to_text().as_str());
                return Err(BackendError::Other(words));
            },
        };
        let created_at = match parse_ts(ticket.get("created_at")) {
            Ok(created_at) => created_at,
            Err(error) => return Err(error),
        };
        let updated_at = match parse_ts(ticket.get("updated_at")) {
            Ok(updated_at) => updated_at,
            Err(error) => return Err(error),
        };
        Ok(self.describe_ticket(ticket, ticket_id, created_at, updated_at))
    }
}

} // verus!
