//! What holds of tickets as subjects.

use vstd::prelude::*;

use crate::json::{json_text, JsonView};
use crate::laws::account::{lemma_priorities_by_native, lemma_statuses_by_native};
use crate::laws::text::lemma_decimal_stands_for_the_number;
use crate::native::rfc3339_instant;
use crate::protocol::{BackendErrorView, SubjectStatus, SubjectView, Timestamp};
use crate::text::{decimal, digits_value};
use crate::ticket::{string_items, ticket_outcome, ticket_subject};

verus! {

/// A ticket has a subject if and only if it has a number for an id, and strings that stand for
/// instants under `created_at` and `updated_at`; the subject has those very instants.
pub proof fn lemma_subject_needs_id_and_times(base_url: Seq<char>, ticket: JsonView)
    ensures
        ticket_outcome(base_url, ticket) is Ok <==> {
            &&& ticket.field("id"@) matches Some(JsonView::Unsigned(_))
            &&& ticket.field("created_at"@) matches Some(JsonView::String(text))
                && rfc3339_instant(text) is Ok
            &&& ticket.field("updated_at"@) matches Some(JsonView::String(text))
                && rfc3339_instant(text) is Ok
        },
        ticket_outcome(base_url, ticket) matches Ok(subject) ==> {
            &&& rfc3339_instant(ticket.field("created_at"@)->0->String_0) == Ok::<
                Timestamp,
                Seq<char>,
            >(subject.created_at)
            &&& rfc3339_instant(ticket.field("updated_at"@)->0->String_0) == Ok::<
                Timestamp,
                Seq<char>,
            >(subject.updated_at)
        },
{
}

/// Why a ticket has no subject: first its id, shown with the whole ticket, then the time when it
/// was created, then that of its last update.
pub proof fn lemma_what_a_ticket_lacks_is_told(base_url: Seq<char>, ticket: JsonView)
    ensures
        ({
            let result = ticket_outcome(base_url, ticket);
            let identified = ticket.field("id"@) matches Some(JsonView::Unsigned(_));
            let created = ticket.field("created_at"@);
            let updated = ticket.field("updated_at"@);
            let dated = created matches Some(JsonView::String(text)) && rfc3339_instant(text) is Ok;
            let missing = BackendErrorView::Other("Zendesk ticket missing timestamp field"@);
            &&& !identified ==> result == Err::<SubjectView, BackendErrorView>(
                BackendErrorView::Other("Zendesk ticket missing id: "@ + json_text(ticket)),
            )
            &&& identified && !(created matches Some(JsonView::String(_))) ==> result == Err::<
                SubjectView,
                BackendErrorView,
            >(missing)
            &&& identified && (created matches Some(JsonView::String(text)) && rfc3339_instant(
                text,
            ) is Err) ==> result == Err::<SubjectView, BackendErrorView>(
                BackendErrorView::Other(rfc3339_instant(created->0->String_0)->Err_0),
            )
            &&& identified && dated && !(updated matches Some(JsonView::String(_))) ==> result
                == Err::<SubjectView, BackendErrorView>(missing)
            &&& identified && dated && (updated matches Some(JsonView::String(text))
                && rfc3339_instant(text) is Err) ==> result == Err::<SubjectView, BackendErrorView>(
                BackendErrorView::Other(rfc3339_instant(updated->0->String_0)->Err_0),
            )
        }),
{
}

/// The subject is named and addressed by the ticket's number, and is a ticket, without parent,
/// children, attachments or status metadata.
pub proof fn lemma_subject_is_the_ticket(base_url: Seq<char>, ticket: JsonView, id: u64)
    requires
        ticket_outcome(base_url, ticket) is Ok,
        ticket.field("id"@) == Some(JsonView::Unsigned(id)),
    ensures
        ({
            let subject = ticket_outcome(base_url, ticket)->Ok_0;
            &&& subject.id == "zendesk:"@ + decimal(id as nat)
            &&& subject.url == Some(base_url + "/agent/tickets/"@ + decimal(id as nat))
            &&& subject.kind == "ticket"@
            &&& subject.parent is None
            &&& subject.children.len() == 0
            &&& subject.status_metadata == JsonView::Null
            &&& subject.attachments.len() == 0
        }),
{
}

/// Title and description are the ticket's own words; a title that is not there is empty, and an
/// empty description is none.
pub proof fn lemma_subject_has_the_words(base_url: Seq<char>, ticket: JsonView, text: Seq<char>)
    requires
        ticket_outcome(base_url, ticket) is Ok,
    ensures
        ({
            let subject = ticket_outcome(base_url, ticket)->Ok_0;
            &&& ticket.field("subject"@) == Some(JsonView::String(text)) ==> subject.title == text
            &&& !(ticket.field("subject"@) matches Some(JsonView::String(_)))
                ==> subject.title.len() == 0
            &&& subject.description == Some(text) <==> ticket.field("description"@) == Some(
                JsonView::String(text),
            ) && text.len() > 0
        }),
{
}

/// The native status is the ticket's, or new where it has none, and the status follows it.
pub proof fn lemma_subject_has_the_status(base_url: Seq<char>, ticket: JsonView, text: Seq<char>)
    requires
        ticket_outcome(base_url, ticket) is Ok,
    ensures
        ({
            let subject = ticket_outcome(base_url, ticket)->Ok_0;
            &&& ticket.field("status"@) == Some(JsonView::String(text)) ==> subject.native_status
                == Some(text)
            &&& !(ticket.field("status"@) matches Some(JsonView::String(_)))
                ==> subject.native_status == Some("new"@)
            &&& subject.status == SubjectStatus::InProgress <==> subject.native_status == Some(
                "open"@,
            )
            &&& subject.status == SubjectStatus::Blocked <==> subject.native_status == Some(
                "pending"@,
            ) || subject.native_status == Some("hold"@)
            &&& subject.status == SubjectStatus::Done <==> subject.native_status == Some("solved"@)
                || subject.native_status == Some("closed"@)
            &&& subject.status != SubjectStatus::Cancelled
        }),
{
    lemma_statuses_by_native(ticket_outcome(base_url, ticket)->Ok_0.native_status->0);
}

/// The priority is the number of the ticket's priority, where that has one.
pub proof fn lemma_subject_has_the_priority(base_url: Seq<char>, ticket: JsonView)
    requires
        ticket_outcome(base_url, ticket) is Ok,
    ensures
        ({
            let priority = ticket_outcome(base_url, ticket)->Ok_0.priority;
            let native = ticket.field("priority"@);
            &&& priority == Some(4u8) <==> native == Some(JsonView::String("urgent"@))
            &&& priority == Some(3u8) <==> native == Some(JsonView::String("high"@))
            &&& priority == Some(2u8) <==> native == Some(JsonView::String("normal"@))
            &&& priority == Some(1u8) <==> native == Some(JsonView::String("low"@))
            &&& priority matches Some(n) ==> 1 <= n <= 4
        }),
{
    match ticket.field("priority"@) {
        Some(JsonView::String(text)) => lemma_priorities_by_native(text),
        _ => {},
    }
}

/// The assignee is the digits of the number that the ticket has for one; without a number there
/// is none.
pub proof fn lemma_subject_has_the_assignee(base_url: Seq<char>, ticket: JsonView)
    requires
        ticket_outcome(base_url, ticket) is Ok,
    ensures
        ({
            let assignee = ticket_outcome(base_url, ticket)->Ok_0.assignee;
            let native = ticket.field("assignee_id"@);
            &&& assignee is Some <==> (native matches Some(JsonView::Unsigned(_)))
            &&& assignee matches Some(digits) ==> {
                &&& digits == decimal(native->0->Unsigned_0 as nat)
                &&& digits.len() > 0
                &&& forall|i: int| 0 <= i < digits.len() ==> '0' <= #[trigger] digits[i] <= '9'
                &&& digits_value(digits) == native->0->Unsigned_0
            }
        }),
{
    match ticket.field("assignee_id"@) {
        Some(JsonView::Unsigned(id)) => lemma_decimal_stands_for_the_number(id as nat),
        _ => {},
    }
}

/// Of an array each string is taken, where it stands and as often as it comes, and nothing else.
pub proof fn lemma_strings_are_taken_one_by_one(items: Seq<JsonView>, item: JsonView)
    ensures
        string_items(Seq::empty()) == Seq::<Seq<char>>::empty(),
        item matches JsonView::String(s) ==> string_items(items.push(item)) == string_items(
            items,
        ).push(s),
        item !is String ==> string_items(items.push(item)) == string_items(items),
{
    assert(items.push(item).drop_last() =~= items);
}

/// The labels are the strings among the ticket's tags: each of them is one of its labels, each
/// label is one of them, and where all tags are strings they are the labels, in order.
pub proof fn lemma_subject_has_the_labels(
    base_url: Seq<char>,
    ticket: JsonView,
    tags: Seq<JsonView>,
    label: Seq<char>,
)
    requires
        ticket_outcome(base_url, ticket) is Ok,
    ensures
        ({
            let labels = ticket_outcome(base_url, ticket)->Ok_0.labels;
            &&& ticket.field("tags"@) == Some(JsonView::Array(tags)) ==> {
                &&& labels == string_items(tags)
                &&& labels.contains(label) <==> tags.contains(JsonView::String(label))
                &&& (forall|i: int| 0 <= i < tags.len() ==> (#[trigger] tags[i]) is String) ==> {
                    &&& labels.len() == tags.len()
                    &&& forall|i: int|
                        0 <= i < tags.len() ==> #[trigger] tags[i] == JsonView::String(labels[i])
                }
            }
            &&& !(ticket.field("tags"@) matches Some(JsonView::Array(_))) ==> labels.len() == 0
        }),
{
    lemma_strings_among(tags, label);
}

proof fn lemma_strings_among(items: Seq<JsonView>, s: Seq<char>)
    ensures
        string_items(items).contains(s) <==> items.contains(JsonView::String(s)),
        (forall|i: int| 0 <= i < items.len() ==> (#[trigger] items[i]) is String) ==> {
            &&& string_items(items).len() == items.len()
            &&& forall|i: int|
                0 <= i < items.len() ==> #[trigger] items[i] == JsonView::String(
                    string_items(items)[i],
                )
        },
    decreases items.len(),
{
    if items.len() > 0 {
        let front = items.drop_last();
        let last = items.last();
        let before = string_items(front);
        lemma_strings_among(front, s);
        assert(forall|i: int| 0 <= i < front.len() ==> #[trigger] front[i] == items[i]);
        assert(items[items.len() - 1] == last);
        if items.contains(JsonView::String(s)) {
            let i = choose|i: int| 0 <= i < items.len() && items[i] == JsonView::String(s);
            if i < front.len() {
                assert(front[i] == JsonView::String(s));
                let j = choose|j: int| 0 <= j < before.len() && before[j] == s;
                assert(string_items(items)[j] == s);
            } else {
                assert(string_items(items)[before.len() as int] == s);
            }
        }
        if string_items(items).contains(s) {
            let j = choose|j: int|
                0 <= j < string_items(items).len() && string_items(items)[j] == s;
            if j < before.len() {
                assert(before[j] == s);
                let i = choose|i: int| 0 <= i < front.len() && front[i] == JsonView::String(s);
                assert(items[i] == JsonView::String(s));
            }
        }
        if forall|i: int| 0 <= i < items.len() ==> (#[trigger] items[i]) is String {
            assert(forall|i: int| 0 <= i < front.len() ==> (#[trigger] front[i]) is String);
            assert forall|i: int| 0 <= i < items.len() implies #[trigger] items[i]
                == JsonView::String(string_items(items)[i]) by {
                if i < front.len() {
                    assert(front[i] == JsonView::String(before[i]));
                }
            }
        }
    }
}

/// Each custom field holds what the ticket holds under the same key, where that is of its sort,
/// and is not there otherwise: who asked, who wrote and which group has the ticket as numbers,
/// the priority as a string. There are no others.
pub proof fn lemma_custom_fields_keep_their_keys(
    base_url: Seq<char>,
    ticket: JsonView,
    key: Seq<char>,
    value: JsonView,
)
    requires
        ticket_outcome(base_url, ticket) is Ok,
    ensures
        ({
            let custom = JsonView::Object(ticket_outcome(base_url, ticket)->Ok_0.custom);
            let number = key == "requester_id"@ || key == "submitter_id"@ || key == "group_id"@;
            &&& custom.field(key) == Some(value) <==> ticket.field(key) == Some(value) && (number
                && value is Unsigned || key == "priority"@ && value is String)
        }),
{
    reveal_strlit("requester_id");
    reveal_strlit("submitter_id");
    reveal_strlit("group_id");
    reveal_strlit("priority");
    assert("requester_id"@.len() == 12 && "submitter_id"@.len() == 12);
    assert("group_id"@.len() == 8 && "priority"@.len() == 8);
    assert("requester_id"@[0] != "submitter_id"@[0]);
    assert("group_id"@[0] != "priority"@[0]);
}

/// The number and the times that a ticket is described with are those of the subject, and make
/// no difference to anything else in it.
pub proof fn lemma_description_takes_number_and_times(
    base_url: Seq<char>,
    ticket: JsonView,
    id: u64,
    created_at: Timestamp,
    updated_at: Timestamp,
    other: SubjectView,
)
    requires
        ticket_outcome(base_url, ticket) == Ok::<SubjectView, BackendErrorView>(other),
    ensures
        ticket_subject(base_url, ticket, id, created_at, updated_at) == (SubjectView {
            id: "zendesk:"@ + decimal(id as nat),
            url: Some(base_url + "/agent/tickets/"@ + decimal(id as nat)),
            created_at,
            updated_at,
            ..other
        }),
{
}

/// What a ticket has under other keys makes no difference to its subject.
pub proof fn lemma_other_members_make_no_difference(
    base_url: Seq<char>,
    ticket: JsonView,
    other: JsonView,
)
    requires
        ticket_outcome(base_url, ticket) is Ok,
        forall|key: Seq<char>|
            key == "id"@ || key == "subject"@ || key == "description"@ || key == "status"@ || key
                == "priority"@ || key == "assignee_id"@ || key == "tags"@ || key == "created_at"@
                || key == "updated_at"@ || key == "requester_id"@ || key == "submitter_id"@ || key
                == "group_id"@ ==> #[trigger] ticket.field(key) == other.field(key),
    ensures
        ticket_outcome(base_url, other) == ticket_outcome(base_url, ticket),
{
    assert(ticket.field("id"@) == other.field("id"@));
    assert(ticket.field("subject"@) == other.field("subject"@));
    assert(ticket.field("description"@) == other.field("description"@));
    assert(ticket.field("status"@) == other.field("status"@));
    assert(ticket.field("priority"@) == other.field("priority"@));
    assert(ticket.field("assignee_id"@) == other.field("assignee_id"@));
    assert(ticket.field("tags"@) == other.field("tags"@));
    assert(ticket.field("created_at"@) == other.field("created_at"@));
    assert(ticket.field("updated_at"@) == other.field("updated_at"@));
    assert(ticket.field("requester_id"@) == other.field("requester_id"@));
    assert(ticket.field("submitter_id"@) == other.field("submitter_id"@));
    assert(ticket.field("group_id"@) == other.field("group_id"@));
}

} // verus!
