//! Zendesk's own names: ticket ids, statuses, priorities, timestamps.

use vstd::prelude::*;

use crate::json::{Json, JsonView};
use crate::protocol::{
    or_other, outcome, BackendError, BackendErrorView, SubjectId, SubjectStatus, Timestamp,
};
use crate::text::{
    after_prefix, decimal, lemma_decimal_round_trip, parse_u64, parsed_u64, str_eq, strip_prefix,
    u64_text,
};

verus! {

pub const ID_PREFIX: &'static str = "zendesk:";

pub const KIND_TICKET: &'static str = "ticket";

/// The id of a ticket within Zendesk.
#[derive(Clone, Copy, Debug, PartialEq, Eq, Structural)]
pub struct NativeId {
    pub ticket_id: u64,
}

impl View for NativeId {
    type V = NativeId;

    open spec fn view(&self) -> NativeId {
        *self
    }
}

/// The ticket that the text of a subject id names, or why it names none.
pub open spec fn ticket_named(raw: Seq<char>) -> Result<NativeId, BackendErrorView> {
    match after_prefix(raw, ID_PREFIX@) {
        None => Err(
            BackendErrorView::InvalidRequest(
                "expected Zendesk subject id shaped zendesk:<ticket-id>, got "@ + raw,
            ),
        ),
        Some(rest) => match parsed_u64(rest) {
            None => Err(
                BackendErrorView::InvalidRequest("invalid Zendesk ticket id in "@ + raw),
            ),
            Some(ticket_id) => Ok(NativeId { ticket_id }),
        },
    }
}

/// The text of the subject id of a ticket.
pub open spec fn ticket_name(ticket_id: u64) -> Seq<char> {
    ID_PREFIX@ + decimal(ticket_id as nat)
}

impl NativeId {
    /// The ticket that a subject id names.
    pub fn parse(id: &SubjectId) -> (native: Result<NativeId, BackendError>)
        ensures
            outcome(native) == ticket_named(id@),
    {
        let raw = id.as_str();
        match strip_prefix(raw, ID_PREFIX) {
            None => {
                let mut words = "expected Zendesk subject id shaped zendesk:<ticket-id>, got ".to_owned();
                words.append(raw);
                Err(BackendError::InvalidRequest(words))
            },
            Some(rest) => match parse_u64(rest) {
                None => {
                    let mut words = "invalid Zendesk ticket id in ".to_owned();
                    words.append(raw);
                    Err(BackendError::InvalidRequest(words))
                },
                Some(ticket_id) => Ok(NativeId { ticket_id }),
            },
        }
    }

    /// The subject id of a ticket.
    pub fn subject_id(ticket_id: u64) -> (id: SubjectId)
        ensures
            id@ == ticket_name(ticket_id),
    {
        let mut text = ID_PREFIX.to_owned();
        text.append(u64_text(ticket_id).as_str());
        SubjectId::new(text.as_str())
    }
}

/// The subject id of a ticket names that ticket.
pub proof fn lemma_id_round_trip(ticket_id: u64)
    ensures
        ticket_named(ticket_name(ticket_id)) == Ok::<NativeId, BackendErrorView>(
            NativeId { ticket_id },
        ),
{
    let name = ticket_name(ticket_id);
    assert(ID_PREFIX@ =~= name.subrange(0, ID_PREFIX@.len() as int));
    assert(name.skip(ID_PREFIX@.len() as int) =~= decimal(ticket_id as nat));
    lemma_decimal_round_trip(ticket_id);
}

// Statuses and priorities.

/// The protocol's status for a status of Zendesk; one that is not known counts as new.
pub open spec fn status_of_native(native: Seq<char>) -> SubjectStatus {
    if native == "open"@ {
        SubjectStatus::InProgress
    } else if native == "pending"@ || native == "hold"@ {
        SubjectStatus::Blocked
    } else if native == "solved"@ || native == "closed"@ {
        SubjectStatus::Done
    } else {
        SubjectStatus::Ready
    }
}

/// The status of Zendesk that is written for a status of the protocol.
pub open spec fn native_of_status(status: SubjectStatus) -> Seq<char> {
    match status {
        SubjectStatus::Ready | SubjectStatus::InProgress => "open"@,
        SubjectStatus::Blocked => "pending"@,
        SubjectStatus::Done | SubjectStatus::Cancelled => "solved"@,
    }
}

/// The protocol's priority for a priority of Zendesk.
pub open spec fn priority_of_native(native: Seq<char>) -> Option<u8> {
    if native == "urgent"@ {
        Some(4)
    } else if native == "high"@ {
        Some(3)
    } else if native == "normal"@ {
        Some(2)
    } else if native == "low"@ {
        Some(1)
    } else {
        None
    }
}

/// The protocol's status for a status of Zendesk.
pub fn map_status(status: &str) -> (mapped: SubjectStatus)
    ensures
        mapped == status_of_native(status@),
{
    if str_eq(status, "open") {
        SubjectStatus::InProgress
    } else if str_eq(status, "pending") || str_eq(status, "hold") {
        SubjectStatus::Blocked
    } else if str_eq(status, "solved") || str_eq(status, "closed") {
        SubjectStatus::Done
    } else {
        SubjectStatus::Ready
    }
}

/// The status of Zendesk that is written for a status of the protocol.
pub fn status_to_native(status: SubjectStatus) -> (native: &'static str)
    ensures
        native@ == native_of_status(status),
{
    match status {
        SubjectStatus::Ready | SubjectStatus::InProgress => "open",
        SubjectStatus::Blocked => "pending",
        SubjectStatus::Done | SubjectStatus::Cancelled => "solved",
    }
}

/// The protocol's priority for a priority of Zendesk.
pub fn priority_from_native(priority: &str) -> (mapped: Option<u8>)
    ensures
        mapped == priority_of_native(priority@),
{
    if str_eq(priority, "urgent") {
        Some(4)
    } else if str_eq(priority, "high") {
        Some(3)
    } else if str_eq(priority, "normal") {
        Some(2)
    } else if str_eq(priority, "low") {
        Some(1)
    } else {
        None
    }
}

/// A status that is written and read back: the ones that a ticket can be in stay as they are,
/// a ready subject comes back in progress, a cancelled one done.
pub proof fn lemma_status_read_back(status: SubjectStatus)
    ensures
        status_of_native(native_of_status(status)) == match status {
            SubjectStatus::Ready => SubjectStatus::InProgress,
            SubjectStatus::Cancelled => SubjectStatus::Done,
            other => other,
        },
{
    reveal_strlit("open");
    reveal_strlit("pending");
    reveal_strlit("hold");
    reveal_strlit("solved");
    reveal_strlit("closed");
    assert("open"@.len() == 4 && "pending"@.len() == 7 && "solved"@.len() == 6);
    assert("hold"@.len() == 4 && "closed"@.len() == 6);
}

/// Writing back the status that was read after a write writes the same native status again.
pub proof fn lemma_status_write_is_stable(status: SubjectStatus)
    ensures
        native_of_status(status_of_native(native_of_status(status))) == native_of_status(status),
{
    lemma_status_read_back(status);
}

// Timestamps.

/// What `chrono` makes of an RFC 3339 text: the instant, or the words of its error.
pub uninterp spec fn rfc3339_instant(text: Seq<char>) -> Result<Timestamp, Seq<char>>;

/// Calls `chrono::DateTime::parse_from_rfc3339` and takes the instant in UTC.
///
/// Trusted: the instant, or the error's words, are those that `rfc3339_instant` names.
#[verifier::external_body]
fn parse_rfc3339(text: &str) -> (parsed: Result<Timestamp, String>)
    ensures
        match parsed {
            Ok(instant) => rfc3339_instant(text@) == Ok::<Timestamp, Seq<char>>(instant),
            Err(words) => rfc3339_instant(text@) == Err::<Timestamp, Seq<char>>(words@),
        },
{
    match chrono::DateTime::parse_from_rfc3339(text) {
        Ok(time) => {
            let utc = time.with_timezone(&chrono::Utc);
            Ok(Timestamp { seconds: utc.timestamp(), nanos: utc.timestamp_subsec_nanos() })
        },
        Err(error) => Err(error.to_string()),
    }
}

/// The instant that a member of a ticket gives, or why it gives none.
pub open spec fn timestamp_of(value: Option<JsonView>) -> Result<Timestamp, BackendErrorView> {
    let text = match value {
        Some(value) => value.string(),
        None => None,
    };
    match text {
        None => Err(BackendErrorView::Other("Zendesk ticket missing timestamp field"@)),
        Some(text) => match rfc3339_instant(text) {
            Ok(instant) => Ok(instant),
            Err(words) => Err(BackendErrorView::Other(words)),
        },
    }
}

/// The instant that a member of a ticket gives.
pub fn parse_ts(value: Option<&Json>) -> (instant: Result<Timestamp, BackendError>)
    ensures
        outcome(instant) == timestamp_of(
            match value {
                Some(json) => Some(json@),
                None => None,
            },
        ),
{
    let text = match value {
        Some(json) => json.as_str(),
        None => None,
    };
    match text {
        None => Err(BackendError::Other("Zendesk ticket missing timestamp field".to_owned())),
        Some(text) => or_other(parse_rfc3339(text)),
    }
}

} // verus!
