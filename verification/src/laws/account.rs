//! What holds of the account: its configuration, its health, and its own names.

use vstd::prelude::*;

use crate::backend::health_of;
use crate::config::{config_of, EnvVars, ZendeskConfigView};
use crate::json::JsonView;
use crate::laws::text::{
    lemma_decimal_stands_for_the_number, lemma_number_is_its_digits, lemma_only_end_slashes_go,
    lemma_prefix_and_rest, lemma_trimmed_is_the_inside,
};
use crate::native::{
    native_of_status, priority_of_native, rfc3339_instant, status_of_native, ticket_name,
    ticket_named, timestamp_of, NativeId, ID_PREFIX,
};
use crate::protocol::{BackendErrorView, HealthStatus, SubjectStatus, Timestamp};
use crate::text::{after_prefix, decimal, digits_value, is_white_space};

verus! {

// The configuration.

/// The email and the token are taken as they are, unless they are empty; the search, unless it
/// holds nothing but white space. What is not taken is not there.
pub proof fn lemma_credentials_are_taken_as_they_are(vars: EnvVars, text: Seq<char>)
    ensures
        config_of(vars).email == Some(text) <==> (vars.email matches Some(given) && given@ == text
            && text.len() > 0),
        config_of(vars).api_token == Some(text) <==> (vars.api_token matches Some(given) && given@
            == text && text.len() > 0),
        config_of(vars).query == Some(text) <==> (vars.query matches Some(given) && given@ == text
            && exists|i: int| 0 <= i < text.len() && !is_white_space(#[trigger] text[i])),
{
}

/// A base URL that is not blank is the address, but for the slashes at its end, whatever the
/// subdomain is.
pub proof fn lemma_base_url_is_the_address(vars: EnvVars, url: String)
    requires
        vars.base_url == Some(url),
        exists|i: int| 0 <= i < url@.len() && !is_white_space(#[trigger] url@[i]),
    ensures
        exists|count: int|
            {
                &&& 0 <= count <= url@.len()
                &&& config_of(vars).base_url == #[trigger] url@.take(count)
                &&& forall|i: int| count <= i < url@.len() ==> #[trigger] url@[i] == '/'
                &&& count > 0 ==> url@[count - 1] != '/'
            },
{
    let count = lemma_only_end_slashes_go(url@);
    assert(config_of(vars).base_url == url@.take(count));
}

/// Without a base URL, or with a blank one, the address is made of the subdomain without the
/// white space around it.
pub proof fn lemma_subdomain_makes_the_address(vars: EnvVars, name: String)
    requires
        vars.base_url matches Some(url) ==> forall|i: int|
            0 <= i < url@.len() ==> is_white_space(#[trigger] url@[i]),
        vars.subdomain == Some(name),
        exists|i: int| 0 <= i < name@.len() && !is_white_space(#[trigger] name@[i]),
    ensures
        exists|start: int, end: int|
            {
                &&& 0 <= start < end <= name@.len()
                &&& config_of(vars).base_url == "https://"@ + #[trigger] name@.subrange(start, end)
                    + ".zendesk.com"@
                &&& forall|i: int| 0 <= i < start ==> is_white_space(#[trigger] name@[i])
                &&& forall|i: int| end <= i < name@.len() ==> is_white_space(#[trigger] name@[i])
                &&& !is_white_space(name@[start]) && !is_white_space(name@[end - 1])
            },
{
    let ends = lemma_trimmed_is_the_inside(name@);
    assert(config_of(vars).base_url == "https://"@ + name@.subrange(ends.0, ends.1)
        + ".zendesk.com"@);
}

/// Without either there is no address.
pub proof fn lemma_nothing_makes_no_address(vars: EnvVars)
    requires
        vars.base_url matches Some(url) ==> forall|i: int|
            0 <= i < url@.len() ==> is_white_space(#[trigger] url@[i]),
        vars.subdomain matches Some(name) ==> forall|i: int|
            0 <= i < name@.len() ==> is_white_space(#[trigger] name@[i]),
    ensures
        config_of(vars).base_url.len() == 0,
{
}

// Health.

/// The backend is healthy if and only if address, email and token are there, and its words name
/// what is missing.
pub proof fn lemma_health_names_what_is_missing(config: ZendeskConfigView)
    ensures
        ({
            let no_address = config.base_url.len() == 0;
            let signs_in = config.email is Some && config.api_token is Some;
            let health = health_of(config);
            &&& health.status == HealthStatus::Healthy <==> !no_address && signs_in
            &&& health.last_error is None <==> !no_address && signs_in
            &&& no_address && !signs_in ==> health.last_error == Some(
                "ZENDESK_BASE_URL or ZENDESK_SUBDOMAIN, ZENDESK_EMAIL, and ZENDESK_API_TOKEN unset"@,
            )
            &&& no_address && signs_in ==> health.last_error == Some(
                "ZENDESK_BASE_URL or ZENDESK_SUBDOMAIN unset"@,
            )
            &&& !no_address && !signs_in ==> health.last_error == Some(
                "ZENDESK_EMAIL or ZENDESK_API_TOKEN unset"@,
            )
            &&& health.uptime_ms is None
            &&& health.memory_usage_bytes is None
        }),
{
}

// Ids.

/// An id names a ticket if and only if it is the prefix and digits, with or without a plus sign,
/// that stand for the ticket's number.
pub proof fn lemma_id_is_prefix_and_number(raw: Seq<char>, ticket_id: u64)
    ensures
        ticket_named(raw) == Ok::<NativeId, BackendErrorView>(NativeId { ticket_id })
            <==> exists|digits: Seq<char>|
            {
                &&& raw == "zendesk:"@ + digits || raw == "zendesk:"@ + (seq!['+'] + digits)
                &&& digits.len() > 0
                &&& forall|i: int| 0 <= i < digits.len() ==> '0' <= #[trigger] digits[i] <= '9'
                &&& #[trigger] digits_value(digits) == ticket_id
            },
{
    let prefix = "zendesk:"@;
    assert(prefix == ID_PREFIX@);
    if ticket_named(raw) == Ok::<NativeId, BackendErrorView>(NativeId { ticket_id }) {
        let rest = after_prefix(raw, prefix)->0;
        lemma_prefix_and_rest(raw, prefix, rest);
        lemma_number_is_its_digits(rest, ticket_id);
    }
    assert forall|digits: Seq<char>|
        {
            &&& raw == prefix + digits || raw == prefix + (seq!['+'] + digits)
            &&& digits.len() > 0
            &&& forall|i: int| 0 <= i < digits.len() ==> '0' <= #[trigger] digits[i] <= '9'
            &&& #[trigger] digits_value(digits) == ticket_id
        } implies ticket_named(raw) == Ok::<NativeId, BackendErrorView>(
        NativeId { ticket_id },
    ) by {
        let rest = if raw == prefix + digits {
            digits
        } else {
            seq!['+'] + digits
        };
        lemma_prefix_and_rest(raw, prefix, rest);
        lemma_number_is_its_digits(rest, ticket_id);
    }
}

/// An id that names no ticket is an invalid request, in words that end with the id: one way
/// where it lacks the prefix, and another where no number follows.
pub proof fn lemma_bad_id_is_told(raw: Seq<char>)
    requires
        ticket_named(raw) is Err,
    ensures
        (forall|rest: Seq<char>| raw != #[trigger] ("zendesk:"@ + rest)) ==> ticket_named(raw)
            == Err::<NativeId, BackendErrorView>(
            BackendErrorView::InvalidRequest(
                "expected Zendesk subject id shaped zendesk:<ticket-id>, got "@ + raw,
            ),
        ),
        (exists|rest: Seq<char>| raw == #[trigger] ("zendesk:"@ + rest)) ==> ticket_named(raw)
            == Err::<NativeId, BackendErrorView>(
            BackendErrorView::InvalidRequest("invalid Zendesk ticket id in "@ + raw),
        ),
{
    if exists|rest: Seq<char>| raw == #[trigger] ("zendesk:"@ + rest) {
        let rest = choose|rest: Seq<char>| raw == #[trigger] ("zendesk:"@ + rest);
        lemma_prefix_and_rest(raw, "zendesk:"@, rest);
    } else {
        lemma_prefix_and_rest(raw, "zendesk:"@, raw);
    }
}

/// The name of a ticket is the prefix and the digits of its number, without a leading zero.
pub proof fn lemma_name_is_prefix_and_number(ticket_id: u64, i: int)
    ensures
        ticket_name(ticket_id).len() > "zendesk:"@.len(),
        0 <= i < "zendesk:"@.len() ==> ticket_name(ticket_id)[i] == "zendesk:"@[i],
        "zendesk:"@.len() <= i < ticket_name(ticket_id).len() ==> '0' <= ticket_name(ticket_id)[i]
            <= '9',
        digits_value(ticket_name(ticket_id).skip("zendesk:"@.len() as int)) == ticket_id,
        ticket_id > 0 ==> ticket_name(ticket_id)["zendesk:"@.len() as int] != '0',
{
    let name = ticket_name(ticket_id);
    let prefix = "zendesk:"@;
    let digits = decimal(ticket_id as nat);
    lemma_decimal_stands_for_the_number(ticket_id as nat);
    assert(name.skip(prefix.len() as int) =~= digits);
    assert(name[prefix.len() as int] == digits[0]);
    if prefix.len() <= i < name.len() {
        assert(name[i] == digits[i - prefix.len()]);
    }
}

// Statuses and priorities.

proof fn lemma_native_statuses_differ()
    ensures
        "open"@ != "pending"@,
        "open"@ != "hold"@,
        "open"@ != "solved"@,
        "open"@ != "closed"@,
        "pending"@ != "hold"@,
        "pending"@ != "solved"@,
        "pending"@ != "closed"@,
        "hold"@ != "solved"@,
        "hold"@ != "closed"@,
        "solved"@ != "closed"@,
{
    reveal_strlit("open");
    reveal_strlit("pending");
    reveal_strlit("hold");
    reveal_strlit("solved");
    reveal_strlit("closed");
    assert("open"@.len() == 4 && "pending"@.len() == 7 && "hold"@.len() == 4 && "solved"@.len() == 6
        && "closed"@.len() == 6);
    assert("open"@[0] != "hold"@[0] && "solved"@[0] != "closed"@[0]);
}

/// Each status is that of exactly these native ones; all others, known or not, are ready.
pub proof fn lemma_statuses_by_native(native: Seq<char>)
    ensures
        status_of_native(native) == SubjectStatus::InProgress <==> native == "open"@,
        status_of_native(native) == SubjectStatus::Blocked <==> native == "pending"@ || native
            == "hold"@,
        status_of_native(native) == SubjectStatus::Done <==> native == "solved"@ || native
            == "closed"@,
        status_of_native(native) != SubjectStatus::Cancelled,
{
    lemma_native_statuses_differ();
}

/// Ready and started work is written as open, blocked work as pending, and what is over as
/// solved.
pub proof fn lemma_statuses_as_written(status: SubjectStatus)
    ensures
        native_of_status(status) == "open"@ <==> status == SubjectStatus::Ready || status
            == SubjectStatus::InProgress,
        native_of_status(status) == "pending"@ <==> status == SubjectStatus::Blocked,
        native_of_status(status) == "solved"@ <==> status == SubjectStatus::Done || status
            == SubjectStatus::Cancelled,
{
    lemma_native_statuses_differ();
}

/// Each of the four priorities has its number, and nothing else has one.
pub proof fn lemma_priorities_by_native(native: Seq<char>)
    ensures
        priority_of_native(native) == Some(4u8) <==> native == "urgent"@,
        priority_of_native(native) == Some(3u8) <==> native == "high"@,
        priority_of_native(native) == Some(2u8) <==> native == "normal"@,
        priority_of_native(native) == Some(1u8) <==> native == "low"@,
        priority_of_native(native) matches Some(n) ==> 1 <= n <= 4,
{
    reveal_strlit("urgent");
    reveal_strlit("high");
    reveal_strlit("normal");
    reveal_strlit("low");
    assert("urgent"@.len() == 6 && "high"@.len() == 4 && "normal"@.len() == 6 && "low"@.len() == 3);
    assert("urgent"@[0] != "normal"@[0]);
}

// Timestamps.

/// A member gives an instant if and only if it is a string that stands for it.
pub proof fn lemma_instant_is_of_the_text(value: Option<JsonView>, instant: Timestamp)
    ensures
        timestamp_of(value) == Ok::<Timestamp, BackendErrorView>(instant) <==> (value matches Some(
            JsonView::String(text),
        ) && rfc3339_instant(text) == Ok::<Timestamp, Seq<char>>(instant)),
        (value matches Some(JsonView::String(text)) && rfc3339_instant(text) is Err)
            ==> timestamp_of(value) == Err::<Timestamp, BackendErrorView>(
            BackendErrorView::Other(rfc3339_instant(value->0->String_0)->Err_0),
        ),
        !(value matches Some(JsonView::String(_))) ==> timestamp_of(value) == Err::<
            Timestamp,
            BackendErrorView,
        >(BackendErrorView::Other("Zendesk ticket missing timestamp field"@)),
{
}

} // verus!
