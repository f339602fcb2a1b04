//! What holds of requests and replies.

use vstd::prelude::*;

use crate::config::ZendeskConfigView;
use crate::http::{
    reply_outcome, request_outcome, status_fault, status_line, HttpRequestView, Method, ReplyView,
};
use crate::json::{parsed_json, JsonView};
use crate::protocol::BackendErrorView;
use crate::text::is_white_space;

verus! {

/// Every request, whatever its method, its path and its body, goes to that path of the account,
/// signs in by the email with `/token` behind it and the API token, asks for JSON, and carries
/// the body it was given.
pub proof fn lemma_every_request_signs_in(
    config: ZendeskConfigView,
    method: Method,
    path: Seq<char>,
    body: Option<JsonView>,
)
    requires
        request_outcome(config, method, path, body) is Ok,
    ensures
        ({
            let request = request_outcome(config, method, path, body)->Ok_0;
            &&& config.email matches Some(email) && request.username == email + "/token"@
            &&& config.api_token == Some(request.password)
            &&& request.url == config.base_url + path
            &&& request.accept == "application/json"@
            &&& request.method == method
            &&& request.body == body
        }),
{
}

/// Who signs in does not depend on what is asked.
pub proof fn lemma_all_requests_sign_in_alike(
    config: ZendeskConfigView,
    method: Method,
    path: Seq<char>,
    body: Option<JsonView>,
    other_method: Method,
    other_path: Seq<char>,
    other_body: Option<JsonView>,
)
    ensures
        ({
            let one = request_outcome(config, method, path, body);
            let other = request_outcome(config, other_method, other_path, other_body);
            &&& one is Ok <==> other is Ok
            &&& one is Ok ==> one->Ok_0.username == other->Ok_0.username && one->Ok_0.password
                == other->Ok_0.password && one->Ok_0.accept == other->Ok_0.accept
            &&& one is Err ==> one->Err_0 == other->Err_0
        }),
{
}

/// There is no request without an address, which is an invalid request, nor without an email
/// and a token, which is a lack of permission; and there is one otherwise.
pub proof fn lemma_request_needs_address_and_credentials(
    config: ZendeskConfigView,
    method: Method,
    path: Seq<char>,
    body: Option<JsonView>,
)
    ensures
        ({
            let request = request_outcome(config, method, path, body);
            let signs_in = config.email is Some && config.api_token is Some;
            &&& config.base_url.len() == 0 ==> request == Err::<HttpRequestView, BackendErrorView>(
                BackendErrorView::InvalidRequest(
                    "ZENDESK_BASE_URL or ZENDESK_SUBDOMAIN must be set"@,
                ),
            )
            &&& config.base_url.len() > 0 && !signs_in ==> request == Err::<
                HttpRequestView,
                BackendErrorView,
            >(
                BackendErrorView::PermissionDenied(
                    "ZENDESK_EMAIL and ZENDESK_API_TOKEN must be set"@,
                ),
            )
            &&& request is Ok <==> config.base_url.len() > 0 && signs_in
        }),
{
}

/// A reply gives a value if and only if it is a response of success whose text is blank, for
/// null, or reads as that value.
pub proof fn lemma_value_is_read_from_success(path: Seq<char>, reply: ReplyView, value: JsonView)
    ensures
        reply_outcome(path, reply) == Ok::<JsonView, BackendErrorView>(value) <==> (
        reply matches ReplyView::Received { status, text } && 200 <= status < 300 && (if exists|
            i: int,
        |
            0 <= i < text.len() && !is_white_space(#[trigger] text[i]) {
            parsed_json(text) == Ok::<JsonView, Seq<char>>(value)
        } else {
            value == JsonView::Null
        })),
{
}

/// A status is in order if and only if it is one of success; what is wrong with another is told
/// by the status alone, in words with the text of the response, but for a path that was not
/// found.
pub proof fn lemma_status_tells_what_is_wrong(
    path: Seq<char>,
    status: u16,
    line: Seq<char>,
    text: Seq<char>,
)
    ensures
        ({
            let fault = status_fault(path, status, line, text);
            &&& fault is None <==> 200 <= status <= 299
            &&& fault == Some(BackendErrorView::NotFound(path)) <==> status == 404
            &&& fault == Some(
                BackendErrorView::PermissionDenied(
                    "Zendesk API returned "@ + line + ": "@ + text,
                ),
            ) <==> status == 401 || status == 403
            &&& status == 429 ==> fault == Some(
                BackendErrorView::Unavailable("Zendesk API rate limited request: "@ + text),
            )
            &&& (status < 200 || status >= 300) && status != 404 && status != 401 && status != 403
                && status != 429 ==> fault == Some(
                BackendErrorView::Unavailable("Zendesk API returned "@ + line + ": "@ + text),
            )
        }),
{
}

/// What a reply that gives no value means: by its status, or by why it could not be read.
pub proof fn lemma_failures_are_told_apart(
    path: Seq<char>,
    status: u16,
    text: Seq<char>,
    words: Seq<char>,
)
    ensures
        ({
            let result = reply_outcome(path, ReplyView::Received { status, text });
            let told = "Zendesk API returned "@ + status_line(status) + ": "@ + text;
            &&& status == 404 ==> result == Err::<JsonView, BackendErrorView>(
                BackendErrorView::NotFound(path),
            )
            &&& status == 401 || status == 403 ==> result == Err::<JsonView, BackendErrorView>(
                BackendErrorView::PermissionDenied(told),
            )
            &&& status == 429 ==> result == Err::<JsonView, BackendErrorView>(
                BackendErrorView::Unavailable("Zendesk API rate limited request: "@ + text),
            )
            &&& status != 404 && status != 401 && status != 403 && status != 429 && (status < 200
                || status >= 300) ==> result == Err::<JsonView, BackendErrorView>(
                BackendErrorView::Unavailable(told),
            )
            &&& 200 <= status < 300 && parsed_json(text) is Err && (exists|i: int|
                0 <= i < text.len() && !is_white_space(#[trigger] text[i])) ==> result == Err::<
                JsonView,
                BackendErrorView,
            >(BackendErrorView::Other(parsed_json(text)->Err_0))
        }),
        reply_outcome(path, ReplyView::Failed(words)) == Err::<JsonView, BackendErrorView>(
            BackendErrorView::Unavailable(words),
        ),
{
}

} // verus!
