//! Requests to the account and what its replies mean.

use vstd::prelude::*;

use crate::backend::ZendeskBackend;
use crate::config::ZendeskConfigView;
use crate::json::{parsed_json, Json, JsonView};
use crate::protocol::{or_other, outcome, BackendError, BackendErrorView};
use crate::text::{blank, concat3, is_blank};

verus! {

/// What a request does.
#[derive(Clone, Copy, Debug, PartialEq, Eq, Structural)]
pub enum Method {
    Get,
    Put,
}

/// A request, as far as it has to be known to send it: with basic authentication by user name
/// and password, and with the body, if there is one, as JSON.
#[derive(Debug, PartialEq, Eq)]
pub struct HttpRequest {
    pub method: Method,
    pub url: String,
    pub accept: String,
    pub username: String,
    pub password: String,
    pub body: Option<Json>,
}

/// An `HttpRequest` by its characters.
pub struct HttpRequestView {
    pub method: Method,
    pub url: Seq<char>,
    pub accept: Seq<char>,
    pub username: Seq<char>,
    pub password: Seq<char>,
    pub body: Option<JsonView>,
}

/// An optional JSON value by its view.
pub open spec fn opt_json(value: Option<Json>) -> Option<JsonView> {
    match value {
        Some(json) => Some(json@),
        None => None,
    }
}

impl View for HttpRequest {
    type V = HttpRequestView;

    open spec fn view(&self) -> HttpRequestView {
        HttpRequestView {
            method: self.method,
            url: self.url@,
            accept: self.accept@,
            username: self.username@,
            password: self.password@,
            body: opt_json(self.body),
        }
    }
}

/// What came of a request.
#[derive(Debug, PartialEq, Eq)]
pub enum Reply {
    /// A response, with its status code and its text.
    Received { status: u16, text: String },
    /// No response, or none that could be read; with the words for it.
    Failed(String),
}

/// A `Reply` by its characters.
pub enum ReplyView {
    Received { status: u16, text: Seq<char> },
    Failed(Seq<char>),
}

impl View for Reply {
    type V = ReplyView;

    open spec fn view(&self) -> ReplyView {
        match self {
            Reply::Received { status, text } => ReplyView::Received { status: *status, text: text@ },
            Reply::Failed(words) => ReplyView::Failed(words@),
        }
    }
}

// Requests.

/// What is missing in a configuration.
pub open spec fn configuration_fault(config: ZendeskConfigView) -> Option<BackendErrorView> {
    if config.base_url.len() == 0 {
        Some(
            BackendErrorView::InvalidRequest(
                "ZENDESK_BASE_URL or ZENDESK_SUBDOMAIN must be set"@,
            ),
        )
    } else if config.email is None || config.api_token is None {
        Some(
            BackendErrorView::PermissionDenied("ZENDESK_EMAIL and ZENDESK_API_TOKEN must be set"@),
        )
    } else {
        None
    }
}

/// The request for a path of the account, or why there can be none.
pub open spec fn request_outcome(
    config: ZendeskConfigView,
    method: Method,
    path: Seq<char>,
    body: Option<JsonView>,
) -> Result<HttpRequestView, BackendErrorView> {
    match configuration_fault(config) {
        Some(error) => Err(error),
        None => Ok(
            HttpRequestView {
                method,
                url: config.base_url + path,
                accept: "application/json"@,
                username: config.email->0 + "/token"@,
                password: config.api_token->0,
                body,
            },
        ),
    }
}

impl ZendeskBackend {
    /// Whether the account and the credentials are there.
    pub fn ensure_configured(&self) -> (checked: Result<(), BackendError>)
        ensures
            match checked {
                Ok(_) => configuration_fault(self.config@) is None,
                Err(error) => configuration_fault(self.config@) == Some(error@),
            },
    {
        if self.config.base_url.as_str().is_empty() {
            return Err(
                BackendError::InvalidRequest(
                    "ZENDESK_BASE_URL or ZENDESK_SUBDOMAIN must be set".to_owned(),
                ),
            );
        }
        if self.config.email.is_none() || self.config.api_token.is_none() {
            return Err(
                BackendError::PermissionDenied(
                    "ZENDESK_EMAIL and ZENDESK_API_TOKEN must be set".to_owned(),
                ),
            );
        }
        Ok(())
    }

    /// The request for a path of the account.
    pub fn request(&self, method: Method, path: &str, body: Option<Json>) -> (request: Result<
        HttpRequest,
        BackendError,
    >)
        ensures
            outcome(request) == request_outcome(self.config@, method, path@, opt_json(body)),
    {
        match self.ensure_configured() {
            Ok(_) => {},
            Err(error) => return Err(error),
        }
        let mut url = self.config.base_url.clone();
        url.append(path);
        let mut username = match &self.config.email {
            Some(email) => email.clone(),
            None => String::new(),
        };
        username.append("/token");
        let password = match &self.config.api_token {
            Some(token) => token.clone(),
            None => String::new(),
        };
        Ok(
            HttpRequest {
                method,
                url,
                accept: "application/json".to_owned(),
                username,
                password,
                body,
            },
        )
    }
}

// Replies.

/// How `reqwest` prints a status code: the code and its reason phrase.
pub uninterp spec fn status_line(status: u16) -> Seq<char>;

/// Prints the `reqwest::StatusCode` of a number by its `Display`; for a number outside 100 to
/// 999, which is no status code, the error of `StatusCode::from_u16`.
///
/// Trusted: the text is the one that `status_line` names.
#[verifier::external_body]
fn print_status(status: u16) -> (line: String)
    ensures
        line@ == status_line(status),
{
    match reqwest::StatusCode::from_u16(status) {
        Ok(code) => code.to_string(),
        Err(error) => error.to_string(),
    }
}

/// What is wrong with a response, by its status code. `line` is how the code is printed.
pub open spec fn status_fault(
    path: Seq<char>,
    status: u16,
    line: Seq<char>,
    text: Seq<char>,
) -> Option<BackendErrorView> {
    if status == 404 {
        Some(BackendErrorView::NotFound(path))
    } else if status == 401 || status == 403 {
        Some(BackendErrorView::PermissionDenied("Zendesk API returned "@ + line + ": "@ + text))
    } else if status == 429 {
        Some(BackendErrorView::Unavailable("Zendesk API rate limited request: "@ + text))
    } else if !(200 <= status < 300) {
        Some(BackendErrorView::Unavailable("Zendesk API returned "@ + line + ": "@ + text))
    } else {
        None
    }
}

/// The JSON value that the reply to a request for a path gives, or why it gives none. A
/// response without text gives null.
pub open spec fn reply_outcome(path: Seq<char>, reply: ReplyView) -> Result<
    JsonView,
    BackendErrorView,
> {
    match reply {
        ReplyView::Failed(words) => Err(BackendErrorView::Unavailable(words)),
        ReplyView::Received { status, text } => match status_fault(
            path,
            status,
            status_line(status),
            text,
        ) {
            Some(error) => Err(error),
            None => if is_blank(text) {
                Ok(JsonView::Null)
            } else {
                match parsed_json(text) {
                    Ok(value) => Ok(value),
                    Err(words) => Err(BackendErrorView::Other(words)),
                }
            },
        },
    }
}

fn api_returned(line: &str, text: &str) -> (words: String)
    ensures
        words@ == "Zendesk API returned "@ + line@ + ": "@ + text@,
{
    let mut words = concat3("Zendesk API returned ", line, ": ");
    words.append(text);
    words
}

/// Whether the status code of a response is one of success. `line` is how the code is printed.
pub fn check_status(path: &str, status: u16, line: &str, text: &str) -> (checked: Result<
    (),
    BackendError,
>)
    ensures
        match checked {
            Ok(_) => status_fault(path@, status, line@, text@) is None,
            Err(error) => status_fault(path@, status, line@, text@) == Some(error@),
        },
{
    if status == 404 {
        return Err(BackendError::NotFound(path.to_owned()));
    }
    if status == 401 || status == 403 {
        return Err(BackendError::PermissionDenied(api_returned(line, text)));
    }
    if status == 429 {
        let mut words = "Zendesk API rate limited request: ".to_owned();
        words.append(text);
        return Err(BackendError::Unavailable(words));
    }
    if status < 200 || status >= 300 {
        return Err(BackendError::Unavailable(api_returned(line, text)));
    }
    Ok(())
}

/// The JSON value that the reply to a request for a path gives.
pub fn json_reply(path: &str, reply: &Reply) -> (value: Result<Json, BackendError>)
    ensures
        outcome(value) == reply_outcome(path@, reply@),
{
    match reply {
        Reply::Failed(words) => Err(BackendError::Unavailable(words.clone())),
        Reply::Received { status, text } => {
            let line = print_status(*status);
            match check_status(path, *status, line.as_str(), text.as_str()) {
                Ok(_) => {},
                Err(error) => return Err(error),
            }
            if blank(text.as_str()) {
                return Ok(Json::Null);
            }
            or_other(Json::parse(text.as_str()))
        },
    }
}

// Laws.

/// A backend that lacks its address or its credentials makes no request at all.
pub proof fn lemma_unconfigured_makes_no_request(
    config: ZendeskConfigView,
    method: Method,
    path: Seq<char>,
    body: Option<JsonView>,
)
    ensures
        request_outcome(config, method, path, body) is Ok <==> config.configured(),
{
}

/// A reply gives a value only where a response came, and its status was one of success.
pub proof fn lemma_only_success_gives_a_value(path: Seq<char>, reply: ReplyView)
    requires
        reply_outcome(path, reply) is Ok,
    ensures
        reply matches ReplyView::Received { status, .. } && 200 <= status < 300,
{
}

} // verus!
