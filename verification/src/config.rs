//! The account that the backend talks to.

use vstd::prelude::*;

use crate::text::{
    blank, concat3, is_blank, opt_string, trim, trim_end_slashes, trimmed, without_end_slashes,
};

verus! {

pub const ENV_SUBDOMAIN: &'static str = "ZENDESK_SUBDOMAIN";

pub const ENV_BASE_URL: &'static str = "ZENDESK_BASE_URL";

pub const ENV_EMAIL: &'static str = "ZENDESK_EMAIL";

pub const ENV_API_TOKEN: &'static str = "ZENDESK_API_TOKEN";

pub const ENV_QUERY: &'static str = "ZENDESK_QUERY";

/// The values of the environment variables; nothing for one that is unset or not Unicode.
#[derive(Debug, PartialEq, Eq)]
pub struct EnvVars {
    /// Under `ENV_BASE_URL`.
    pub base_url: Option<String>,
    /// Under `ENV_SUBDOMAIN`.
    pub subdomain: Option<String>,
    /// Under `ENV_EMAIL`.
    pub email: Option<String>,
    /// Under `ENV_API_TOKEN`.
    pub api_token: Option<String>,
    /// Under `ENV_QUERY`.
    pub query: Option<String>,
}

/// The account, how to sign in to it, and the search that picks the tickets to list.
#[derive(Clone, Debug, PartialEq, Eq)]
pub struct ZendeskConfig {
    pub base_url: String,
    pub email: Option<String>,
    pub api_token: Option<String>,
    pub query: Option<String>,
}

/// A `ZendeskConfig` by its characters.
pub struct ZendeskConfigView {
    pub base_url: Seq<char>,
    pub email: Option<Seq<char>>,
    pub api_token: Option<Seq<char>>,
    pub query: Option<Seq<char>>,
}

impl View for ZendeskConfig {
    type V = ZendeskConfigView;

    open spec fn view(&self) -> ZendeskConfigView {
        ZendeskConfigView {
            base_url: self.base_url@,
            email: opt_string(self.email),
            api_token: opt_string(self.api_token),
            query: opt_string(self.query),
        }
    }
}

/// A value that is more than white space.
pub open spec fn non_blank(value: Option<Seq<char>>) -> Option<Seq<char>> {
    match value {
        Some(s) => if is_blank(s) {
            None
        } else {
            Some(s)
        },
        None => None,
    }
}

/// A value that is not empty.
pub open spec fn non_empty(value: Option<Seq<char>>) -> Option<Seq<char>> {
    match value {
        Some(s) => if s.len() == 0 {
            None
        } else {
            Some(s)
        },
        None => None,
    }
}

/// The address of the account: the base URL without the slashes at its end; where it is unset
/// or blank, the one that the subdomain makes; where that is too, nothing.
pub open spec fn account_url(base_url: Option<Seq<char>>, subdomain: Option<Seq<char>>) -> Seq<
    char,
> {
    match non_blank(base_url) {
        Some(url) => without_end_slashes(url),
        None => match non_blank(subdomain) {
            Some(name) => "https://"@ + trimmed(name) + ".zendesk.com"@,
            None => Seq::empty(),
        },
    }
}

/// The configuration that the environment gives.
pub open spec fn config_of(vars: EnvVars) -> ZendeskConfigView {
    ZendeskConfigView {
        base_url: account_url(opt_string(vars.base_url), opt_string(vars.subdomain)),
        email: non_empty(opt_string(vars.email)),
        api_token: non_empty(opt_string(vars.api_token)),
        query: non_blank(opt_string(vars.query)),
    }
}

impl ZendeskConfigView {
    /// Whether an account is named and a way to sign in to it is given.
    pub open spec fn configured(self) -> bool {
        self.base_url.len() > 0 && self.email is Some && self.api_token is Some
    }
}

fn keep_non_blank(value: Option<String>) -> (kept: Option<String>)
    ensures
        opt_string(kept) == non_blank(opt_string(value)),
{
    match value {
        Some(s) => if blank(s.as_str()) {
            None
        } else {
            Some(s)
        },
        None => None,
    }
}

fn keep_non_empty(value: Option<String>) -> (kept: Option<String>)
    ensures
        opt_string(kept) == non_empty(opt_string(value)),
{
    match value {
        Some(s) => if s.as_str().is_empty() {
            None
        } else {
            Some(s)
        },
        None => None,
    }
}

impl ZendeskConfig {
    /// The configuration that the environment gives.
    pub fn from_env(vars: EnvVars) -> (config: ZendeskConfig)
        ensures
            config@ == config_of(vars),
    {
        let base_url = match keep_non_blank(vars.base_url) {
            Some(url) => trim_end_slashes(url.as_str()).to_owned(),
            None => match keep_non_blank(vars.subdomain) {
                Some(name) => concat3("https://", trim(name.as_str()), ".zendesk.com"),
                None => String::new(),
            },
        };
        ZendeskConfig {
            base_url,
            email: keep_non_empty(vars.email),
            api_token: keep_non_empty(vars.api_token),
            query: keep_non_blank(vars.query),
        }
    }

    /// A configuration with made-up credentials.
    pub fn for_testing(api_base: &str) -> (config: ZendeskConfig)
        ensures
            config@ == (ZendeskConfigView {
                base_url: api_base@,
                email: Some("agent@example.com"@),
                api_token: Some("test-token"@),
                query: None,
            }),
    {
        ZendeskConfig {
            base_url: api_base.to_owned(),
            email: Some("agent@example.com".to_owned()),
            api_token: Some("test-token".to_owned()),
            query: None,
        }
    }
}

} // verus!
