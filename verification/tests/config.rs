use animus_subject_zendesk::config::{EnvVars, ZendeskConfig};

fn unset() -> EnvVars {
    EnvVars { base_url: None, subdomain: None, email: None, api_token: None, query: None }
}

fn text(s: &str) -> Option<String> {
    Some(s.to_string())
}

#[test]
fn testing_config_uses_base_url() {
    let config = ZendeskConfig::for_testing("https://example.zendesk.com");
    assert_eq!(config.base_url, "https://example.zendesk.com");
    assert_eq!(config.email.as_deref(), Some("agent@example.com"));
}

#[test]
fn testing_config_has_token_and_no_query() {
    let config = ZendeskConfig::for_testing("x");
    assert_eq!(config.api_token.as_deref(), Some("test-token"));
    assert_eq!(config.query, None);
}

#[test]
fn empty_environment_gives_empty_config() {
    let config = ZendeskConfig::from_env(unset());
    assert_eq!(
        config,
        ZendeskConfig { base_url: String::new(), email: None, api_token: None, query: None }
    );
}

#[test]
fn base_url_loses_its_end_slashes() {
    let config = ZendeskConfig::from_env(EnvVars {
        base_url: text("https://acme.zendesk.com///"),
        subdomain: text("other"),
        ..unset()
    });
    assert_eq!(config.base_url, "https://acme.zendesk.com");
}

#[test]
fn base_url_keeps_its_white_space() {
    let config = ZendeskConfig::from_env(EnvVars { base_url: text(" https://a/ "), ..unset() });
    assert_eq!(config.base_url, " https://a/ ");
}

#[test]
fn base_url_of_slashes_is_empty_and_not_replaced() {
    let config = ZendeskConfig::from_env(EnvVars {
        base_url: text("//"),
        subdomain: text("acme"),
        ..unset()
    });
    assert_eq!(config.base_url, "");
}

#[test]
fn subdomain_stands_in_for_blank_base_url() {
    let config = ZendeskConfig::from_env(EnvVars {
        base_url: text(" \t"),
        subdomain: text("  acme\u{3000}"),
        ..unset()
    });
    assert_eq!(config.base_url, "https://acme.zendesk.com");
}

#[test]
fn blank_subdomain_counts_as_unset() {
    let config = ZendeskConfig::from_env(EnvVars { subdomain: text(" \n "), ..unset() });
    assert_eq!(config.base_url, "");
}

#[test]
fn empty_credentials_count_as_unset_but_blank_ones_do_not() {
    let config = ZendeskConfig::from_env(EnvVars {
        email: text(""),
        api_token: text(" "),
        ..unset()
    });
    assert_eq!(config.email, None);
    assert_eq!(config.api_token.as_deref(), Some(" "));
}

#[test]
fn blank_query_counts_as_unset() {
    let blank = ZendeskConfig::from_env(EnvVars { query: text("  "), ..unset() });
    assert_eq!(blank.query, None);
    let kept = ZendeskConfig::from_env(EnvVars { query: text(" status:open "), ..unset() });
    assert_eq!(kept.query.as_deref(), Some(" status:open "));
}
