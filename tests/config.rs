use porkbun_ddns::config::{
    endpoint, full_domain, record_type, resolve_keys, Config, Keys, KeysError, ENDPOINT,
    ENDPOINT_IPV4,
};

fn keys(secret: &str, api: &str) -> Keys {
    Keys { secretapikey: secret.to_string(), apikey: api.to_string() }
}

#[test]
fn full_domain_without_subdomain_is_base() {
    assert_eq!(full_domain("", "example.com"), "example.com");
}

#[test]
fn full_domain_joins_subdomain_and_base() {
    assert_eq!(full_domain("home", "example.com"), "home.example.com");
    assert_eq!(full_domain("a.b", "example.org"), "a.b.example.org");
}

#[test]
fn ipv6_selects_aaaa_and_dual_stack_host() {
    assert_eq!(record_type(true), "AAAA");
    assert_eq!(endpoint(true), "https://api.porkbun.com/api/json/v3");
    assert_eq!(endpoint(true), ENDPOINT);
}

#[test]
fn ipv4_selects_a_and_ipv4_host() {
    assert_eq!(record_type(false), "A");
    assert_eq!(endpoint(false), "https://api-ipv4.porkbun.com/api/json/v3");
    assert_eq!(endpoint(false), ENDPOINT_IPV4);
}

#[test]
fn configured_keys_win_over_environment() {
    let r = resolve_keys(
        Some(keys("sk", "pk")),
        Some("env-sk".to_string()),
        Some("env-pk".to_string()),
    );
    assert_eq!(r, Ok(keys("sk", "pk")));
}

#[test]
fn environment_keys_used_without_configured_ones() {
    let r = resolve_keys(None, Some("env-sk".to_string()), Some("env-pk".to_string()));
    assert_eq!(r, Ok(keys("env-sk", "env-pk")));
}

#[test]
fn missing_environment_key_is_an_error() {
    assert_eq!(
        resolve_keys(None, Some("env-sk".to_string()), None),
        Err(KeysError::MissingCredentials)
    );
    assert_eq!(
        resolve_keys(None, None, Some("env-pk".to_string())),
        Err(KeysError::MissingCredentials)
    );
    assert_eq!(resolve_keys(None, None, None), Err(KeysError::MissingCredentials));
}

#[test]
fn default_config_is_an_empty_ipv4_template() {
    let c = Config::default();
    assert!(c.keys.is_none());
    assert_eq!(c.domain.subdomain, "");
    assert_eq!(c.domain.base, "");
    assert_eq!(c.ip.address, "");
    assert!(!c.ip.ipv6);
}
