//! Configuration, credentials and the values derived from them.
use vstd::prelude::*;

verus! {

/// Base URL of the API, reachable over IPv4 and IPv6.
pub const ENDPOINT: &'static str = "https://api.porkbun.com/api/json/v3";

/// Base URL of the API that answers over IPv4 only.
pub const ENDPOINT_IPV4: &'static str = "https://api-ipv4.porkbun.com/api/json/v3";

/// The base URL used for every call: the IPv6-capable host when an IPv6
/// address is wanted, else the IPv4-only host.
pub open spec fn endpoint_of(ipv6: bool) -> Seq<char> {
    if ipv6 {
        ENDPOINT@
    } else {
        ENDPOINT_IPV4@
    }
}

/// The DNS record type managed: `AAAA` for IPv6, `A` for IPv4.
pub open spec fn record_type_of(ipv6: bool) -> Seq<char> {
    if ipv6 {
        "AAAA"@
    } else {
        "A"@
    }
}

/// The fully-qualified name: the base domain alone when there is no
/// subdomain, else `subdomain.base`.
pub open spec fn full_domain_of(subdomain: Seq<char>, base: Seq<char>) -> Seq<char> {
    if subdomain.len() == 0 {
        base
    } else {
        subdomain + "."@ + base
    }
}

pub fn endpoint(ipv6: bool) -> (r: &'static str)
    ensures
        r@ == endpoint_of(ipv6),
{
    if ipv6 {
        ENDPOINT
    } else {
        ENDPOINT_IPV4
    }
}

pub fn record_type(ipv6: bool) -> (r: String)
    ensures
        r@ == record_type_of(ipv6),
{
    if ipv6 {
        String::from_str("AAAA")
    } else {
        String::from_str("A")
    }
}

pub fn full_domain(subdomain: &str, base: &str) -> (r: String)
    ensures
        r@ == full_domain_of(subdomain@, base@),
{
    if subdomain.is_empty() {
        String::from_str(base)
    } else {
        let mut r = String::from_str(subdomain);
        r.append(".");
        r.append(base);
        r
    }
}

/// The two API credentials sent with every call.
#[derive(Clone, Debug, PartialEq, Eq)]
pub struct Keys {
    pub secretapikey: String,
    pub apikey: String,
}

/// The name to keep up to date: `subdomain` may be empty.
#[derive(Debug, PartialEq, Eq)]
pub struct Domain {
    pub subdomain: String,
    pub base: String,
}

/// The address policy: a fixed `address`, or an empty one to ask the
/// provider; `ipv6` picks the address family.
#[derive(Debug, PartialEq, Eq)]
pub struct Ip {
    pub address: String,
    pub ipv6: bool,
}

/// The whole configuration file. Without `keys` the credentials come from
/// the environment.
#[derive(Debug, PartialEq, Eq)]
pub struct Config {
    pub keys: Option<Keys>,
    pub domain: Domain,
    pub ip: Ip,
}

/// The credentials as plain text: the secret key, then the API key.
pub struct KeysView {
    pub secret: Seq<char>,
    pub api: Seq<char>,
}

impl View for Keys {
    type V = KeysView;

    open spec fn view(&self) -> KeysView {
        KeysView { secret: self.secretapikey@, api: self.apikey@ }
    }
}

impl Default for Config {
    /// The template written on a first run: no credentials (they are then
    /// read from the environment), every string empty, IPv4 selected.
    fn default() -> (r: Config)
        ensures
            r.keys is None,
            r.domain.subdomain@.len() == 0,
            r.domain.base@.len() == 0,
            r.ip.address@.len() == 0,
            !r.ip.ipv6,
    {
        Config {
            keys: None,
            domain: Domain { subdomain: String::new(), base: String::new() },
            ip: Ip { address: String::new(), ipv6: false },
        }
    }
}

/// Why a run could not start.
#[derive(Clone, Copy, Debug, PartialEq, Eq, Structural)]
pub enum KeysError {
    /// Neither the configuration nor the environment holds both keys.
    MissingCredentials,
}

/// The credentials of a run: those of the configuration when it has them,
/// else the two environment values, which must both be present.
pub open spec fn resolved_keys(
    configured: Option<KeysView>,
    env_secret: Option<Seq<char>>,
    env_api: Option<Seq<char>>,
) -> Option<KeysView> {
    match configured {
        Some(k) => Some(k),
        None => match (env_secret, env_api) {
            (Some(secret), Some(api)) => Some(KeysView { secret, api }),
            _ => None,
        },
    }
}

pub open spec fn keys_view(k: Option<Keys>) -> Option<KeysView> {
    match k {
        Some(k) => Some(k@),
        None => None,
    }
}

/// Picks the credentials of a run from the configuration, falling back to
/// the values read from the two environment variables.
pub fn resolve_keys(configured: Option<Keys>, env_secret: Option<String>, env_api: Option<String>) -> (r:
    Result<Keys, KeysError>)
    ensures
        match resolved_keys(keys_view(configured), env_secret.deep_view(), env_api.deep_view()) {
            Some(k) => r matches Ok(got) && got@ == k,
            None => r == Err::<Keys, KeysError>(KeysError::MissingCredentials),
        },
{
    match configured {
        Some(k) => Ok(k),
        None => match (env_secret, env_api) {
            (Some(secretapikey), Some(apikey)) => Ok(Keys { secretapikey, apikey }),
            _ => Err(KeysError::MissingCredentials),
        },
    }
}

} // verus!
