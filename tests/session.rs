use porkbun_ddns::config::{Domain, Ip, Keys};
use porkbun_ddns::provider::{NewRecord, Record};
use porkbun_ddns::session::{Action, Event, Outcome, Phase, Session};

fn keys() -> Keys {
    Keys { secretapikey: "sk".to_string(), apikey: "pk".to_string() }
}

fn start(address: &str, ipv6: bool) -> (Session, Action) {
    Session::start(
        keys(),
        Domain { subdomain: "home".to_string(), base: "example.com".to_string() },
        Ip { address: address.to_string(), ipv6 },
    )
}

fn record(id: &str, content: &str) -> Record {
    Record {
        id: id.to_string(),
        record_type: "A".to_string(),
        content: content.to_string(),
        ttl: Some("600".to_string()),
        prio: Some("0".to_string()),
        notes: Some("home router".to_string()),
    }
}

fn retrieved(status: &str, records: Vec<Record>) -> Event {
    Event::Retrieved { lookup_status: status.to_string(), records }
}

fn is_mutation(a: &Action) -> bool {
    matches!(a, Action::Delete { .. } | Action::Create { .. })
}

const RETRIEVE_V4: &str =
    "https://api-ipv4.porkbun.com/api/json/v3/dns/retrieveByNameType/example.com/A/home";

#[test]
fn configured_address_skips_discovery() {
    let (s, a) = start("1.2.3.4", false);
    assert_eq!(a, Action::Retrieve { url: RETRIEVE_V4.to_string() });
    assert_eq!(s.ip, "1.2.3.4");
    assert_eq!(s.phase, Phase::Retrieving);
}

#[test]
fn empty_address_asks_provider() {
    let (mut s, a) = start("", false);
    assert_eq!(
        a,
        Action::Ping { url: "https://api-ipv4.porkbun.com/api/json/v3/ping".to_string() }
    );
    let a = s.step(Event::Pinged { your_ip: Some("9.9.9.9".to_string()) });
    assert_eq!(a, Action::Retrieve { url: RETRIEVE_V4.to_string() });
    assert_eq!(s.ip, "9.9.9.9");
}

#[test]
fn discovery_without_address_ends_run() {
    let (mut s, _) = start("", false);
    let a = s.step(Event::Pinged { your_ip: None });
    assert_eq!(a, Action::Finish { outcome: Outcome::NoAddress });
    assert_eq!(s.phase, Phase::Done);
}

#[test]
fn matching_record_changes_nothing() {
    let (mut s, _) = start("1.2.3.4", false);
    let a = s.step(retrieved("SUCCESS", vec![record("42", "1.2.3.4")]));
    assert_eq!(a, Action::Finish { outcome: Outcome::Unchanged });
    assert!(Outcome::Unchanged.is_success());
    let a = s.step(Event::Deleted { status: Some("SUCCESS".to_string()) });
    assert!(!is_mutation(&a));
    assert_eq!(a, Action::Finish { outcome: Outcome::OutOfOrder });
}

#[test]
fn outdated_record_deleted_then_created() {
    let (mut s, _) = start("5.6.7.8", false);
    let a = s.step(retrieved("SUCCESS", vec![record("42", "1.2.3.4")]));
    assert_eq!(
        a,
        Action::Delete {
            url: "https://api-ipv4.porkbun.com/api/json/v3/dns/delete/example.com/42".to_string()
        }
    );
    let a = s.step(Event::Deleted { status: Some("SUCCESS".to_string()) });
    assert_eq!(
        a,
        Action::Create {
            url: "https://api-ipv4.porkbun.com/api/json/v3/dns/create/example.com".to_string(),
            record: NewRecord {
                secretapikey: "sk".to_string(),
                apikey: "pk".to_string(),
                name: "home".to_string(),
                record_type: "A".to_string(),
                content: "5.6.7.8".to_string(),
                ttl: Some("600".to_string()),
                prio: Some("0".to_string()),
                notes: Some("home router".to_string()),
            },
        }
    );
    let a = s.step(Event::Created { status: Some("SUCCESS".to_string()) });
    assert_eq!(a, Action::Finish { outcome: Outcome::Created });
    assert!(Outcome::Created.is_success());
}

#[test]
fn no_record_creates_one_without_optional_fields() {
    let (mut s, _) = start("5.6.7.8", true);
    let a = s.step(retrieved("SUCCESS", vec![]));
    assert_eq!(
        a,
        Action::Create {
            url: "https://api.porkbun.com/api/json/v3/dns/create/example.com".to_string(),
            record: NewRecord {
                secretapikey: "sk".to_string(),
                apikey: "pk".to_string(),
                name: "home".to_string(),
                record_type: "AAAA".to_string(),
                content: "5.6.7.8".to_string(),
                ttl: None,
                prio: None,
                notes: None,
            },
        }
    );
}

#[test]
fn failed_lookup_ends_run() {
    let (mut s, _) = start("5.6.7.8", false);
    let a = s.step(retrieved("ERROR", vec![record("42", "1.2.3.4")]));
    assert_eq!(a, Action::Finish { outcome: Outcome::RetrieveFailed });
    assert!(!Outcome::RetrieveFailed.is_success());
    let a = s.step(Event::Deleted { status: Some("SUCCESS".to_string()) });
    assert!(!is_mutation(&a));
}

#[test]
fn delete_without_status_stops_before_create() {
    let (mut s, _) = start("5.6.7.8", false);
    s.step(retrieved("SUCCESS", vec![record("42", "1.2.3.4")]));
    let a = s.step(Event::Deleted { status: None });
    assert_eq!(a, Action::Finish { outcome: Outcome::DeleteFailed });
}

#[test]
fn create_without_success_is_reported() {
    let (mut s, _) = start("5.6.7.8", false);
    s.step(retrieved("SUCCESS", vec![]));
    let a = s.step(Event::Created { status: Some("ERROR".to_string()) });
    assert_eq!(a, Action::Finish { outcome: Outcome::CreateFailed });
    assert!(!Outcome::CreateFailed.is_success());
}

#[test]
fn ipv6_run_uses_dual_stack_host_and_aaaa() {
    let (mut s, a) = start("", true);
    assert_eq!(a, Action::Ping { url: "https://api.porkbun.com/api/json/v3/ping".to_string() });
    let a = s.step(Event::Pinged { your_ip: Some("2001:db8::1".to_string()) });
    assert_eq!(
        a,
        Action::Retrieve {
            url: "https://api.porkbun.com/api/json/v3/dns/retrieveByNameType/example.com/AAAA/home"
                .to_string()
        }
    );
}

#[test]
fn transport_failure_ends_run() {
    let (mut s, _) = start("", false);
    let a = s.step(Event::Failed);
    assert_eq!(a, Action::Finish { outcome: Outcome::TransportFailed });
    assert!(!Outcome::TransportFailed.is_success());
}

#[test]
fn reply_out_of_order_ends_run() {
    let (mut s, _) = start("1.2.3.4", false);
    let a = s.step(Event::Created { status: Some("SUCCESS".to_string()) });
    assert_eq!(a, Action::Finish { outcome: Outcome::OutOfOrder });
    assert_eq!(s.phase, Phase::Done);
}

#[test]
fn empty_subdomain_leaves_last_segment_empty() {
    let (_, a) = Session::start(
        keys(),
        Domain { subdomain: String::new(), base: "example.com".to_string() },
        Ip { address: "1.2.3.4".to_string(), ipv6: false },
    );
    assert_eq!(
        a,
        Action::Retrieve {
            url: "https://api-ipv4.porkbun.com/api/json/v3/dns/retrieveByNameType/example.com/A/"
                .to_string()
        }
    );
}
