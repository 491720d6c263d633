//! The provider's records and the URLs of its API.
use vstd::prelude::*;

use crate::config::{endpoint, endpoint_of};

verus! {

/// A DNS record as the provider lists it.
#[derive(Debug, PartialEq, Eq)]
pub struct Record {
    pub id: String,
    pub record_type: String,
    pub content: String,
    pub ttl: Option<String>,
    pub prio: Option<String>,
    pub notes: Option<String>,
}

pub struct RecordView {
    pub id: Seq<char>,
    pub record_type: Seq<char>,
    pub content: Seq<char>,
    pub ttl: Option<Seq<char>>,
    pub prio: Option<Seq<char>>,
    pub notes: Option<Seq<char>>,
}

impl View for Record {
    type V = RecordView;

    open spec fn view(&self) -> RecordView {
        RecordView {
            id: self.id@,
            record_type: self.record_type@,
            content: self.content@,
            ttl: self.ttl.deep_view(),
            prio: self.prio.deep_view(),
            notes: self.notes.deep_view(),
        }
    }
}

/// The body of a create call: the credentials, the subdomain as `name`, and
/// the optional fields kept from the record it replaces.
#[derive(Debug, PartialEq, Eq)]
pub struct NewRecord {
    pub secretapikey: String,
    pub apikey: String,
    pub name: String,
    pub record_type: String,
    pub content: String,
    pub ttl: Option<String>,
    pub prio: Option<String>,
    pub notes: Option<String>,
}

pub struct NewRecordView {
    pub secretapikey: Seq<char>,
    pub apikey: Seq<char>,
    pub name: Seq<char>,
    pub record_type: Seq<char>,
    pub content: Seq<char>,
    pub ttl: Option<Seq<char>>,
    pub prio: Option<Seq<char>>,
    pub notes: Option<Seq<char>>,
}

impl View for NewRecord {
    type V = NewRecordView;

    open spec fn view(&self) -> NewRecordView {
        NewRecordView {
            secretapikey: self.secretapikey@,
            apikey: self.apikey@,
            name: self.name@,
            record_type: self.record_type@,
            content: self.content@,
            ttl: self.ttl.deep_view(),
            prio: self.prio.deep_view(),
            notes: self.notes.deep_view(),
        }
    }
}

/// Copies an optional string.
pub fn clone_opt(o: &Option<String>) -> (r: Option<String>)
    ensures
        r.deep_view() == o.deep_view(),
{
    match o {
        Some(s) => Some(s.clone()),
        None => None,
    }
}

/// Where the caller's public address is asked for.
pub open spec fn ping_url_of(ipv6: bool) -> Seq<char> {
    endpoint_of(ipv6) + "/ping"@
}

/// Where the records of one name and type are listed.
pub open spec fn retrieve_url_of(ipv6: bool, base: Seq<char>, rtype: Seq<char>, subdomain: Seq<char>) -> Seq<char> {
    endpoint_of(ipv6) + "/dns/retrieveByNameType/"@ + base + "/"@ + rtype + "/"@ + subdomain
}

/// Where the record with identifier `id` is deleted.
pub open spec fn delete_url_of(ipv6: bool, base: Seq<char>, id: Seq<char>) -> Seq<char> {
    endpoint_of(ipv6) + "/dns/delete/"@ + base + "/"@ + id
}

/// Where a record under `base` is created.
pub open spec fn create_url_of(ipv6: bool, base: Seq<char>) -> Seq<char> {
    endpoint_of(ipv6) + "/dns/create/"@ + base
}

pub fn ping_url(ipv6: bool) -> (r: String)
    ensures
        r@ == ping_url_of(ipv6),
{
    let mut r = String::from_str(endpoint(ipv6));
    r.append("/ping");
    r
}

pub fn retrieve_url(ipv6: bool, base: &str, rtype: &str, subdomain: &str) -> (r: String)
    ensures
        r@ == retrieve_url_of(ipv6, base@, rtype@, subdomain@),
{
    let mut r = String::from_str(endpoint(ipv6));
    r.append("/dns/retrieveByNameType/");
    r.append(base);
    r.append("/");
    r.append(rtype);
    r.append("/");
    r.append(subdomain);
    r
}

pub fn delete_url(ipv6: bool, base: &str, id: &str) -> (r: String)
    ensures
        r@ == delete_url_of(ipv6, base@, id@),
{
    let mut r = String::from_str(endpoint(ipv6));
    r.append("/dns/delete/");
    r.append(base);
    r.append("/");
    r.append(id);
    r
}

pub fn create_url(ipv6: bool, base: &str) -> (r: String)
    ensures
        r@ == create_url_of(ipv6, base@),
{
    let mut r = String::from_str(endpoint(ipv6));
    r.append("/dns/create/");
    r.append(base);
    r
}

} // verus!
