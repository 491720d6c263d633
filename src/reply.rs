//! Reading the small JSON replies of the provider: the discovery, delete and
//! create calls are judged by one string member each.
use vstd::prelude::*;

use crate::session::{Event, EventView};

verus! {

/// What serde_json finds in `text` under the top-level member `key`: `None`
/// when `text` is not JSON, `Some(None)` when the member is absent or not a
/// string, `Some(Some(s))` when it is the string `s`.
pub uninterp spec fn json_str_member(text: Seq<char>, key: Seq<char>) -> Option<Option<Seq<char>>>;

/// Relies on `serde_json::from_str` into a `serde_json::Value`, then
/// `Value::get` and `Value::as_str`, to read one string member of a reply.
#[verifier::external_body]
fn str_member(text: &str, key: &str) -> (r: Option<Option<String>>)
    ensures
        r.deep_view() == json_str_member(text@, key@),
{
    match serde_json::from_str::<serde_json::Value>(text) {
        Ok(v) => Some(v.get(key).and_then(serde_json::Value::as_str).map(String::from)),
        Err(_) => None,
    }
}

/// The calls whose replies are read by one member.
#[derive(Clone, Copy, Debug, PartialEq, Eq, Structural)]
pub enum ReplyKind {
    Ping,
    Delete,
    Create,
}

/// The member that decides a reply: the address of a discovery reply, the
/// status of the others.
pub open spec fn member_key(kind: ReplyKind) -> Seq<char> {
    match kind {
        ReplyKind::Ping => "yourIp"@,
        _ => "status"@,
    }
}

/// The event for a reply whose deciding member was read as `member`; a reply
/// that is not JSON is a failed call.
pub open spec fn event_of_member(kind: ReplyKind, member: Option<Option<Seq<char>>>) -> EventView {
    match member {
        None => EventView::Failed,
        Some(m) => match kind {
            ReplyKind::Ping => EventView::Pinged { your_ip: m },
            ReplyKind::Delete => EventView::Deleted { status: m },
            ReplyKind::Create => EventView::Created { status: m },
        },
    }
}

/// Builds the event of a reply from its deciding member.
pub fn event_from_member(kind: ReplyKind, member: Option<Option<String>>) -> (e: Event)
    ensures
        e@ == event_of_member(kind, member.deep_view()),
{
    match member {
        None => Event::Failed,
        Some(m) => match kind {
            ReplyKind::Ping => Event::Pinged { your_ip: m },
            ReplyKind::Delete => Event::Deleted { status: m },
            ReplyKind::Create => Event::Created { status: m },
        },
    }
}

/// Decodes the body of a discovery, delete or create reply into an event.
pub fn reply_event(kind: ReplyKind, body: &str) -> (e: Event)
    ensures
        e@ == event_of_member(kind, json_str_member(body@, member_key(kind))),
{
    let key = match kind {
        ReplyKind::Ping => "yourIp",
        _ => "status",
    };
    let member = str_member(body, key);
    event_from_member(kind, member)
}

} // verus!
