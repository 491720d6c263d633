//! What holds of every run.
use vstd::prelude::*;

use crate::config::{endpoint_of, record_type_of, KeysView};
use crate::provider::{
    create_url_of, delete_url_of, ping_url_of, retrieve_url_of, NewRecordView, RecordView,
};
use crate::session::{
    next, run, start_of, success_token, ActionView, EventView, Outcome, Phase, SessionView,
};

verus! {

/// Whether `a` is a call that changes the provider's records.
pub open spec fn is_mutation(a: ActionView) -> bool {
    a is Delete || a is Create
}

/// Whether a record that `a` creates holds the address `ip`.
pub open spec fn creates_only_with(a: ActionView, ip: Seq<char>) -> bool {
    a matches ActionView::Create { record, .. } ==> record.content == ip
}

/// Whether `p` begins `s`.
pub open spec fn starts_with(s: Seq<char>, p: Seq<char>) -> bool {
    p.len() <= s.len() && s.subrange(0, p.len() as int) == p
}

/// Whether action `a` goes to the host of the address family `ipv6`, and a
/// record it creates has that family's type.
pub open spec fn in_family(a: ActionView, ipv6: bool) -> bool {
    match a {
        ActionView::Ping { url } => starts_with(url, endpoint_of(ipv6)),
        ActionView::Retrieve { url } => starts_with(url, endpoint_of(ipv6)),
        ActionView::Delete { url } => starts_with(url, endpoint_of(ipv6)),
        ActionView::Create { url, record } => starts_with(url, endpoint_of(ipv6))
            && record.record_type == record_type_of(ipv6),
        ActionView::Finish { .. } => true,
    }
}

/// A run through one reply takes one step.
proof fn run_one(s: SessionView, e: EventView)
    ensures
        run(s, seq![e]).0 == next(s, e).0,
        run(s, seq![e]).1 == seq![next(s, e).1],
{
    let events = seq![e];
    assert(events[0] == e);
    assert(events.drop_first() =~= Seq::<EventView>::empty());
    let t = next(s, e).0;
    assert(run(t, Seq::<EventView>::empty()).1 == Seq::<ActionView>::empty());
    assert(seq![next(s, e).1] + Seq::<ActionView>::empty() =~= seq![next(s, e).1]);
}

/// A run that is over only ever answers that a reply came out of order.
pub proof fn done_stays_done(s: SessionView, events: Seq<EventView>)
    requires
        s.phase == Phase::Done,
    ensures
        run(s, events).0.phase == Phase::Done,
        forall|i: int|
            0 <= i < run(s, events).1.len() ==> run(s, events).1[i] == (ActionView::Finish {
                outcome: Outcome::OutOfOrder,
            }),
    decreases events.len(),
{
    if events.len() > 0 {
        done_stays_done(next(s, events[0]).0, events.drop_first());
    }
}

/// Once the address is known, no step asks for it again or changes it.
proof fn known_address_kept(s: SessionView, events: Seq<EventView>)
    requires
        s.phase != Phase::Discovering,
    ensures
        run(s, events).0.ip == s.ip,
        run(s, events).0.phase != Phase::Discovering,
        forall|i: int| 0 <= i < run(s, events).1.len() ==> !(run(s, events).1[i] is Ping),
        forall|i: int|
            0 <= i < run(s, events).1.len() ==> creates_only_with(run(s, events).1[i], s.ip),
    decreases events.len(),
{
    if events.len() > 0 {
        known_address_kept(next(s, events[0]).0, events.drop_first());
    }
}

/// A configured address is the address of the run: it is never asked of the
/// provider, whatever the replies, and every record created holds it.
pub proof fn configured_address_used(
    keys: KeysView,
    subdomain: Seq<char>,
    base: Seq<char>,
    address: Seq<char>,
    ipv6: bool,
    events: Seq<EventView>,
)
    requires
        address.len() > 0,
    ensures
        ({
            let (s, first) = start_of(keys, subdomain, base, address, ipv6);
            let (t, later) = run(s, events);
            &&& s.ip == address
            &&& t.ip == address
            &&& !(first is Ping)
            &&& forall|i: int| 0 <= i < later.len() ==> !(later[i] is Ping)
            &&& forall|i: int|
                0 <= i < later.len() ==> creates_only_with(later[i], address)
        }),
{
    let s = start_of(keys, subdomain, base, address, ipv6).0;
    known_address_kept(s, events);
}

/// A record that already holds the address ends the run with nothing
/// changed: no delete or create follows, whatever replies come after.
pub proof fn matching_record_is_kept(
    s: SessionView,
    records: Seq<RecordView>,
    later: Seq<EventView>,
)
    requires
        s.phase == Phase::Retrieving,
        records.len() > 0,
        records[0].content == s.ip,
    ensures
        ({
            let events = seq![EventView::Retrieved { lookup_status: success_token(), records }] + later;
            let acts = run(s, events).1;
            &&& acts[0] == (ActionView::Finish { outcome: Outcome::Unchanged })
            &&& forall|i: int| 0 <= i < acts.len() ==> !is_mutation(acts[i])
        }),
{
    let e = EventView::Retrieved { lookup_status: success_token(), records };
    let events = seq![e] + later;
    assert(events[0] == e);
    assert(events.drop_first() =~= later);
    let t = next(s, e).0;
    done_stays_done(t, later);
}

/// A record with another address is deleted by its identifier, and then
/// exactly one record is created with the address and the deleted record's
/// TTL, priority and notes.
pub proof fn outdated_record_replaced(
    s: SessionView,
    records: Seq<RecordView>,
    delete_status: Seq<char>,
)
    requires
        s.phase == Phase::Retrieving,
        records.len() > 0,
        records[0].content != s.ip,
    ensures
        run(
            s,
            seq![
                EventView::Retrieved { lookup_status: success_token(), records },
                EventView::Deleted { status: Some(delete_status) },
            ],
        ).1 == seq![
            ActionView::Delete { url: delete_url_of(s.ipv6, s.base, records[0].id) },
            ActionView::Create {
                url: create_url_of(s.ipv6, s.base),
                record: NewRecordView {
                    secretapikey: s.keys.secret,
                    apikey: s.keys.api,
                    name: s.subdomain,
                    record_type: record_type_of(s.ipv6),
                    content: s.ip,
                    ttl: records[0].ttl,
                    prio: records[0].prio,
                    notes: records[0].notes,
                },
            },
        ],
{
    let e1 = EventView::Retrieved { lookup_status: success_token(), records };
    let e2 = EventView::Deleted { status: Some(delete_status) };
    let events = seq![e1, e2];
    let t = next(s, e1).0;
    assert(events[0] == e1);
    assert(events.drop_first() =~= seq![e2]);
    run_one(t, e2);
    assert(run(s, events).1 =~= seq![next(s, e1).1, next(t, e2).1]);
}

/// With no record of the name and type, no delete is made and exactly one
/// record is created, with the address and no TTL, priority or notes.
pub proof fn missing_record_created(s: SessionView)
    requires
        s.phase == Phase::Retrieving,
    ensures
        run(
            s,
            seq![EventView::Retrieved { lookup_status: success_token(), records: Seq::empty() }],
        ).1 == seq![
            ActionView::Create {
                url: create_url_of(s.ipv6, s.base),
                record: NewRecordView {
                    secretapikey: s.keys.secret,
                    apikey: s.keys.api,
                    name: s.subdomain,
                    record_type: record_type_of(s.ipv6),
                    content: s.ip,
                    ttl: None,
                    prio: None,
                    notes: None,
                },
            },
        ],
{
    let e = EventView::Retrieved { lookup_status: success_token(), records: Seq::empty() };
    run_one(s, e);
}

/// A lookup that does not report success ends the run at once: no delete or
/// create follows, whatever replies come after.
pub proof fn failed_lookup_ends_run(
    s: SessionView,
    status: Seq<char>,
    records: Seq<RecordView>,
    later: Seq<EventView>,
)
    requires
        s.phase == Phase::Retrieving,
        status != success_token(),
    ensures
        ({
            let events = seq![EventView::Retrieved { lookup_status: status, records }] + later;
            let acts = run(s, events).1;
            &&& acts[0] == (ActionView::Finish { outcome: Outcome::RetrieveFailed })
            &&& forall|i: int| 0 <= i < acts.len() ==> !is_mutation(acts[i])
        }),
{
    let e = EventView::Retrieved { lookup_status: status, records };
    let events = seq![e] + later;
    assert(events[0] == e);
    assert(events.drop_first() =~= later);
    done_stays_done(next(s, e).0, later);
}

/// Every URL of the API begins with the host of its address family.
proof fn urls_in_family(ipv6: bool, base: Seq<char>, subdomain: Seq<char>, id: Seq<char>)
    ensures
        starts_with(ping_url_of(ipv6), endpoint_of(ipv6)),
        starts_with(
            retrieve_url_of(ipv6, base, record_type_of(ipv6), subdomain),
            endpoint_of(ipv6),
        ),
        starts_with(delete_url_of(ipv6, base, id), endpoint_of(ipv6)),
        starts_with(create_url_of(ipv6, base), endpoint_of(ipv6)),
{
    let ep = endpoint_of(ipv6);
    let n = ep.len() as int;
    assert(ping_url_of(ipv6).subrange(0, n) =~= ep);
    assert(retrieve_url_of(ipv6, base, record_type_of(ipv6), subdomain).subrange(0, n) =~= ep);
    assert(delete_url_of(ipv6, base, id).subrange(0, n) =~= ep);
    assert(create_url_of(ipv6, base).subrange(0, n) =~= ep);
}

/// One step keeps the address family and acts within it.
proof fn step_in_family(s: SessionView, e: EventView)
    ensures
        next(s, e).0.ipv6 == s.ipv6,
        in_family(next(s, e).1, s.ipv6),
{
    let id = match e {
        EventView::Retrieved { records, .. } => if records.len() > 0 {
            records[0].id
        } else {
            Seq::empty()
        },
        _ => Seq::empty(),
    };
    urls_in_family(s.ipv6, s.base, s.subdomain, id);
}

/// The address family decides every call: with `ipv6` each request goes to
/// the IPv6-capable host and a created record has type `AAAA`; without it
/// each goes to the IPv4-only host and a created record has type `A`. This
/// holds of the first call and of every call after it, whatever the replies.
pub proof fn family_decides_calls(
    keys: KeysView,
    subdomain: Seq<char>,
    base: Seq<char>,
    address: Seq<char>,
    ipv6: bool,
    events: Seq<EventView>,
)
    ensures
        ({
            let (s, first) = start_of(keys, subdomain, base, address, ipv6);
            let later = run(s, events).1;
            &&& in_family(first, ipv6)
            &&& forall|i: int| 0 <= i < later.len() ==> in_family(#[trigger] later[i], ipv6)
        }),
        endpoint_of(true) == crate::config::ENDPOINT@,
        endpoint_of(false) == crate::config::ENDPOINT_IPV4@,
        record_type_of(true) == "AAAA"@,
        record_type_of(false) == "A"@,
{
    let s = start_of(keys, subdomain, base, address, ipv6).0;
    urls_in_family(ipv6, base, subdomain, Seq::empty());
    actions_in_family(s, events);
}

/// Every action of a run is within the family of its first state.
proof fn actions_in_family(s: SessionView, events: Seq<EventView>)
    ensures
        run(s, events).0.ipv6 == s.ipv6,
        forall|i: int|
            0 <= i < run(s, events).1.len() ==> in_family(#[trigger] run(s, events).1[i], s.ipv6),
    decreases events.len(),
{
    if events.len() > 0 {
        step_in_family(s, events[0]);
        actions_in_family(next(s, events[0]).0, events.drop_first());
    }
}

} // verus!
