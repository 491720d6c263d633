//! One run of the client as a state machine: each reply of the provider is
//! an event, and each step says which call to make next or how the run ends.
use vstd::prelude::*;

use crate::config::{record_type, record_type_of, Domain, Ip, Keys, KeysView};
use crate::provider::{
    clone_opt, create_url, create_url_of, delete_url, delete_url_of, ping_url, ping_url_of,
    retrieve_url, retrieve_url_of, NewRecord, NewRecordView, Record, RecordView,
};

verus! {

/// The reply that a run is waiting for.
#[derive(Clone, Copy, Debug, PartialEq, Eq, Structural)]
pub enum Phase {
    /// The public address was asked for.
    Discovering,
    /// The records of the name and type were asked for.
    Retrieving,
    /// The outdated record is being deleted.
    Deleting,
    /// The new record is being created.
    Creating,
    /// The run is over.
    Done,
}

/// How a run ended.
#[derive(Clone, Copy, Debug, PartialEq, Eq, Structural)]
pub enum Outcome {
    /// The record already held the address: nothing was changed.
    Unchanged,
    /// The record was created with the address.
    Created,
    /// The create call did not report success.
    CreateFailed,
    /// The discovery reply held no address.
    NoAddress,
    /// The record lookup did not report success.
    RetrieveFailed,
    /// The delete reply held no status.
    DeleteFailed,
    /// A call failed in transport or its reply could not be decoded.
    TransportFailed,
    /// A reply came that the run was not waiting for.
    OutOfOrder,
}

impl Outcome {
    /// Whether the run reached its goal: the record now holds the address.
    pub fn is_success(&self) -> (r: bool)
        ensures
            r == (*self == Outcome::Unchanged || *self == Outcome::Created),
    {
        match self {
            Outcome::Unchanged | Outcome::Created => true,
            _ => false,
        }
    }
}

/// A reply of the provider, decoded.
#[derive(Debug, PartialEq, Eq)]
pub enum Event {
    /// The discovery reply, with its `yourIp` field when that is a string.
    Pinged { your_ip: Option<String> },
    /// The lookup reply: its status and the records it lists.
    Retrieved { lookup_status: String, records: Vec<Record> },
    /// The delete reply, with its `status` field when that is a string.
    Deleted { status: Option<String> },
    /// The create reply, with its `status` field when that is a string.
    Created { status: Option<String> },
    /// The call failed, or its reply was not what the API sends.
    Failed,
}

pub enum EventView {
    Pinged { your_ip: Option<Seq<char>> },
    Retrieved { lookup_status: Seq<char>, records: Seq<RecordView> },
    Deleted { status: Option<Seq<char>> },
    Created { status: Option<Seq<char>> },
    Failed,
}

impl View for Event {
    type V = EventView;

    open spec fn view(&self) -> EventView {
        match self {
            Event::Pinged { your_ip } => EventView::Pinged { your_ip: your_ip.deep_view() },
            Event::Retrieved { lookup_status, records } => EventView::Retrieved {
                lookup_status: lookup_status@,
                records: records@.map_values(|r: Record| r@),
            },
            Event::Deleted { status } => EventView::Deleted { status: status.deep_view() },
            Event::Created { status } => EventView::Created { status: status.deep_view() },
            Event::Failed => EventView::Failed,
        }
    }
}

/// The next thing to do: a call to make (the credentials go with each), or
/// the end of the run.
#[derive(Debug, PartialEq, Eq)]
pub enum Action {
    Ping { url: String },
    Retrieve { url: String },
    Delete { url: String },
    Create { url: String, record: NewRecord },
    Finish { outcome: Outcome },
}

pub enum ActionView {
    Ping { url: Seq<char> },
    Retrieve { url: Seq<char> },
    Delete { url: Seq<char> },
    Create { url: Seq<char>, record: NewRecordView },
    Finish { outcome: Outcome },
}

impl View for Action {
    type V = ActionView;

    open spec fn view(&self) -> ActionView {
        match self {
            Action::Ping { url } => ActionView::Ping { url: url@ },
            Action::Retrieve { url } => ActionView::Retrieve { url: url@ },
            Action::Delete { url } => ActionView::Delete { url: url@ },
            Action::Create { url, record } => ActionView::Create { url: url@, record: record@ },
            Action::Finish { outcome } => ActionView::Finish { outcome: *outcome },
        }
    }
}

/// The state of a run: what it was configured with, the address it
/// settled on, the optional fields kept from a deleted record, and the reply
/// it waits for.
#[derive(Debug, PartialEq, Eq)]
pub struct Session {
    pub keys: Keys,
    pub subdomain: String,
    pub base: String,
    pub ipv6: bool,
    pub ip: String,
    pub ttl: Option<String>,
    pub prio: Option<String>,
    pub notes: Option<String>,
    pub phase: Phase,
}

pub struct SessionView {
    pub keys: KeysView,
    pub subdomain: Seq<char>,
    pub base: Seq<char>,
    pub ipv6: bool,
    pub ip: Seq<char>,
    pub ttl: Option<Seq<char>>,
    pub prio: Option<Seq<char>>,
    pub notes: Option<Seq<char>>,
    pub phase: Phase,
}

impl View for Session {
    type V = SessionView;

    open spec fn view(&self) -> SessionView {
        SessionView {
            keys: self.keys@,
            subdomain: self.subdomain@,
            base: self.base@,
            ipv6: self.ipv6,
            ip: self.ip@,
            ttl: self.ttl.deep_view(),
            prio: self.prio.deep_view(),
            notes: self.notes.deep_view(),
            phase: self.phase,
        }
    }
}

/// The status token of a successful call.
pub open spec fn success_token() -> Seq<char> {
    "SUCCESS"@
}

/// The record lookup of a session that knows its address.
pub open spec fn retrieve_action(s: SessionView) -> ActionView {
    ActionView::Retrieve {
        url: retrieve_url_of(s.ipv6, s.base, crate::config::record_type_of(s.ipv6), s.subdomain),
    }
}

/// The create call of a session: its address, the subdomain as name, and the
/// optional fields it carries.
pub open spec fn create_action(s: SessionView) -> ActionView {
    ActionView::Create {
        url: create_url_of(s.ipv6, s.base),
        record: NewRecordView {
            secretapikey: s.keys.secret,
            apikey: s.keys.api,
            name: s.subdomain,
            record_type: record_type_of(s.ipv6),
            content: s.ip,
            ttl: s.ttl,
            prio: s.prio,
            notes: s.notes,
        },
    }
}

/// Ends the run with `outcome`.
pub open spec fn finish(s: SessionView, outcome: Outcome) -> (SessionView, ActionView) {
    (SessionView { phase: Phase::Done, ..s }, ActionView::Finish { outcome })
}

/// The first step of a run. A configured address is used as it is and the
/// lookup comes first; an empty one is asked of the provider.
pub open spec fn start_of(
    keys: KeysView,
    subdomain: Seq<char>,
    base: Seq<char>,
    address: Seq<char>,
    ipv6: bool,
) -> (SessionView, ActionView) {
    let s = SessionView {
        keys,
        subdomain,
        base,
        ipv6,
        ip: address,
        ttl: None,
        prio: None,
        notes: None,
        phase: if address.len() == 0 { Phase::Discovering } else { Phase::Retrieving },
    };
    if address.len() == 0 {
        (s, ActionView::Ping { url: ping_url_of(ipv6) })
    } else {
        (s, retrieve_action(s))
    }
}

/// One step of a run: the state and the call that follow a reply.
pub open spec fn next(s: SessionView, e: EventView) -> (SessionView, ActionView) {
    match (s.phase, e) {
        (Phase::Done, _) => finish(s, Outcome::OutOfOrder),
        (_, EventView::Failed) => finish(s, Outcome::TransportFailed),
        (Phase::Discovering, EventView::Pinged { your_ip }) => match your_ip {
            Some(ip) => {
                let t = SessionView { ip, phase: Phase::Retrieving, ..s };
                (t, retrieve_action(t))
            },
            None => finish(s, Outcome::NoAddress),
        },
        (Phase::Retrieving, EventView::Retrieved { lookup_status, records }) => {
            if lookup_status != success_token() {
                finish(s, Outcome::RetrieveFailed)
            } else if records.len() == 0 {
                let t = SessionView {
                    ttl: None,
                    prio: None,
                    notes: None,
                    phase: Phase::Creating,
                    ..s
                };
                (t, create_action(t))
            } else if records[0].content == s.ip {
                finish(s, Outcome::Unchanged)
            } else {
                let t = SessionView {
                    ttl: records[0].ttl,
                    prio: records[0].prio,
                    notes: records[0].notes,
                    phase: Phase::Deleting,
                    ..s
                };
                (t, ActionView::Delete { url: delete_url_of(s.ipv6, s.base, records[0].id) })
            }
        },
        (Phase::Deleting, EventView::Deleted { status }) => match status {
            Some(_) => {
                let t = SessionView { phase: Phase::Creating, ..s };
                (t, create_action(t))
            },
            None => finish(s, Outcome::DeleteFailed),
        },
        (Phase::Creating, EventView::Created { status }) => {
            if status == Some(success_token()) {
                finish(s, Outcome::Created)
            } else {
                finish(s, Outcome::CreateFailed)
            }
        },
        _ => finish(s, Outcome::OutOfOrder),
    }
}

/// A run from state `s` through the replies `events`: the final state and the
/// action taken after each reply.
pub open spec fn run(s: SessionView, events: Seq<EventView>) -> (SessionView, Seq<ActionView>)
    decreases events.len(),
{
    if events.len() == 0 {
        (s, Seq::empty())
    } else {
        let (t, a) = next(s, events[0]);
        let (u, rest) = run(t, events.drop_first());
        (u, seq![a] + rest)
    }
}

impl Session {
    /// Starts a run from the domain and address settings and the resolved
    /// credentials, and gives its first call.
    pub fn start(keys: Keys, domain: Domain, ip: Ip) -> (r: (Session, Action))
        ensures
            (r.0@, r.1@) == start_of(
                keys@,
                domain.subdomain@,
                domain.base@,
                ip.address@,
                ip.ipv6,
            ),
    {
        let Domain { subdomain, base } = domain;
        let Ip { address, ipv6 } = ip;
        let discover = address.as_str().is_empty();
        let s = Session {
            keys,
            subdomain,
            base,
            ipv6,
            ip: address,
            ttl: None,
            prio: None,
            notes: None,
            phase: if discover { Phase::Discovering } else { Phase::Retrieving },
        };
        if discover {
            (s, Action::Ping { url: ping_url(ipv6) })
        } else {
            let a = s.retrieve();
            (s, a)
        }
    }

    fn retrieve(&self) -> (a: Action)
        ensures
            a@ == retrieve_action(self@),
    {
        let rtype = record_type(self.ipv6);
        Action::Retrieve {
            url: retrieve_url(self.ipv6, self.base.as_str(), rtype.as_str(), self.subdomain.as_str()),
        }
    }

    fn create(&self) -> (a: Action)
        ensures
            a@ == create_action(self@),
    {
        Action::Create {
            url: create_url(self.ipv6, self.base.as_str()),
            record: NewRecord {
                secretapikey: self.keys.secretapikey.clone(),
                apikey: self.keys.apikey.clone(),
                name: self.subdomain.clone(),
                record_type: record_type(self.ipv6),
                content: self.ip.clone(),
                ttl: clone_opt(&self.ttl),
                prio: clone_opt(&self.prio),
                notes: clone_opt(&self.notes),
            },
        }
    }

    fn finish(&mut self, outcome: Outcome) -> (a: Action)
        ensures
            (final(self)@, a@) == finish(old(self)@, outcome),
    {
        self.phase = Phase::Done;
        Action::Finish { outcome }
    }

    /// Takes the reply to the last call and gives the next one.
    pub fn step(&mut self, event: Event) -> (a: Action)
        ensures
            (final(self)@, a@) == next(old(self)@, event@),
    {
        if self.phase == Phase::Done {
            return self.finish(Outcome::OutOfOrder);
        }
        match event {
            Event::Failed => self.finish(Outcome::TransportFailed),
            Event::Pinged { your_ip } => {
                if self.phase != Phase::Discovering {
                    return self.finish(Outcome::OutOfOrder);
                }
                match your_ip {
                    Some(ip) => {
                        self.ip = ip;
                        self.phase = Phase::Retrieving;
                        self.retrieve()
                    },
                    None => self.finish(Outcome::NoAddress),
                }
            },
            Event::Retrieved { lookup_status, records } => {
                if self.phase != Phase::Retrieving {
                    return self.finish(Outcome::OutOfOrder);
                }
                let ok = String::from_str("SUCCESS");
                if lookup_status != ok {
                    return self.finish(Outcome::RetrieveFailed);
                }
                if records.len() == 0 {
                    self.ttl = None;
                    self.prio = None;
                    self.notes = None;
                    self.phase = Phase::Creating;
                    return self.create();
                }
                let first = &records[0];
                assert(event@->records[0] == first@);
                if first.content == self.ip {
                    return self.finish(Outcome::Unchanged);
                }
                let url = delete_url(self.ipv6, self.base.as_str(), first.id.as_str());
                self.ttl = clone_opt(&first.ttl);
                self.prio = clone_opt(&first.prio);
                self.notes = clone_opt(&first.notes);
                self.phase = Phase::Deleting;
                Action::Delete { url }
            },
            Event::Deleted { status } => {
                if self.phase != Phase::Deleting {
                    return self.finish(Outcome::OutOfOrder);
                }
                match status {
                    Some(_) => {
                        self.phase = Phase::Creating;
                        self.create()
                    },
                    None => self.finish(Outcome::DeleteFailed),
                }
            },
            Event::Created { status } => {
                if self.phase != Phase::Creating {
                    return self.finish(Outcome::OutOfOrder);
                }
                let ok = String::from_str("SUCCESS");
                let created = match status {
                    Some(st) => st == ok,
                    None => false,
                };
                if created {
                    self.finish(Outcome::Created)
                } else {
                    self.finish(Outcome::CreateFailed)
                }
            },
        }
    }
}

} // verus!
