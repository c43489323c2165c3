//! Session bookkeeping of the direct TCP network: which sessions are open,
//! which of them were dialled out to a peer address, and what the network
//! loop has to do for each event it receives.

use std::collections::HashMap;
use vstd::std_specs::iter::IteratorSpec;
use vstd::prelude::*;

verus! {

broadcast use vstd::std_specs::hash::group_hash_axioms;

/// An event of the direct network loop. The connections themselves stay with
/// the caller; an event only carries what the bookkeeping decides on.
#[derive(Debug, PartialEq)]
pub enum NetEvent {
    /// A connection was established; `peer_addr` is the dialled address of an
    /// outbound connection and `None` for an inbound one.
    SessionOpen { peer_addr: Option<String> },
    /// The session's streams ended.
    SessionClosed { session_id: u64 },
    /// A frame arrived on a session.
    MessageReceived { session_id: u64, data: Vec<u8> },
    /// A payload is to be sent on one session.
    SendMessage { session_id: u64, data: Vec<u8> },
    /// The listener accepted a connection.
    InboundConnection,
    /// The peer at `addr` should be connected to.
    OutboundConnection { addr: String },
    /// A payload is to be sent to every dialled peer.
    BroadcastMessage { msg: Vec<u8> },
}

/// What the network loop has to do after an event.
#[derive(Debug, PartialEq)]
pub enum NetAction {
    /// Hand the accepted connection back as an inbound `SessionOpen`.
    AcceptInbound,
    /// Dial `addr` (retrying until it succeeds) and report a `SessionOpen`.
    Connect { addr: String },
    /// Pass a received payload on, tagged with the session it came from.
    Forward { session_id: u64, data: Vec<u8> },
    /// Send `data` on the session `session_id`.
    Deliver { session_id: u64, data: Vec<u8> },
    /// Send `msg` on each of the sessions `session_ids`.
    DeliverEach { session_ids: Vec<u64>, msg: Vec<u8> },
    /// Start serving the new session `session_id` over the connection.
    StartSession { session_id: u64, peer_addr: Option<String> },
    /// Stop serving and forget the session `session_id`.
    DropSession { session_id: u64 },
    /// Nothing to do.
    Ignore,
}

/// The session table of the direct network.
pub struct DirectNet {
    session_id: u64,
    sessions: HashMap<u64, Option<String>>,
}

/// The state of a `DirectNet`: the id the next session gets, and the peer
/// address of each open session (`None` for inbound sessions).
#[verifier::ext_equal]
pub struct DirectNetView {
    pub next_session: u64,
    pub sessions: Map<u64, Option<String>>,
}

impl View for DirectNet {
    type V = DirectNetView;

    closed spec fn view(&self) -> DirectNetView {
        DirectNetView { next_session: self.session_id, sessions: self.sessions@ }
    }
}

spec fn seen_at(s: Seq<(&u64, &Option<String>)>, i: int, id: u64) -> bool {
    s[i].1 is Some && *s[i].0 == id
}

spec fn seen_outbound(s: Seq<(&u64, &Option<String>)>, upto: int, id: u64) -> bool {
    exists|i: int| 0 <= i < upto && #[trigger] seen_at(s, i, id)
}

/// Whether some session in `sessions` was dialled out to `addr`.
pub open spec fn is_connected_to(sessions: Map<u64, Option<String>>, addr: Seq<char>) -> bool {
    exists|id: u64| #[trigger]
        sessions.contains_key(id) && sessions[id] is Some && sessions[id]->0@ == addr
}

/// The ids of the sessions in `sessions` that were dialled out.
pub open spec fn outbound_ids(sessions: Map<u64, Option<String>>) -> Set<u64> {
    Set::new(|id: u64| sessions.contains_key(id) && sessions[id] is Some)
}

impl DirectNetView {
    /// Every open session has an id below the next one handed out.
    pub open spec fn well_formed(self) -> bool {
        forall|id: u64| #[trigger] self.sessions.contains_key(id) ==> id < self.next_session
    }

    /// The state after a session to `peer_addr` (`None`: inbound) opens
    /// under the next id.
    pub open spec fn opened(self, peer_addr: Option<String>) -> DirectNetView {
        DirectNetView {
            next_session: (self.next_session + 1) as u64,
            sessions: self.sessions.insert(self.next_session, peer_addr),
        }
    }

    /// The state after the session `session_id` closes.
    pub open spec fn closed(self, session_id: u64) -> DirectNetView {
        DirectNetView { next_session: self.next_session, sessions: self.sessions.remove(session_id) }
    }

    /// Whether a request to connect to `addr` is dialled: only while no open
    /// session was dialled out to it.
    pub open spec fn dials(self, addr: Seq<char>) -> bool {
        !is_connected_to(self.sessions, addr)
    }

    /// The sessions a broadcast goes to: the ones that were dialled out.
    pub open spec fn broadcast_targets(self) -> Set<u64> {
        outbound_ids(self.sessions)
    }
}

impl DirectNet {
    pub open spec fn well_formed(&self) -> bool {
        self@.well_formed()
    }

    /// An empty session table; the first session gets id 0.
    pub fn new() -> (res: Self)
        ensures
            res@.next_session == 0,
            res@.sessions == Map::<u64, Option<String>>::empty(),
            res.well_formed(),
    {
        DirectNet { session_id: 0, sessions: HashMap::new() }
    }

    /// The id the next opened session gets.
    pub fn next_session_id(&self) -> (res: u64)
        ensures
            res == self@.next_session,
    {
        self.session_id
    }

    /// Hands out the next session id.
    fn next_session(&mut self) -> (id: u64)
        requires
            old(self).session_id < u64::MAX,
        ensures
            id == old(self).session_id,
            final(self).session_id == old(self).session_id + 1,
            final(self).sessions == old(self).sessions,
    {
        let current_id = self.session_id;
        self.session_id = self.session_id + 1;
        current_id
    }

    /// Whether an open session was dialled out to `addr`.
    pub fn is_connected(&self, addr: &String) -> (res: bool)
        ensures
            res == is_connected_to(self@.sessions, addr@),
    {
        let mut found = false;
        let ghost s = vstd::std_specs::hash::spec_hash_map_iter(&self.sessions).remaining();
        for entry in it: self.sessions.iter()
            invariant
                it.seq() == s,
                found <==> exists|i: int|
                    0 <= i < it.index() && #[trigger] it.seq()[i].1 is Some
                        && it.seq()[i].1->0@ == addr@,
        {
            let (_, peer) = entry;
            match peer {
                Some(p) => {
                    if *p == *addr {
                        found = true;
                    }
                },
                None => {},
            }
        }
        proof {
            if found {
                let i = choose|i: int| 0 <= i < s.len() && #[trigger] s[i].1 is Some
                    && s[i].1->0@ == addr@;
                assert(self.sessions@.contains_key(*s[i].0));
            }
            if is_connected_to(self@.sessions, addr@) {
                let id = choose|id: u64| #[trigger]
                    self.sessions@.contains_key(id) && self.sessions@[id] is Some
                        && self.sessions@[id]->0@ == addr@;
                assert(s.contains((&id, &self.sessions@[id])));
                let i = choose|i: int| 0 <= i < s.len() && s[i] == (&id, &self.sessions@[id]);
                assert(s[i].1 is Some);
            }
        }
        found
    }

    /// The ids of the open sessions that were dialled out, each once, in the
    /// order the table yields them.
    pub fn outbound_sessions(&self) -> (ids: Vec<u64>)
        ensures
            ids@.no_duplicates(),
            ids@.to_set() == outbound_ids(self@.sessions),
    {
        let mut ids: Vec<u64> = Vec::new();
        let ghost s = vstd::std_specs::hash::spec_hash_map_iter(&self.sessions).remaining();
        for entry in it: self.sessions.iter()
            invariant
                it.seq() == s,
                s.no_duplicates(),
                ids@.no_duplicates(),
                forall|j: int| 0 <= j < ids@.len() ==> seen_outbound(s, it.index(), #[trigger] ids@[j]),
                forall|i: int|
                    0 <= i < it.index() && #[trigger] s[i].1 is Some ==> ids@.contains(*s[i].0),
        {
            let (id, peer) = entry;
            if peer.is_some() {
                proof {
                    let k = it.index();
                    assert(s[k] == (id, peer));
                    if ids@.contains(*id) {
                        let j = choose|j: int| 0 <= j < ids@.len() && ids@[j] == *id;
                        assert(seen_outbound(s, k, ids@[j]));
                        let i = choose|i: int| 0 <= i < k && #[trigger] seen_at(s, i, ids@[j]);
                        assert(self.sessions@[*s[i].0] == *s[i].1);
                        assert(self.sessions@[*s[k].0] == *s[k].1);
                        assert(s[i] == s[k]);
                    }
                }
                let ghost old_ids = ids@;
                ids.push(*id);
                proof {
                    let k = it.index();
                    assert forall|i: int| 0 <= i < k + 1 && #[trigger] s[i].1 is Some implies ids@.contains(*s[i].0) by {
                        if i < k {
                            let j = choose|j: int| 0 <= j < old_ids.len() && old_ids[j] == *s[i].0;
                            assert(ids@[j] == old_ids[j]);
                        } else {
                            assert(ids@[ids@.len() - 1] == *s[i].0);
                        }
                    }
                    assert forall|j: int| 0 <= j < ids@.len() implies seen_outbound(s, k + 1, #[trigger] ids@[j]) by {
                        if j == ids@.len() - 1 {
                            assert(s[k].1 is Some && *s[k].0 == ids@[j]);
                            assert(seen_at(s, k, ids@[j]));
                        } else {
                            assert(ids@[j] == old_ids[j]);
                            assert(seen_outbound(s, k, old_ids[j]));
                            let i = choose|i: int| 0 <= i < k && #[trigger] seen_at(s, i, old_ids[j]);
                            assert(seen_at(s, i, ids@[j]));
                        }
                    }
                }
            }
        }
        proof {
            assert forall|id: u64| ids@.to_set().contains(id) <==> outbound_ids(self@.sessions).contains(id) by {
                if ids@.to_set().contains(id) {
                    let j = choose|j: int| 0 <= j < ids@.len() && ids@[j] == id;
                    assert(seen_outbound(s, s.len() as int, ids@[j]));
                    let i = choose|i: int| 0 <= i < s.len() && #[trigger] seen_at(s, i, ids@[j]);
                    assert(self.sessions@.contains_key(*s[i].0));
                }
                if outbound_ids(self@.sessions).contains(id) {
                    assert(s.contains((&id, &self.sessions@[id])));
                    let i = choose|i: int| 0 <= i < s.len() && s[i] == (&id, &self.sessions@[id]);
                    assert(s[i].1 is Some);
                }
            }
            assert(ids@.to_set() =~= outbound_ids(self@.sessions));
        }
        ids
    }

    /// Decides what the network loop does with `event`, updating the session
    /// table: an opened session gets the next id, a closed one is forgotten,
    /// a dial is only made to an address no session was dialled to, a payload
    /// for one session is only delivered while that session is open, and a
    /// broadcast goes to every dialled session.
    pub fn handle_net_event(&mut self, event: NetEvent) -> (action: NetAction)
        requires
            old(self).well_formed(),
            event is SessionOpen ==> old(self)@.next_session < u64::MAX,
        ensures
            final(self).well_formed(),
            match event {
                NetEvent::SessionOpen { peer_addr } => {
                    &&& final(self)@ == old(self)@.opened(peer_addr)
                    &&& action == NetAction::StartSession {
                        session_id: old(self)@.next_session,
                        peer_addr,
                    }
                },
                NetEvent::SessionClosed { session_id } => {
                    &&& final(self)@ == old(self)@.closed(session_id)
                    &&& action == NetAction::DropSession { session_id }
                },
                NetEvent::MessageReceived { session_id, data } => {
                    &&& final(self)@ == old(self)@
                    &&& action == NetAction::Forward { session_id, data }
                },
                NetEvent::SendMessage { session_id, data } => {
                    &&& final(self)@ == old(self)@
                    &&& action == if old(self)@.sessions.contains_key(session_id) {
                        NetAction::Deliver { session_id, data }
                    } else {
                        NetAction::Ignore
                    }
                },
                NetEvent::InboundConnection => {
                    &&& final(self)@ == old(self)@
                    &&& action == NetAction::AcceptInbound
                },
                NetEvent::OutboundConnection { addr } => {
                    &&& final(self)@ == old(self)@
                    &&& action == if old(self)@.dials(addr@) {
                        NetAction::Connect { addr }
                    } else {
                        NetAction::Ignore
                    }
                },
                NetEvent::BroadcastMessage { msg } => {
                    &&& final(self)@ == old(self)@
                    &&& action matches NetAction::DeliverEach { session_ids, msg: m }
                    &&& m == msg
                    &&& session_ids@.no_duplicates()
                    &&& session_ids@.to_set() == old(self)@.broadcast_targets()
                },
            },
    {
        match event {
            NetEvent::InboundConnection => NetAction::AcceptInbound,
            NetEvent::OutboundConnection { addr } => {
                if self.is_connected(&addr) {
                    NetAction::Ignore
                } else {
                    NetAction::Connect { addr }
                }
            },
            NetEvent::MessageReceived { session_id, data } => NetAction::Forward { session_id, data },
            NetEvent::SendMessage { session_id, data } => {
                if self.sessions.contains_key(&session_id) {
                    NetAction::Deliver { session_id, data }
                } else {
                    NetAction::Ignore
                }
            },
            NetEvent::BroadcastMessage { msg } => {
                let session_ids = self.outbound_sessions();
                NetAction::DeliverEach { session_ids, msg }
            },
            NetEvent::SessionOpen { peer_addr } => {
                let session_id = self.next_session();
                let stored = match &peer_addr {
                    Some(a) => Some(a.clone()),
                    None => None,
                };
                self.sessions.insert(session_id, stored);
                assert(self.sessions@ == old(self)@.sessions.insert(session_id, peer_addr));
                assert(self.well_formed());
                NetAction::StartSession { session_id, peer_addr }
            },
            NetEvent::SessionClosed { session_id } => {
                self.sessions.remove(&session_id);
                assert(self.sessions@ == old(self)@.sessions.remove(session_id));
                assert(self.well_formed());
                NetAction::DropSession { session_id }
            },
        }
    }
}


/// What a session's reader does after one attempt to read a frame.
#[derive(Debug, PartialEq)]
pub enum InflowStep {
    /// The length prefix could not be read: the session's reading ends.
    Stop,
    /// Read the next frame, after reporting `event` if there is one.
    Continue(Option<NetEvent>),
}

/// The reader's decision for session `session_id`: it stops when the length
/// prefix could not be read (`prefix_read` false), passes a body it read on
/// as a `MessageReceived` of the session, and reads on without a report
/// when the body could not be read (`body` is `None`).
pub fn inflow_step(session_id: u64, prefix_read: bool, body: Option<Vec<u8>>) -> (res: InflowStep)
    ensures
        !prefix_read ==> res == InflowStep::Stop,
        prefix_read ==> res == InflowStep::Continue(
            match body {
                Some(data) => Some(NetEvent::MessageReceived { session_id, data }),
                None => None,
            },
        ),
{
    if !prefix_read {
        InflowStep::Stop
    } else {
        match body {
            Some(data) => InflowStep::Continue(Some(NetEvent::MessageReceived { session_id, data })),
            None => InflowStep::Continue(None),
        }
    }
}

/// A new session never gets the id of a session that is still open.
pub proof fn law_session_ids_fresh(v: DirectNetView)
    requires
        v.well_formed(),
    ensures
        !v.sessions.contains_key(v.next_session),
{
}

/// Closing the session that was opened last gives back the session table as
/// it was before the opening; only the id counter has moved on.
pub proof fn law_open_then_close(v: DirectNetView, peer_addr: Option<String>)
    requires
        v.well_formed(),
    ensures
        v.opened(peer_addr).closed(v.next_session).sessions == v.sessions,
{
    assert(v.sessions.insert(v.next_session, peer_addr).remove(v.next_session) =~= v.sessions);
}

/// Once a session dialled out to `addr` is open, a further request to
/// connect to `addr` is not dialled, and broadcasts reach that session.
pub proof fn law_dialled_session_connected(v: DirectNetView, addr: String)
    ensures
        !v.opened(Some(addr)).dials(addr@),
        v.opened(Some(addr)).broadcast_targets().contains(v.next_session),
{
    let m = v.opened(Some(addr)).sessions;
    assert(m.contains_key(v.next_session) && m[v.next_session] is Some && m[v.next_session]->0@ == addr@);
}

/// An inbound session never receives broadcasts, and closing a session
/// takes it out of every later broadcast.
pub proof fn law_broadcast_targets(v: DirectNetView, session_id: u64)
    ensures
        !v.opened(None).broadcast_targets().contains(v.next_session),
        !v.closed(session_id).broadcast_targets().contains(session_id),
{
}

/// Closing a session forgets exactly that session: every other session stays
/// open with the peer address it had, and the id counter does not move.
pub proof fn law_close_forgets_only_that_session(v: DirectNetView, s: u64, t: u64)
    ensures
        !v.closed(s).sessions.contains_key(s),
        v.closed(s).next_session == v.next_session,
        s != t ==> (v.closed(s).sessions.contains_key(t) <==> v.sessions.contains_key(t)),
        s != t && v.sessions.contains_key(t) ==> v.closed(s).sessions[t] == v.sessions[t],
{
}

/// Opening a session adds exactly that session under the next id, with its
/// peer address, and leaves every open session as it was.
pub proof fn law_open_adds_only_that_session(v: DirectNetView, peer_addr: Option<String>, t: u64)
    requires
        v.next_session < u64::MAX,
    ensures
        v.opened(peer_addr).next_session == v.next_session + 1,
        v.opened(peer_addr).sessions.contains_key(v.next_session),
        v.opened(peer_addr).sessions[v.next_session] == peer_addr,
        t != v.next_session ==> (v.opened(peer_addr).sessions.contains_key(t) <==> v.sessions.contains_key(t)),
        t != v.next_session && v.sessions.contains_key(t) ==> v.opened(peer_addr).sessions[t] == v.sessions[t],
{
}

/// A request to connect to `addr` is skipped exactly when an open session
/// was dialled out to that very address: with no open session holding
/// `Some` of a text equal to `addr`, it is dialled.
pub proof fn law_dial_skipped_only_for_same_address(v: DirectNetView, addr: Seq<char>)
    ensures
        (forall|id: u64| #[trigger] v.sessions.contains_key(id) && v.sessions[id] is Some ==> v.sessions[id]->0@ != addr)
            ==> v.dials(addr),
        (exists|id: u64| #[trigger] v.sessions.contains_key(id) && v.sessions[id] is Some && v.sessions[id]->0@ == addr)
            ==> !v.dials(addr),
{
}

/// A broadcast reaches exactly the open sessions that were dialled out.
pub proof fn law_broadcast_reaches_dialled_sessions(v: DirectNetView, id: u64)
    ensures
        v.broadcast_targets().contains(id) <==> (v.sessions.contains_key(id) && v.sessions[id] is Some),
{
}

} // verus!
