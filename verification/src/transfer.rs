//! The transfer behaviour's bookkeeping: the connections it knows under a
//! session number, and the queue of what it asks the swarm to do. Peers and
//! connections are carried as values of the caller's types `P` and `C`.

use crate::protocol::{message_bytes, share, shared_bytes, Message, TransferConfig};
use fnv::{FnvHashMap, FnvHasher};
use std::collections::VecDeque;
use std::hash::BuildHasherDefault;
use std::sync::Arc;
use vstd::prelude::*;

verus! {

#[verifier::external_type_specification]
#[verifier::external_body]
pub struct ExFnvHasher(FnvHasher);

#[verifier::external_type_specification]
#[verifier::external_body]
#[verifier::reject_recursive_types(H)]
pub struct ExBuildHasherDefault<H>(BuildHasherDefault<H>);

/// An empty `FnvHashMap`, made with its `Default`. Claimed: it maps nothing.
#[verifier::external_body]
fn fnv_map_new<V>() -> (res: FnvHashMap<usize, V>)
    ensures
        res@.dom().is_empty(),
{
    FnvHashMap::default()
}

/// `HashMap::insert` on an `FnvHashMap`. Claimed: afterwards `k` maps to `v`
/// and every other key as before (FNV hashing is deterministic, so the map
/// behaves as a map).
#[verifier::external_body]
fn fnv_map_insert<V>(m: &mut FnvHashMap<usize, V>, k: usize, v: V)
    ensures
        final(m)@ == old(m)@.insert(k, v),
{
    m.insert(k, v);
}

/// `HashMap::get` on an `FnvHashMap`. Claimed: the value `k` maps to, if any.
#[verifier::external_body]
fn fnv_map_get<V>(m: &FnvHashMap<usize, V>, k: usize) -> (res: Option<&V>)
    ensures
        match res {
            Some(v) => m@.contains_key(k) && *v == m@[k],
            None => !m@.contains_key(k),
        },
{
    m.get(&k)
}

/// The keys of an `FnvHashMap`, in the order `HashMap::keys` yields them.
/// Claimed: each key once, and nothing else; the order is not stated.
#[verifier::external_body]
fn fnv_map_keys<V>(m: &FnvHashMap<usize, V>) -> (res: Vec<usize>)
    ensures
        res@.no_duplicates(),
        res@.to_set() == m@.dom(),
{
    m.keys().copied().collect()
}

/// Which connection of a peer is to handle a message.
#[derive(Debug, PartialEq)]
pub enum NotifyHandler<C> {
    /// Any connection of the peer.
    Any,
    /// This connection.
    One(C),
}

/// What the transfer behaviour reports to its user.
#[derive(Debug, PartialEq)]
pub enum TransferEvent<P, C> {
    /// A payload arrived from a peer on a connection.
    Received(P, C, Arc<[u8]>),
    /// A message was sent.
    Nothing,
}

/// What the transfer behaviour asks the swarm to do.
#[derive(Debug, PartialEq)]
pub enum TransferAction<P, C> {
    /// Hand `event` to a connection handler of `peer_id`.
    Notify { peer_id: P, handler: NotifyHandler<C>, event: Message },
    /// Report `event` to the user.
    Generate(TransferEvent<P, C>),
}

/// What a connection handler reports to the behaviour.
#[derive(Debug, PartialEq)]
pub enum HandlerEvent {
    /// A message arrived from the remote.
    Rx(Message),
    /// A message was sent to the remote.
    Tx,
}

impl From<Message> for HandlerEvent {
    fn from(message: Message) -> (res: Self) {
        HandlerEvent::Rx(message)
    }
}

impl vstd::std_specs::convert::FromSpecImpl<Message> for HandlerEvent {
    open spec fn obeys_from_spec() -> bool {
        true
    }

    open spec fn from_spec(message: Message) -> Self {
        HandlerEvent::Rx(message)
    }
}

impl From<()> for HandlerEvent {
    fn from(unit: ()) -> (res: Self) {
        HandlerEvent::Tx
    }
}

impl vstd::std_specs::convert::FromSpecImpl<()> for HandlerEvent {
    open spec fn obeys_from_spec() -> bool {
        true
    }

    open spec fn from_spec(unit: ()) -> Self {
        HandlerEvent::Tx
    }
}

/// `a` asks to hand a message with payload `bytes` to `peer` through
/// `handler`.
pub open spec fn notifies<P, C>(
    a: TransferAction<P, C>,
    peer: P,
    handler: NotifyHandler<C>,
    bytes: Seq<u8>,
) -> bool {
    a matches TransferAction::Notify { peer_id, handler: h, event } && peer_id == peer && h
        == handler && message_bytes(event) == bytes
}

/// Where a message sent to `session_id` goes, given the session table
/// `peers`: to the recorded peer, to be handled by the recorded connection;
/// nowhere when the number is unknown.
pub open spec fn send_target<P, C>(peers: Map<usize, (P, C)>, session_id: usize) -> Option<
    (P, NotifyHandler<C>),
> {
    if peers.contains_key(session_id) {
        Some((peers[session_id].0, NotifyHandler::One(peers[session_id].1)))
    } else {
        None
    }
}

/// The transfer behaviour's state.
#[verifier::reject_recursive_types(P)]
#[verifier::reject_recursive_types(C)]
pub struct Transfer<P, C> {
    config: TransferConfig,
    peers: FnvHashMap<usize, (P, C)>,
    events: VecDeque<TransferAction<P, C>>,
    cur_id: usize,
}

impl<P: Copy, C: Copy> Transfer<P, C> {
    /// The peer and connection under each session number.
    pub closed spec fn peers(&self) -> Map<usize, (P, C)> {
        self.peers@
    }

    /// The queued actions, oldest first.
    pub closed spec fn events(&self) -> Seq<TransferAction<P, C>> {
        self.events@
    }

    /// The last session number handed out.
    pub closed spec fn cur_id(&self) -> usize {
        self.cur_id
    }

    /// The configuration it was made with.
    pub closed spec fn config(&self) -> TransferConfig {
        self.config
    }

    /// The session table after a connection to `peer` over `con` is
    /// recorded under the next session number.
    pub open spec fn peers_after_connection(&self, peer: P, con: C) -> Map<usize, (P, C)> {
        self.peers().insert((self.cur_id() + 1) as usize, (peer, con))
    }

    /// Session numbers run from 1 to the last one handed out.
    pub closed spec fn well_formed(&self) -> bool {
        forall|id: usize| #[trigger] self.peers@.contains_key(id) ==> 1 <= id <= self.cur_id
    }

    /// A behaviour with `config`, no connections and no queued actions.
    pub fn new(config: TransferConfig) -> (res: Self)
        ensures
            res.well_formed(),
            res.config() == config,
            res.peers() == Map::<usize, (P, C)>::empty(),
            res.events() == Seq::<TransferAction<P, C>>::empty(),
            res.cur_id() == 0,
    {
        let peers = fnv_map_new();
        assert(peers@ =~= Map::<usize, (P, C)>::empty());
        Transfer { config, peers, events: VecDeque::new(), cur_id: 0 }
    }

    /// The last session number handed out.
    pub fn last_session(&self) -> (res: usize)
        ensures
            res == self.cur_id(),
    {
        self.cur_id
    }

    /// The frame size limit the behaviour was made with.
    pub fn config_ref(&self) -> (res: &TransferConfig)
        ensures
            *res == self.config(),
    {
        &self.config
    }

    /// Queues `msg` for every known connection's peer, once per session,
    /// to be handled by any connection of that peer.
    pub fn broadcast(&mut self, msg: Arc<[u8]>)
        requires
            old(self).well_formed(),
        ensures
            final(self).well_formed(),
            final(self).peers() == old(self).peers(),
            final(self).cur_id() == old(self).cur_id(),
            final(self).config() == old(self).config(),
            final(self).events().len() == old(self).events().len() + old(self).peers().len(),
            final(self).events().subrange(0, old(self).events().len() as int) == old(self).events(),
            exists|ks: Seq<usize>|
                {
                    &&& ks.no_duplicates()
                    &&& ks.to_set() == old(self).peers().dom()
                    &&& ks.len() == old(self).peers().len()
                    &&& forall|i: int|
                        0 <= i < ks.len() ==> notifies(
                            #[trigger] final(self).events()[old(self).events().len() + i],
                            old(self).peers()[ks[i]].0,
                            NotifyHandler::Any,
                            shared_bytes(msg),
                        )
                },
    {
        let keys = fnv_map_keys(&self.peers);
        let ghost old_events = self.events@;
        proof {
            keys@.unique_seq_to_set();
        }
        let mut i: usize = 0;
        while i < keys.len()
            invariant
                i <= keys@.len(),
                self.peers@ == old(self).peers@,
                self.cur_id == old(self).cur_id,
                self.config == old(self).config,
                old_events == old(self).events@,
                keys@.no_duplicates(),
                keys@.to_set() == self.peers@.dom(),
                self.events@.len() == old_events.len() + i,
                self.events@.subrange(0, old_events.len() as int) == old_events,
                forall|j: int|
                    0 <= j < i ==> notifies(
                        #[trigger] self.events@[old_events.len() + j],
                        self.peers@[keys@[j]].0,
                        NotifyHandler::Any,
                        shared_bytes(msg),
                    ),
            decreases keys@.len() - i,
        {
            let k = keys[i];
            assert(keys@.to_set().contains(k));
            let entry = fnv_map_get(&self.peers, k);
            let (peer, _) = *entry.unwrap();
            let event = Message::Send(share(&msg));
            let ghost before = self.events@;
            self.events.push_back(TransferAction::Notify { peer_id: peer, handler: NotifyHandler::Any, event });
            proof {
                assert(self.events@.subrange(0, old_events.len() as int) =~= before.subrange(0, old_events.len() as int));
                assert forall|j: int| 0 <= j < i + 1 implies notifies(
                    #[trigger] self.events@[old_events.len() + j],
                    self.peers@[keys@[j]].0,
                    NotifyHandler::Any,
                    shared_bytes(msg),
                ) by {
                    if j < i {
                        assert(self.events@[old_events.len() + j] == before[old_events.len() + j]);
                    }
                }
            }
            i = i + 1;
        }
        proof {
            keys@.unique_seq_to_set();
            assert forall|j: int| 0 <= j < keys@.len() implies notifies(
                #[trigger] self.events@[old_events.len() + j],
                old(self).peers@[keys@[j]].0,
                NotifyHandler::Any,
                shared_bytes(msg),
            ) by {}
        }
    }

    /// Queues `msg` for the connection known under `session_id`, if any.
    pub fn send_to_peer(&mut self, session_id: usize, msg: Arc<[u8]>)
        requires
            old(self).well_formed(),
        ensures
            final(self).well_formed(),
            final(self).peers() == old(self).peers(),
            final(self).cur_id() == old(self).cur_id(),
            final(self).config() == old(self).config(),
            match send_target(old(self).peers(), session_id) {
                Some((peer, handler)) => {
                    &&& final(self).events().len() == old(self).events().len() + 1
                    &&& final(self).events().drop_last() == old(self).events()
                    &&& notifies(final(self).events().last(), peer, handler, shared_bytes(msg))
                },
                None => final(self).events() == old(self).events(),
            },
    {
        match fnv_map_get(&self.peers, session_id) {
            Some(entry) => {
                let (peer, con) = *entry;
                let event = Message::Send(share(&msg));
                self.events.push_back(TransferAction::Notify { peer_id: peer, handler: NotifyHandler::One(con), event });
                assert(self.events@.drop_last() =~= old(self).events@);
            },
            None => {},
        }
    }

    /// Records a new connection to `peer` under the next session number.
    pub fn inject_connection_established(&mut self, peer: P, con: C)
        requires
            old(self).well_formed(),
            old(self).cur_id() < usize::MAX,
        ensures
            final(self).well_formed(),
            final(self).cur_id() == old(self).cur_id() + 1,
            final(self).peers() == old(self).peers_after_connection(peer, con),
            final(self).events() == old(self).events(),
            final(self).config() == old(self).config(),
    {
        self.cur_id = self.cur_id + 1;
        fnv_map_insert(&mut self.peers, self.cur_id, (peer, con));
    }

    /// Queues the user event for a handler's report from `peer` on `con`:
    /// a received message becomes `Received` with its payload, a completed
    /// send becomes `Nothing`.
    pub fn inject_event(&mut self, peer: P, con: C, hevent: HandlerEvent)
        requires
            old(self).well_formed(),
        ensures
            final(self).well_formed(),
            final(self).peers() == old(self).peers(),
            final(self).cur_id() == old(self).cur_id(),
            final(self).config() == old(self).config(),
            final(self).events().len() == old(self).events().len() + 1,
            final(self).events().drop_last() == old(self).events(),
            match hevent {
                HandlerEvent::Rx(m) => final(self).events().last() matches TransferAction::Generate(
                    TransferEvent::Received(p, c, bytes),
                ) && p == peer && c == con && shared_bytes(bytes) == message_bytes(m),
                HandlerEvent::Tx => final(self).events().last() matches TransferAction::Generate(
                    TransferEvent::Nothing,
                ),
            },
    {
        let ev = match hevent {
            HandlerEvent::Rx(Message::Send(msg)) => TransferEvent::Received(peer, con, msg),
            HandlerEvent::Tx => TransferEvent::Nothing,
        };
        self.events.push_back(TransferAction::Generate(ev));
        assert(self.events@.drop_last() =~= old(self).events@);
    }

    /// Takes the oldest queued action, if any.
    pub fn poll(&mut self) -> (res: Option<TransferAction<P, C>>)
        requires
            old(self).well_formed(),
        ensures
            final(self).well_formed(),
            final(self).peers() == old(self).peers(),
            final(self).cur_id() == old(self).cur_id(),
            final(self).config() == old(self).config(),
            if old(self).events().len() > 0 {
                &&& res == Some(old(self).events()[0])
                &&& final(self).events() == old(self).events().drop_first()
            } else {
                &&& res is None
                &&& final(self).events() == old(self).events()
            },
    {
        let r = self.events.pop_front();
        proof {
            if old(self).events@.len() > 0 {
                assert(self.events@ =~= old(self).events@.drop_first());
            }
        }
        r
    }
}

/// A new connection never gets the session number of a known one.
pub proof fn law_session_numbers_fresh<P: Copy, C: Copy>(t: Transfer<P, C>)
    requires
        t.well_formed(),
        t.cur_id() < usize::MAX,
    ensures
        !t.peers().contains_key((t.cur_id() + 1) as usize),
{
}

/// A message sent to the session number a connection was just recorded
/// under is handed to that connection of that peer.
pub proof fn law_send_reaches_recorded_connection<P: Copy, C: Copy>(
    t: Transfer<P, C>,
    peer: P,
    con: C,
)
    requires
        t.cur_id() < usize::MAX,
    ensures
        send_target(t.peers_after_connection(peer, con), (t.cur_id() + 1) as usize) == Some(
            (peer, NotifyHandler::One(con)),
        ),
{
}

/// Recording a connection puts it under the next session number and leaves
/// every other session number as it was.
pub proof fn law_connection_recorded_alone<P: Copy, C: Copy>(t: Transfer<P, C>, peer: P, con: C, k: usize)
    requires
        t.cur_id() < usize::MAX,
    ensures
        t.peers_after_connection(peer, con).contains_key((t.cur_id() + 1) as usize),
        t.peers_after_connection(peer, con)[(t.cur_id() + 1) as usize] == (peer, con),
        k != t.cur_id() + 1 ==> (t.peers_after_connection(peer, con).contains_key(k) <==> t.peers().contains_key(k)),
        k != t.cur_id() + 1 && t.peers().contains_key(k) ==> t.peers_after_connection(peer, con)[k] == t.peers()[k],
{
}

/// A message to a session number goes to the peer and connection recorded
/// under it, and nowhere for an unknown number.
pub proof fn law_send_target_is_recorded_connection<P, C>(peers: Map<usize, (P, C)>, k: usize)
    ensures
        peers.contains_key(k) ==> send_target(peers, k) == Some((peers[k].0, NotifyHandler::One(peers[k].1))),
        !peers.contains_key(k) ==> send_target(peers, k) is None,
{
}

/// Actions are polled in the order they were queued: an action queued
/// behind others comes out after them, and alone it comes out next.
pub proof fn law_queue_fifo<P, C>(q: Seq<TransferAction<P, C>>, a: TransferAction<P, C>)
    ensures
        q.len() > 0 ==> q.push(a)[0] == q[0] && q.push(a).drop_first() == q.drop_first().push(a),
        q.len() == 0 ==> q.push(a)[0] == a && q.push(a).drop_first().len() == 0,
{
    if q.len() > 0 {
        assert(q.push(a).drop_first() =~= q.drop_first().push(a));
    }
}
} // verus!
