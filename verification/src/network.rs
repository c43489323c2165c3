//! Connection bookkeeping of the common TCP network: the ids of the open
//! connections, and what the network loop has to do for each accepted
//! connection, command and write failure.

use crate::controller::ControlInfoMsg;
use crate::btree_order::{lemma_ids_ordered, lemma_increasing_ids};
use crate::seq_facts::lemma_push_to_set;
use std::collections::BTreeSet;
use vstd::std_specs::iter::IteratorSpec;
use vstd::prelude::*;

verus! {

/// Identifies one connection of the network.
pub type SessionID = u64;

/// A command to the network loop. A peer-count request carries no reply
/// channel here: the caller answers it with `NetworkOutput::PeerCount`.
#[derive(Debug, PartialEq)]
pub enum CommomNetMsg {
    /// Send a payload on one connection, or on every connection when the id
    /// is 0.
    SendMessage(SessionID, Vec<u8>),
    /// Dial the given address.
    ToConnect(String),
    /// Close the given connection.
    ToDisConnect(SessionID),
    /// Report the number of open connections.
    GetPeerCount,
}

/// Something that happened to the network loop.
#[derive(Debug, PartialEq)]
pub enum NetworkInput {
    /// The listener accepted a connection.
    Accepted,
    /// A command arrived.
    Command(CommomNetMsg),
    /// Dialling the address succeeded.
    Dialled(String),
    /// Writing to these connections failed.
    WriteFailed(Vec<SessionID>),
}

/// What the network loop has to do next.
#[derive(Debug, PartialEq)]
pub enum NetworkOutput {
    /// Serve the new connection `session_id` and tell the controller `notice`.
    StartReader { session_id: SessionID, notice: ControlInfoMsg },
    /// Write `data` to each of `session_ids`, in that order.
    Write { session_ids: Vec<SessionID>, data: Vec<u8> },
    /// Dial `url`.
    Dial { url: String },
    /// Stop the readers of `session_ids`.
    Terminate { session_ids: Vec<SessionID> },
    /// Answer a peer-count request.
    PeerCount(u64),
    /// Nothing to do.
    Nothing,
}

broadcast use vstd::std_specs::btree::group_btree_axioms;

/// The connection table of the common network.
pub struct CommonNetwork {
    session_id: SessionID,
    cons: BTreeSet<SessionID>,
}

/// The state of a `CommonNetwork`: the id the next connection gets, and the
/// ids of the open connections.
pub struct CommonNetworkView {
    pub next_session: SessionID,
    pub sessions: Set<SessionID>,
}

impl View for CommonNetwork {
    type V = CommonNetworkView;

    closed spec fn view(&self) -> CommonNetworkView {
        CommonNetworkView { next_session: self.session_id, sessions: self.cons@ }
    }
}

/// `s` lists the ids of `set` in increasing order, each once.
pub open spec fn in_increasing_order(s: Seq<SessionID>, set: Set<SessionID>) -> bool {
    &&& s.to_set() == set
    &&& forall|i: int, j: int| 0 <= i < j < s.len() ==> s[i] < s[j]
}

impl CommonNetworkView {
    /// Connection ids run from 1 to below the next one; id 0 addresses all.
    pub open spec fn well_formed(self) -> bool {
        &&& self.next_session >= 1
        &&& forall|id: SessionID| #[trigger] self.sessions.contains(id) ==> 1 <= id < self.next_session
    }

    /// `targets` are the connections a `SendMessage(sid, _)` is written to:
    /// all of them in increasing id order for id 0, else the one with that
    /// id if it is open.
    pub open spec fn sends_to(self, sid: SessionID, targets: Seq<SessionID>) -> bool {
        if sid == 0 {
            in_increasing_order(targets, self.sessions)
        } else if self.sessions.contains(sid) {
            targets == seq![sid]
        } else {
            targets.len() == 0
        }
    }
}

impl CommonNetwork {
    pub open spec fn well_formed(&self) -> bool {
        self@.well_formed()
    }

    /// An empty connection table; the first connection gets id 1, as id 0
    /// addresses every connection.
    pub fn new() -> (res: Self)
        ensures
            res@.next_session == 1,
            res@.sessions == Set::<SessionID>::empty(),
            res.well_formed(),
    {
        CommonNetwork { session_id: 1, cons: BTreeSet::new() }
    }

    /// The id the next connection gets.
    pub fn next_session_id(&self) -> (res: SessionID)
        ensures
            res == self@.next_session,
    {
        self.session_id
    }

    /// The number of open connections.
    pub fn peer_count(&self) -> (res: u64)
        ensures
            res == self@.sessions.len(),
    {
        self.cons.len() as u64
    }

    /// Records a new connection under the next id.
    fn open_session(&mut self) -> (id: SessionID)
        requires
            old(self).well_formed(),
            old(self)@.next_session < u64::MAX,
        ensures
            id == old(self)@.next_session,
            final(self)@.next_session == old(self)@.next_session + 1,
            final(self)@.sessions == old(self)@.sessions.insert(id),
            final(self).well_formed(),
    {
        let id = self.session_id;
        proof {
            lemma_ids_ordered();
        }
        self.cons.insert(id);
        self.session_id = self.session_id + 1;
        assert(self.cons@ == old(self).cons@.insert(id));
        assert forall|x: SessionID| #[trigger] self.cons@.contains(x) implies 1 <= x < self.session_id by {
            if x != id {
                assert(old(self).cons@.contains(x));
                assert(old(self)@.sessions.contains(x));
            }
        }
        id
    }

    /// The connections that `SendMessage(sid, _)` is written to.
    pub fn send_targets(&self, sid: SessionID) -> (res: Vec<SessionID>)
        ensures
            self@.sends_to(sid, res@),
    {
        proof {
            lemma_ids_ordered();
        }
        if sid == 0 {
            let mut res: Vec<SessionID> = Vec::new();
            let ghost s = vstd::std_specs::btree::spec_btree_keys_iter(&self.cons).remaining();
            for id in it: self.cons.iter()
                invariant
                    it.seq() == s,
                    s.unref().to_set() == self.cons@,
                    vstd::std_specs::btree::increasing_seq(s),
                    res@.len() == it.index(),
                    forall|j: int| 0 <= j < it.index() ==> res@[j] == *#[trigger] s[j],
            {
                res.push(*id);
            }
            proof {
                lemma_increasing_ids(s);
                assert(res@ =~= s.unref());
            }
            res
        } else if self.cons.contains(&sid) {
            let mut res: Vec<SessionID> = Vec::new();
            res.push(sid);
            assert(res@ =~= seq![sid]);
            res
        } else {
            Vec::new()
        }
    }

    /// Decides what the network loop does next. A new connection, accepted
    /// or dialled, gets the next id and is announced to the controller with
    /// its address (empty when accepted); a payload goes to the addressed
    /// connection if it is open, or to all of them in increasing id order
    /// for id 0; connections whose writes failed, or that are asked to
    /// close, are forgotten and their readers stopped.
    pub fn handle(&mut self, input: NetworkInput) -> (output: NetworkOutput)
        requires
            old(self).well_formed(),
            input is Accepted || input is Dialled ==> old(self)@.next_session < u64::MAX,
        ensures
            final(self).well_formed(),
            match input {
                NetworkInput::Accepted => {
                    &&& final(self)@.next_session == old(self)@.next_session + 1
                    &&& final(self)@.sessions == old(self)@.sessions.insert(old(self)@.next_session)
                    &&& output matches NetworkOutput::StartReader { session_id, notice }
                    &&& session_id == old(self)@.next_session
                    &&& notice matches ControlInfoMsg::Connected(id, url)
                    &&& id == session_id
                    &&& url@ == Seq::<char>::empty()
                },
                NetworkInput::Dialled(url) => {
                    &&& final(self)@.next_session == old(self)@.next_session + 1
                    &&& final(self)@.sessions == old(self)@.sessions.insert(old(self)@.next_session)
                    &&& output == NetworkOutput::StartReader {
                        session_id: old(self)@.next_session,
                        notice: ControlInfoMsg::Connected(old(self)@.next_session, url),
                    }
                },
                NetworkInput::Command(CommomNetMsg::SendMessage(sid, data)) => {
                    &&& final(self)@ == old(self)@
                    &&& output matches NetworkOutput::Write { session_ids, data: d }
                    &&& old(self)@.sends_to(sid, session_ids@)
                    &&& d == data
                },
                NetworkInput::Command(CommomNetMsg::ToConnect(url)) => {
                    &&& final(self)@ == old(self)@
                    &&& output == NetworkOutput::Dial { url }
                },
                NetworkInput::Command(CommomNetMsg::ToDisConnect(sid)) => {
                    &&& final(self)@.next_session == old(self)@.next_session
                    &&& final(self)@.sessions == old(self)@.sessions.remove(sid)
                    &&& if old(self)@.sessions.contains(sid) {
                        output matches NetworkOutput::Terminate { session_ids }
                            && session_ids@ == seq![sid]
                    } else {
                        output is Nothing
                    }
                },
                NetworkInput::Command(CommomNetMsg::GetPeerCount) => {
                    &&& final(self)@ == old(self)@
                    &&& output == NetworkOutput::PeerCount(old(self)@.sessions.len() as u64)
                },
                NetworkInput::WriteFailed(ids) => {
                    &&& final(self)@.next_session == old(self)@.next_session
                    &&& final(self)@.sessions == old(self)@.sessions.difference(ids@.to_set())
                    &&& output == NetworkOutput::Terminate { session_ids: ids }
                },
            },
    {
        proof {
            lemma_ids_ordered();
        }
        match input {
            NetworkInput::Accepted => {
                let session_id = self.open_session();
                NetworkOutput::StartReader {
                    session_id,
                    notice: ControlInfoMsg::Connected(session_id, String::new()),
                }
            },
            NetworkInput::Dialled(url) => {
                let session_id = self.open_session();
                NetworkOutput::StartReader {
                    session_id,
                    notice: ControlInfoMsg::Connected(session_id, url),
                }
            },
            NetworkInput::Command(CommomNetMsg::SendMessage(sid, data)) => {
                let session_ids = self.send_targets(sid);
                NetworkOutput::Write { session_ids, data }
            },
            NetworkInput::Command(CommomNetMsg::ToConnect(url)) => NetworkOutput::Dial { url },
            NetworkInput::Command(CommomNetMsg::ToDisConnect(sid)) => {
                let present = self.cons.remove(&sid);
                assert forall|x: SessionID| #[trigger] self.cons@.contains(x) implies 1 <= x < self.session_id by {
                    assert(old(self)@.sessions.contains(x));
                }
                if present {
                    let mut session_ids: Vec<SessionID> = Vec::new();
                    session_ids.push(sid);
                    assert(session_ids@ =~= seq![sid]);
                    NetworkOutput::Terminate { session_ids }
                } else {
                    NetworkOutput::Nothing
                }
            },
            NetworkInput::Command(CommomNetMsg::GetPeerCount) => {
                NetworkOutput::PeerCount(self.peer_count())
            },
            NetworkInput::WriteFailed(ids) => {
                let mut i: usize = 0;
                while i < ids.len()
                    invariant
                        i <= ids@.len(),
                        self.session_id == old(self).session_id,
                        self.cons@ == old(self).cons@.difference(ids@.take(i as int).to_set()),
                    decreases ids@.len() - i,
                {
                    self.cons.remove(&ids[i]);
                    proof {
                        assert(ids@.take(i + 1) =~= ids@.take(i as int).push(ids@[i as int]));
                        lemma_push_to_set(ids@.take(i as int), ids@[i as int]);
                    }
                    i = i + 1;
                    assert(self.cons@ =~= old(self).cons@.difference(ids@.take(i as int).to_set()));
                }
                assert(ids@.take(ids@.len() as int) =~= ids@);
                assert forall|x: SessionID| #[trigger] self.cons@.contains(x) implies 1 <= x < self.session_id by {
                    assert(old(self)@.sessions.contains(x));
                }
                NetworkOutput::Terminate { session_ids: ids }
            },
        }
    }
}

/// How a connection's reader goes on after reading a length prefix: it stops
/// when the read failed or the length is 0, and otherwise reads a body of
/// that length.
pub fn reader_length(prefix: Option<u64>) -> (res: Option<u64>)
    ensures
        res == match prefix {
            Some(n) => if n == 0 { None } else { Some(n) },
            None => None,
        },
{
    let len = match prefix {
        Some(n) => n,
        None => 0,
    };
    if len == 0 {
        None
    } else {
        Some(len)
    }
}

/// Whether a reader passes the body it read on: it stops instead when the
/// read failed or gave no bytes.
pub fn reader_forwards(read: Option<usize>) -> (res: bool)
    ensures
        res == (read matches Some(n) && n != 0),
{
    let len = match read {
        Some(n) => n,
        None => 0,
    };
    len != 0
}

/// A new connection never gets the id of an open one, nor the broadcast id 0.
pub proof fn law_connection_ids_fresh(v: CommonNetworkView)
    requires
        v.well_formed(),
    ensures
        !v.sessions.contains(v.next_session),
        v.next_session != 0,
        !v.sessions.contains(0),
{
}

/// A payload addressed to id 0 is written exactly once to every open
/// connection and to nothing else; one addressed to another id goes at most
/// to that connection.
pub proof fn law_send_targets(v: CommonNetworkView, sid: SessionID, targets: Seq<SessionID>)
    requires
        v.well_formed(),
        v.sends_to(sid, targets),
    ensures
        targets.no_duplicates(),
        sid == 0 ==> forall|x: SessionID| targets.contains(x) <==> v.sessions.contains(x),
        sid != 0 ==> forall|x: SessionID| #[trigger] targets.contains(x) ==> x == sid && v.sessions.contains(x),
{
    if sid == 0 {
        assert forall|x: SessionID| targets.contains(x) <==> v.sessions.contains(x) by {
            assert(targets.to_set().contains(x) <==> targets.contains(x));
        }
    }
}

} // verus!
