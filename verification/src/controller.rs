//! The reconnect controller: which peer addresses are connected under which
//! connection id, and which still have to be dialled.

use crate::network::CommomNetMsg;
use crate::seq_facts::{lemma_filter_members, lemma_filter_step, lemma_push_to_set};
use std::collections::BTreeMap;
use vstd::prelude::*;

verus! {

broadcast use {vstd::std_specs::btree::group_btree_axioms, vstd::laws_cmp::group_laws_cmp};

/// A report of the network layer to the controller.
#[derive(Debug, PartialEq)]
pub enum ControlInfoMsg {
    /// The connection with this id was established to this address (empty
    /// for an accepted connection).
    Connected(u64, String),
    /// The connection with this id was closed.
    DisConnected(u64),
}

/// Something that happens to the controller.
#[derive(Debug, PartialEq)]
pub enum ControlEvent {
    /// The controller starts.
    Start,
    /// The network layer reports a connection change.
    Info(ControlInfoMsg),
    /// No report came within the retry period.
    Timeout,
}

/// The controller's table of peer addresses.
pub struct Control {
    not_con_list: Vec<String>,
    con_list: BTreeMap<u64, String>,
}

/// The state of a `Control`: the addresses still to be dialled, and the
/// address of each connection id.
#[verifier::ext_equal]
pub struct ControlView {
    pub not_connected: Set<Seq<char>>,
    pub connected: Map<u64, String>,
}

impl ControlView {
    /// The state after the report `msg`: a connected address is no longer
    /// to be dialled and is remembered under its connection id; the address
    /// of a closed connection is to be dialled again, and a closed
    /// connection the table does not know changes nothing.
    pub open spec fn after_info(self, msg: ControlInfoMsg) -> ControlView {
        match msg {
            ControlInfoMsg::Connected(sid, url) => ControlView {
                not_connected: self.not_connected.remove(url@),
                connected: self.connected.insert(sid, url),
            },
            ControlInfoMsg::DisConnected(sid) => ControlView {
                not_connected: if self.connected.contains_key(sid) {
                    self.not_connected.insert(self.connected[sid]@)
                } else {
                    self.not_connected
                },
                connected: self.connected.remove(sid),
            },
        }
    }
}

/// The text of each address in `v`.
pub open spec fn url_views(v: Seq<String>) -> Seq<Seq<char>> {
    v.map_values(|s: String| s@)
}

/// Holds of every address but `u`.
pub open spec fn other_url(u: Seq<char>) -> spec_fn(Seq<char>) -> bool {
    |x: Seq<char>| x != u
}

/// The addresses carried by a list of `ToConnect` commands.
pub open spec fn dialled_urls(msgs: Seq<CommomNetMsg>) -> Seq<Seq<char>> {
    msgs.map_values(|m: CommomNetMsg| match m {
        CommomNetMsg::ToConnect(u) => u@,
        _ => Seq::empty(),
    })
}

impl View for Control {
    type V = ControlView;

    closed spec fn view(&self) -> ControlView {
        ControlView {
            not_connected: url_views(self.not_con_list@).to_set(),
            connected: self.con_list@,
        }
    }
}

/// Whether some address in `v` reads `u`.
fn has_url(v: &Vec<String>, u: &String) -> (res: bool)
    ensures
        res == url_views(v@).contains(u@),
{
    let mut i: usize = 0;
    while i < v.len()
        invariant
            i <= v@.len(),
            forall|j: int| 0 <= j < i ==> v@[j]@ != u@,
        decreases v@.len() - i,
    {
        if v[i] == *u {
            assert(url_views(v@)[i as int] == u@);
            return true;
        }
        i = i + 1;
    }
    proof {
        if url_views(v@).contains(u@) {
            let j = choose|j: int| 0 <= j < url_views(v@).len() && url_views(v@)[j] == u@;
            assert(v@[j]@ == u@);
        }
    }
    false
}

/// A copy of the addresses in `v`, in the same order.
fn copy_urls(v: &Vec<String>) -> (res: Vec<String>)
    ensures
        url_views(res@) == url_views(v@),
{
    let mut res: Vec<String> = Vec::new();
    let mut i: usize = 0;
    while i < v.len()
        invariant
            i <= v@.len(),
            url_views(res@) == url_views(v@).take(i as int),
        decreases v@.len() - i,
    {
        let ghost before = res@;
        let c = v[i].clone();
        assert(c@ == v@[i as int]@);
        res.push(c);
        assert(url_views(res@) =~= url_views(before).push(v@[i as int]@));
        i = i + 1;
        assert(url_views(res@) =~= url_views(v@).take(i as int));
    }
    assert(url_views(v@).take(v@.len() as int) =~= url_views(v@));
    res
}

/// `v` without the addresses that read `u`.
fn remove_url(v: &Vec<String>, u: &String) -> (res: Vec<String>)
    ensures
        url_views(res@) == url_views(v@).filter(other_url(u@)),
{
    let mut res: Vec<String> = Vec::new();
    let mut i: usize = 0;
    while i < v.len()
        invariant
            i <= v@.len(),
            url_views(res@) == url_views(v@).take(i as int).filter(other_url(u@)),
        decreases v@.len() - i,
    {
        proof {
            lemma_filter_step(url_views(v@), i as int, other_url(u@));
        }
        if v[i] != *u {
            let ghost before = res@;
            res.push(v[i].clone());
            assert(url_views(res@) =~= url_views(before).push(v@[i as int]@));
        }
        i = i + 1;
    }
    assert(url_views(v@).take(v@.len() as int) =~= url_views(v@));
    res
}

impl Control {
    /// Every address to be dialled occurs once.
    pub closed spec fn well_formed(&self) -> bool {
        url_views(self.not_con_list@).no_duplicates()
    }

    /// A controller that has still to dial each of `not_con_list` and has
    /// no connections yet.
    pub fn new(not_con_list: Vec<String>) -> (res: Self)
        ensures
            res.well_formed(),
            res@.not_connected == url_views(not_con_list@).to_set(),
            res@.connected == Map::<u64, String>::empty(),
    {
        let mut list: Vec<String> = Vec::new();
        let mut i: usize = 0;
        while i < not_con_list.len()
            invariant
                i <= not_con_list@.len(),
                url_views(list@).no_duplicates(),
                url_views(list@).to_set() == url_views(not_con_list@).take(i as int).to_set(),
            decreases not_con_list@.len() - i,
        {
            let u = &not_con_list[i];
            let ghost before = list@;
            if !has_url(&list, u) {
                list.push(u.clone());
                assert(url_views(list@) =~= url_views(before).push(u@));
                proof {
                    lemma_push_to_set(url_views(before), u@);
                }
            } else {
                assert(url_views(before).to_set().contains(u@));
                assert(url_views(before).to_set().insert(u@) =~= url_views(before).to_set());
            }
            proof {
                lemma_push_to_set(url_views(not_con_list@).take(i as int), u@);
                assert(url_views(not_con_list@).take(i + 1) =~= url_views(not_con_list@).take(
                    i as int,
                ).push(u@));
                assert(url_views(list@).to_set() =~= url_views(not_con_list@).take(i + 1).to_set());
            }
            i = i + 1;
        }
        assert(url_views(not_con_list@).take(not_con_list@.len() as int) =~= url_views(
            not_con_list@,
        ));
        Control { not_con_list: list, con_list: BTreeMap::new() }
    }

    /// The addresses still to be dialled, each once.
    pub fn pending(&self) -> (res: Vec<String>)
        requires
            self.well_formed(),
        ensures
            url_views(res@).no_duplicates(),
            url_views(res@).to_set() == self@.not_connected,
    {
        copy_urls(&self.not_con_list)
    }

    /// Records a connection change: a connected address is no longer to be
    /// dialled and is remembered under its connection id; the address of a
    /// closed connection is to be dialled again.
    pub fn handle_info(&mut self, msg: ControlInfoMsg)
        requires
            old(self).well_formed(),
        ensures
            final(self).well_formed(),
            final(self)@ == old(self)@.after_info(msg),
    {
        match msg {
            ControlInfoMsg::Connected(sid, url) => {
                let kept = remove_url(&self.not_con_list, &url);
                proof {
                    lemma_filter_members(url_views(self.not_con_list@), other_url(url@));
                    assert(url_views(kept@).to_set() =~= url_views(self.not_con_list@).to_set().remove(url@));
                }
                self.not_con_list = kept;
                self.con_list.insert(sid, url);
            },
            ControlInfoMsg::DisConnected(sid) => {
                match self.con_list.remove(&sid) {
                    Some(url) => {
                        if !has_url(&self.not_con_list, &url) {
                            let ghost before = self.not_con_list@;
                            self.not_con_list.push(url);
                            assert(url_views(self.not_con_list@) =~= url_views(before).push(
                                old(self)@.connected[sid]@,
                            ));
                            proof {
                                lemma_push_to_set(url_views(before), old(self)@.connected[sid]@);
                            }
                        } else {
                            assert(old(self)@.not_connected.contains(old(self)@.connected[sid]@));
                        }
                        assert(self@.not_connected =~= old(self)@.not_connected.insert(
                            old(self)@.connected[sid]@,
                        ));
                    },
                    None => {},
                }
            },
        }
    }

    /// Decides what the controller sends to the network layer: on start and
    /// after each quiet retry period, a `ToConnect` for every address still
    /// to be dialled; on a report, nothing, after recording it.
    pub fn step(&mut self, event: ControlEvent) -> (msgs: Vec<CommomNetMsg>)
        requires
            old(self).well_formed(),
        ensures
            final(self).well_formed(),
            match event {
                ControlEvent::Info(msg) => {
                    &&& msgs@.len() == 0
                    &&& final(self)@ == old(self)@.after_info(msg)
                },
                _ => {
                    &&& final(self)@ == old(self)@
                    &&& forall|i: int| 0 <= i < msgs@.len() ==> #[trigger] msgs@[i] is ToConnect
                    &&& dialled_urls(msgs@).no_duplicates()
                    &&& dialled_urls(msgs@).to_set() == old(self)@.not_connected
                },
            },
    {
        match event {
            ControlEvent::Info(msg) => {
                self.handle_info(msg);
                Vec::new()
            },
            _ => {
                let urls = self.pending();
                let mut msgs: Vec<CommomNetMsg> = Vec::new();
                let mut i: usize = 0;
                while i < urls.len()
                    invariant
                        i <= urls@.len(),
                        msgs@.len() == i,
                        forall|j: int| 0 <= j < i ==> #[trigger] msgs@[j] is ToConnect,
                        dialled_urls(msgs@) == url_views(urls@).take(i as int),
                    decreases urls@.len() - i,
                {
                    msgs.push(CommomNetMsg::ToConnect(urls[i].clone()));
                    i = i + 1;
                    assert(dialled_urls(msgs@) =~= url_views(urls@).take(i as int));
                }
                assert(url_views(urls@).take(urls@.len() as int) =~= url_views(urls@));
                msgs
            },
        }
    }
}

/// An address whose connection closes is dialled again: after `url` is
/// reported connected under `sid` and `sid` then closed, `sid` is unknown
/// and `url` is to be dialled, whatever the table held before.
pub proof fn law_reconnect_after_loss(v: ControlView, sid: u64, url: String)
    ensures
        ({
            let w = v.after_info(ControlInfoMsg::Connected(sid, url)).after_info(
                ControlInfoMsg::DisConnected(sid),
            );
            &&& w.connected == v.connected.remove(sid)
            &&& w.not_connected == v.not_connected.insert(url@)
        }),
{
    let c = v.after_info(ControlInfoMsg::Connected(sid, url));
    assert(c.connected.contains_key(sid));
    assert(c.connected.remove(sid) =~= v.connected.remove(sid));
    assert(c.not_connected.insert(url@) =~= v.not_connected.insert(url@));
}

/// A connected address is not dialled again while its connection stays,
/// and is remembered under the id it was reported with.
pub proof fn law_connected_not_dialled(v: ControlView, sid: u64, url: String)
    ensures
        ({
            let w = v.after_info(ControlInfoMsg::Connected(sid, url));
            &&& !w.not_connected.contains(url@)
            &&& w.connected.contains_key(sid)
            &&& w.connected[sid] == url
        }),
{
}

/// A report that a connection the controller does not know was closed
/// changes nothing.
pub proof fn law_unknown_disconnect_ignored(v: ControlView, sid: u64)
    requires
        !v.connected.contains_key(sid),
    ensures
        v.after_info(ControlInfoMsg::DisConnected(sid)) == v,
{
    assert(v.after_info(ControlInfoMsg::DisConnected(sid)) =~= v);
}
} // verus!
