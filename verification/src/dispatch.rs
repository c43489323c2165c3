//! Delivery of received network messages to the local modules: the table of
//! registered module handlers, the routing of a received payload, and the
//! cache of handler clients.

use crate::address::handler_address;
use crate::msg::{decode_network_msg, decoded_module, decoded_payload, decoded_type, net_msg_fields, network_msg_decodes, NetMsg};
use vstd::hash_map::StringHashMap;
use vstd::prelude::*;

verus! {

/// Where a received payload goes.
#[derive(Debug, PartialEq)]
pub enum Route {
    /// The payload is no network message.
    Undecodable,
    /// No handler is registered for the message's module.
    NoHandler,
    /// The message, tagged with the session it came on, goes to the handler
    /// of `module` at `port`.
    Dispatch { module: String, port: String, msg: NetMsg },
}

/// The registered handler of each module: its host and port.
pub struct DispatchTable {
    table: StringHashMap<(String, String)>,
}

impl View for DispatchTable {
    type V = Map<Seq<char>, (String, String)>;

    closed spec fn view(&self) -> Map<Seq<char>, (String, String)> {
        self.table@
    }
}

impl DispatchTable {
    /// A table without handlers.
    pub fn new() -> (res: Self)
        ensures
            res@ == Map::<Seq<char>, (String, String)>::empty(),
    {
        DispatchTable { table: StringHashMap::new() }
    }

    /// Registers the handler of `module_name` at `hostname:port`, replacing
    /// an earlier registration of that module.
    pub fn register_network_msg_handler(&mut self, module_name: String, hostname: String, port: String)
        ensures
            final(self)@ == old(self)@.insert(module_name@, (hostname, port)),
    {
        self.table.insert(module_name, (hostname, port));
    }

    /// The port of the handler registered for `module`.
    pub fn port_of(&self, module: &str) -> (res: Option<String>)
        ensures
            match res {
                Some(p) => self@.contains_key(module@) && p@ == self@[module@].1@,
                None => !self@.contains_key(module@),
            },
    {
        match self.table.get(module) {
            Some(entry) => Some(entry.1.clone()),
            None => None,
        }
    }

    /// Routes a payload received on session `sid`: a decodable message goes
    /// whole, with `sid` as its origin in place of the decoded one, to the
    /// handler registered for its module.
    pub fn route(&self, sid: u64, payload: &[u8]) -> (res: Route)
        ensures
            res is Undecodable <==> !network_msg_decodes(payload@),
            res is NoHandler <==> network_msg_decodes(payload@) && !self@.contains_key(
                decoded_module(payload@),
            ),
            res matches Route::Dispatch { module, port, msg } ==> {
                &&& module@ == decoded_module(payload@)
                &&& self@.contains_key(module@)
                &&& port@ == self@[module@].1@
                &&& msg.module == module
                &&& net_msg_fields(msg) == (
                    decoded_module(payload@),
                    decoded_type(payload@),
                    sid,
                    decoded_payload(payload@),
                )
            },
    {
        match decode_network_msg(payload) {
            Ok(decoded) => {
                let module = decoded.module.clone();
                let msg = NetMsg { origin: sid, ..decoded };
                match self.port_of(module.as_str()) {
                    Some(port) => Route::Dispatch { module, port, msg },
                    None => Route::NoHandler,
                }
            },
            Err(_) => Route::Undecodable,
        }
    }
}

/// How to reach the handler at a port: through a cached client, or by
/// connecting to the handler's URL first.
pub enum ClientLookup<'a, C> {
    Cached(&'a C),
    Connect(String),
}

/// The clients of the module handlers, by port.
#[verifier::reject_recursive_types(C)]
pub struct ClientCache<C> {
    clients: StringHashMap<C>,
}

impl<C> ClientCache<C> {
    pub closed spec fn ports(&self) -> Map<Seq<char>, C> {
        self.clients@
    }

    /// A cache without clients.
    pub fn new() -> (res: Self)
        ensures
            res.ports() == Map::<Seq<char>, C>::empty(),
    {
        ClientCache { clients: StringHashMap::new() }
    }

    /// The cached client for `port`, or else the URL to connect to.
    pub fn lookup(&self, port: &str) -> (res: ClientLookup<'_, C>)
        ensures
            match res {
                ClientLookup::Cached(c) => self.ports().contains_key(port@) && *c == self.ports()[port@],
                ClientLookup::Connect(url) => !self.ports().contains_key(port@) && url@
                    == "http://127.0.0.1:"@ + port@,
            },
    {
        match self.clients.get(port) {
            Some(c) => ClientLookup::Cached(c),
            None => ClientLookup::Connect(handler_address(port)),
        }
    }

    /// Caches the client connected for `port`.
    pub fn insert(&mut self, port: String, client: C)
        ensures
            final(self).ports() == old(self).ports().insert(port@, client),
    {
        self.clients.insert(port, client);
    }
}

} // verus!
