//! Delivery of received network messages to the modules that registered a
//! handler address, over cached handler clients.

use crate::address::module_address;
use crate::msg::{decode_network_msg, decoded_module, net_msg_fields, network_msg_decodes, network_msg_decoding, NetMsg};
use crate::network::SessionID;
use vstd::hash_map::StringHashMap;
use vstd::prelude::*;

verus! {

/// A request to the module client.
#[derive(Debug, PartialEq)]
pub enum RpcClientMsg {
    /// The module (first) registered its handler at host (second) and port
    /// (third).
    ModPort(String, String, String),
    /// A payload arrived on the given connection.
    FromNetMsg(SessionID, Vec<u8>),
}

/// What the module client has to do next.
#[derive(Debug, PartialEq)]
pub enum RpcAction {
    /// Connect to the handler URL of `module`; a client that connects is
    /// kept for it.
    Connect { module: String, url: String },
    /// Pass `msg` to the kept client of `module`.
    Send { module: String, msg: NetMsg },
    /// Connect to the handler URL of `module` and, if that works, pass `msg`
    /// to the new client and keep it.
    Reconnect { module: String, url: String, msg: NetMsg },
    /// Nothing to do: the payload is no message, or its module registered
    /// no handler.
    Skip,
}

/// The handler URLs the modules registered, and the clients kept for them.
#[verifier::reject_recursive_types(C)]
pub struct RpcClient<C> {
    mod_infos: StringHashMap<String>,
    mod_clients: StringHashMap<C>,
}

impl<C> RpcClient<C> {
    /// The handler URL registered by each module.
    pub closed spec fn infos(&self) -> Map<Seq<char>, String> {
        self.mod_infos@
    }

    /// The client kept for each module.
    pub closed spec fn clients(&self) -> Map<Seq<char>, C> {
        self.mod_clients@
    }

    /// A client is only kept for a module that registered a handler URL.
    pub open spec fn well_formed(&self) -> bool {
        self.clients().dom().subset_of(self.infos().dom())
    }

    /// A client with no registrations.
    pub fn new() -> (res: Self)
        ensures
            res.infos() == Map::<Seq<char>, String>::empty(),
            res.clients() == Map::<Seq<char>, C>::empty(),
            res.well_formed(),
    {
        RpcClient { mod_infos: StringHashMap::new(), mod_clients: StringHashMap::new() }
    }

    /// Whether `module` registered a handler URL.
    pub fn is_registered(&self, module: &str) -> (res: bool)
        ensures
            res == self.infos().contains_key(module@),
    {
        self.mod_infos.contains_key(module)
    }

    /// Decides what to do with a request: a registration records the
    /// module's URL `http://host:port` and asks for a connection to it; a
    /// received message goes to its module's kept client, or to a new client
    /// for the module's registered URL, and is dropped otherwise.
    pub fn handle(&mut self, msg: RpcClientMsg) -> (action: RpcAction)
        requires
            old(self).well_formed(),
        ensures
            final(self).well_formed(),
            final(self).clients() == old(self).clients(),
            match msg {
                RpcClientMsg::ModPort(module, hostname, port) => {
                    &&& action matches RpcAction::Connect { module: m, url }
                    &&& m == module
                    &&& url@ == "http://"@ + hostname@ + ":"@ + port@
                    &&& final(self).infos() == old(self).infos().insert(module@, url)
                },
                RpcClientMsg::FromNetMsg(_, data) => {
                    &&& final(self).infos() == old(self).infos()
                    &&& (action is Skip <==> !network_msg_decodes(data@) || !old(
                        self,
                    ).infos().contains_key(decoded_module(data@)))
                    &&& action matches RpcAction::Send { module, msg: m } ==> {
                        &&& module@ == decoded_module(data@)
                        &&& old(self).clients().contains_key(module@)
                        &&& old(self).infos().contains_key(module@)
                        &&& network_msg_decoding(data@) == Some(net_msg_fields(m))
                    }
                    &&& action matches RpcAction::Reconnect { module, url, msg: m } ==> {
                        &&& module@ == decoded_module(data@)
                        &&& network_msg_decoding(data@) == Some(net_msg_fields(m))
                        &&& !old(self).clients().contains_key(module@)
                        &&& old(self).infos().contains_key(module@)
                        &&& url == old(self).infos()[module@]
                    }
                    &&& !(action is Connect)
                },
            },
    {
        match msg {
            RpcClientMsg::ModPort(module, hostname, port) => {
                let url = module_address(hostname.as_str(), port.as_str());
                self.mod_infos.insert(module.clone(), url.clone());
                RpcAction::Connect { module, url }
            },
            RpcClientMsg::FromNetMsg(_, data) => {
                match decode_network_msg(data.as_slice()) {
                    Err(_) => RpcAction::Skip,
                    Ok(msg) => {
                        let module = msg.module.clone();
                        if self.mod_clients.contains_key(module.as_str()) {
                            RpcAction::Send { module, msg }
                        } else {
                            match self.mod_infos.get(module.as_str()) {
                                Some(url) => RpcAction::Reconnect { module, url: url.clone(), msg },
                                None => RpcAction::Skip,
                            }
                        }
                    },
                }
            },
        }
    }

    /// Keeps `client` as the client of `module`, which registered a handler
    /// URL.
    pub fn add_client(&mut self, module: String, client: C)
        requires
            old(self).well_formed(),
            old(self).infos().contains_key(module@),
        ensures
            final(self).well_formed(),
            final(self).infos() == old(self).infos(),
            final(self).clients() == old(self).clients().insert(module@, client),
    {
        self.mod_clients.insert(module, client);
    }

    /// The client kept for `module`.
    pub fn client(&self, module: &str) -> (res: Option<&C>)
        ensures
            match res {
                Some(c) => self.clients().contains_key(module@) && *c == self.clients()[module@],
                None => !self.clients().contains_key(module@),
            },
    {
        self.mod_clients.get(module)
    }
}

} // verus!
