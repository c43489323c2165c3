//! What the gRPC network services turn a request into: the event for the
//! direct network, or the command for the common network and module client.

use crate::direct::NetEvent;
use crate::msg::{encode_network_msg, net_msg_encoding, net_msg_fields, network_msg_decoding, NetMsg};
use crate::network::CommomNetMsg;
use crate::rpc_client::RpcClientMsg;
use vstd::prelude::*;

verus! {

/// Why a service request is refused.
#[derive(Debug, PartialEq)]
pub enum ServiceError {
    /// The request's message could not be encoded.
    EncodeFailed,
}

/// The direct network's event for a send request whose message came from
/// session `origin` and encoded as `encoded`.
pub fn send_event_from(origin: u64, encoded: Result<Vec<u8>, prost::EncodeError>) -> (res: Result<NetEvent, ServiceError>)
    ensures
        match encoded {
            Ok(data) => res == Ok::<NetEvent, ServiceError>(NetEvent::SendMessage { session_id: origin, data }),
            Err(_) => res == Err::<NetEvent, ServiceError>(ServiceError::EncodeFailed),
        },
{
    match encoded {
        Ok(data) => Ok(NetEvent::SendMessage { session_id: origin, data }),
        Err(_) => Err(ServiceError::EncodeFailed),
    }
}

/// The direct network's event for a broadcast request whose message encoded
/// as `encoded`.
pub fn broadcast_event_from(encoded: Result<Vec<u8>, prost::EncodeError>) -> (res: Result<NetEvent, ServiceError>)
    ensures
        match encoded {
            Ok(msg) => res == Ok::<NetEvent, ServiceError>(NetEvent::BroadcastMessage { msg }),
            Err(_) => res == Err::<NetEvent, ServiceError>(ServiceError::EncodeFailed),
        },
{
    match encoded {
        Ok(msg) => Ok(NetEvent::BroadcastMessage { msg }),
        Err(_) => Err(ServiceError::EncodeFailed),
    }
}

/// A send request to the direct network: the message, encoded, goes to
/// the session it names as its origin.
pub fn send_msg_event(msg: &NetMsg) -> (res: Result<NetEvent, ServiceError>)
    ensures
        res matches Ok(NetEvent::SendMessage { session_id, data }) && session_id == msg.origin
            && data@ == net_msg_encoding(*msg) && network_msg_decoding(data@) == Some(net_msg_fields(*msg)),
{
    send_event_from(msg.origin, encode_network_msg(msg))
}

/// A broadcast request to the direct network: the message, encoded, goes to
/// every dialled session.
pub fn broadcast_event(msg: &NetMsg) -> (res: Result<NetEvent, ServiceError>)
    ensures
        res matches Ok(NetEvent::BroadcastMessage { msg: data }) && data@ == net_msg_encoding(*msg)
            && network_msg_decoding(data@) == Some(net_msg_fields(*msg)),
{
    broadcast_event_from(encode_network_msg(msg))
}

/// The common network's command for a send request whose message came from
/// connection `origin` and encoded as `encoded`.
pub fn send_command_from(origin: u64, encoded: Result<Vec<u8>, prost::EncodeError>) -> (res: Result<CommomNetMsg, ServiceError>)
    ensures
        match encoded {
            Ok(data) => res == Ok::<CommomNetMsg, ServiceError>(CommomNetMsg::SendMessage(origin, data)),
            Err(_) => res == Err::<CommomNetMsg, ServiceError>(ServiceError::EncodeFailed),
        },
{
    match encoded {
        Ok(data) => Ok(CommomNetMsg::SendMessage(origin, data)),
        Err(_) => Err(ServiceError::EncodeFailed),
    }
}

/// A send request to the common network: the message, encoded, goes to
/// the connection it names as its origin.
pub fn rpc_send_msg_command(msg: &NetMsg) -> (res: Result<CommomNetMsg, ServiceError>)
    ensures
        res matches Ok(CommomNetMsg::SendMessage(sid, data)) && sid == msg.origin
            && data@ == net_msg_encoding(*msg) && network_msg_decoding(data@) == Some(net_msg_fields(*msg)),
{
    send_command_from(msg.origin, encode_network_msg(msg))
}

/// A broadcast request to the common network: the message, encoded, goes to
/// connection id 0, which stands for all of them.
pub fn rpc_broadcast_command(msg: &NetMsg) -> (res: Result<CommomNetMsg, ServiceError>)
    ensures
        res matches Ok(CommomNetMsg::SendMessage(sid, data)) && sid == 0
            && data@ == net_msg_encoding(*msg) && network_msg_decoding(data@) == Some(net_msg_fields(*msg)),
{
    send_command_from(0, encode_network_msg(msg))
}

/// A handler registration for the common network's module client.
pub fn register_command(module_name: String, hostname: String, port: String) -> (res: RpcClientMsg)
    ensures
        res == RpcClientMsg::ModPort(module_name, hostname, port),
{
    RpcClientMsg::ModPort(module_name, hostname, port)
}

/// The periodic dial requests of the direct network: one per configured
/// peer address, in order.
pub fn reconnect_events(peers: &Vec<String>) -> (res: Vec<NetEvent>)
    ensures
        res@.len() == peers@.len(),
        forall|i: int| 0 <= i < peers@.len() ==> (#[trigger] res@[i] matches NetEvent::OutboundConnection { addr } && addr@ == peers@[i]@),
{
    let mut res: Vec<NetEvent> = Vec::new();
    let mut i: usize = 0;
    while i < peers.len()
        invariant
            i <= peers@.len(),
            res@.len() == i,
            forall|j: int| 0 <= j < i ==> (#[trigger] res@[j] matches NetEvent::OutboundConnection { addr } && addr@ == peers@[j]@),
        decreases peers@.len() - i,
    {
        res.push(NetEvent::OutboundConnection { addr: peers[i].clone() });
        i = i + 1;
    }
    res
}

} // verus!
