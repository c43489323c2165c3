//! The protobuf network message that modules exchange, held as plain values:
//! its module, type, origin and payload.

use cita_cloud_proto::network::{NetworkMsg, RegisterInfo};
use vstd::prelude::*;

verus! {

#[verifier::external_type_specification]
#[verifier::external_body]
pub struct ExEncodeError(prost::EncodeError);

#[verifier::external_type_specification]
#[verifier::external_body]
pub struct ExDecodeError(prost::DecodeError);

/// A message between the modules of two nodes: the module it is for, its
/// type, the session it came in on or is to go out on, and its payload.
#[derive(Debug, PartialEq)]
pub struct NetMsg {
    pub module: String,
    pub msg_type: String,
    pub origin: u64,
    pub msg: Vec<u8>,
}

/// The module, type, origin and payload of a message.
pub open spec fn net_msg_fields(m: NetMsg) -> (Seq<char>, Seq<char>, u64, Seq<u8>) {
    (m.module@, m.msg_type@, m.origin, m.msg@)
}

/// The module, type, origin and payload of the `NetworkMsg` these bytes
/// decode to, or `None` when they do not decode as one.
pub uninterp spec fn network_msg_decoding(bytes: Seq<u8>) -> Option<(Seq<char>, Seq<char>, u64, Seq<u8>)>;

/// The protobuf encoding of the `NetworkMsg` with these module, type, origin
/// and payload.
pub uninterp spec fn network_msg_encoding(module: Seq<char>, msg_type: Seq<char>, origin: u64, msg: Seq<u8>) -> Seq<u8>;

/// The protobuf encoding of `m`.
pub open spec fn net_msg_encoding(m: NetMsg) -> Seq<u8> {
    network_msg_encoding(m.module@, m.msg_type@, m.origin, m.msg@)
}

/// Whether these bytes decode as a `NetworkMsg`.
pub open spec fn network_msg_decodes(bytes: Seq<u8>) -> bool {
    network_msg_decoding(bytes) is Some
}

/// The module named by the `NetworkMsg` these bytes decode to.
pub open spec fn decoded_module(bytes: Seq<u8>) -> Seq<char> {
    match network_msg_decoding(bytes) {
        Some(fields) => fields.0,
        None => Seq::empty(),
    }
}

/// The type of the `NetworkMsg` these bytes decode to.
pub open spec fn decoded_type(bytes: Seq<u8>) -> Seq<char> {
    match network_msg_decoding(bytes) {
        Some(fields) => fields.1,
        None => Seq::empty(),
    }
}

/// The payload of the `NetworkMsg` these bytes decode to.
pub open spec fn decoded_payload(bytes: Seq<u8>) -> Seq<u8> {
    match network_msg_decoding(bytes) {
        Some(fields) => fields.3,
        None => Seq::empty(),
    }
}

/// Decodes `bytes` with `prost::Message::decode` as a
/// `cita_cloud_proto::network::NetworkMsg` and copies its fields out.
/// Claimed: it succeeds exactly when the bytes decode, and the copied fields
/// are the decoded ones. The type field is copied through protobuf itself:
/// the message with only its type set is encoded and decoded as a
/// `RegisterInfo`, whose `hostname` is, like `NetworkMsg`'s type, the
/// `string` field with tag 2, so that second decode gives the type and
/// cannot fail.
#[verifier::external_body]
pub(crate) fn decode_network_msg(bytes: &[u8]) -> (res: Result<NetMsg, prost::DecodeError>)
    ensures
        res is Ok <==> network_msg_decoding(bytes@) is Some,
        res matches Ok(m) ==> network_msg_decoding(bytes@) == Some(net_msg_fields(m)),
{
    let nm = <NetworkMsg as prost::Message>::decode(bytes)?;
    let type_only = NetworkMsg { module: String::new(), origin: 0, msg: Vec::new(), ..nm.clone() };
    let tag2 = <RegisterInfo as prost::Message>::decode(prost::Message::encode_to_vec(&type_only).as_slice())?;
    Ok(NetMsg { module: nm.module, msg_type: tag2.hostname, origin: nm.origin, msg: nm.msg })
}

/// Encodes `m` with `prost::Message::encode` into a fresh `Vec`, as the
/// `NetworkMsg` with `m`'s module, type, origin and payload (the type is set
/// through the tag-2 `string` field `hostname` of a `RegisterInfo`, encoded
/// and decoded as a `NetworkMsg`). Claimed: it succeeds (prost fails only
/// when the encoded length exceeds the buffer's `remaining_mut`, which for
/// a `Vec` is `isize::MAX` minus its length, more than a message held in
/// memory encodes to), the bytes are that message's encoding, and protobuf
/// decodes them back to `m`'s fields.
#[verifier::external_body]
pub(crate) fn encode_network_msg(m: &NetMsg) -> (res: Result<Vec<u8>, prost::EncodeError>)
    ensures
        res is Ok,
        res matches Ok(bytes) ==> bytes@ == network_msg_encoding(m.module@, m.msg_type@, m.origin, m.msg@),
        res matches Ok(bytes) ==> network_msg_decoding(bytes@) == Some(net_msg_fields(*m)),
{
    let tag2 = RegisterInfo { hostname: m.msg_type.clone(), ..Default::default() };
    let typed = <NetworkMsg as prost::Message>::decode(prost::Message::encode_to_vec(&tag2).as_slice()).unwrap_or_default();
    let full = NetworkMsg { module: m.module.clone(), origin: m.origin, msg: m.msg.clone(), ..typed };
    let mut buf: Vec<u8> = Vec::new();
    match prost::Message::encode(&full, &mut buf) {
        Ok(()) => Ok(buf),
        Err(e) => Err(e),
    }
}

} // verus!
