use cita_cloud_proto::network::NetworkMsg;
use network_direct::address::{grpc_address, handler_address, listen_address, module_address, peer_address};
use network_direct::direct::NetEvent;
use network_direct::msg::NetMsg;
use network_direct::network::CommomNetMsg;
use network_direct::rpc_client::RpcClientMsg;
use network_direct::service::{
    broadcast_event, broadcast_event_from, reconnect_events, register_command, rpc_broadcast_command, rpc_send_msg_command,
    send_command_from, send_event_from, send_msg_event, ServiceError,
};
use prost::Message;

fn msg(origin: u64) -> NetMsg {
    NetMsg { module: "m".to_string(), msg_type: String::new(), origin, msg: vec![1, 2] }
}

fn wire(origin: u64) -> Vec<u8> {
    NetworkMsg { module: "m".to_string(), origin, msg: vec![1, 2], ..Default::default() }.encode_to_vec()
}

#[test]
fn addresses() {
    assert_eq!(peer_address("10.0.0.2", "40000"), "10.0.0.2:40000");
    assert_eq!(listen_address("40000"), "0.0.0.0:40000");
    assert_eq!(grpc_address("50000"), "127.0.0.1:50000");
    assert_eq!(handler_address("50001"), "http://127.0.0.1:50001");
    assert_eq!(module_address("node", "50003"), "http://node:50003");
}

#[test]
fn send_msg_goes_to_origin_session() {
    let ev = send_msg_event(&msg(4)).unwrap();
    assert_eq!(ev, NetEvent::SendMessage { session_id: 4, data: wire(4) });
}

#[test]
fn broadcast_carries_encoding() {
    assert_eq!(broadcast_event(&msg(4)).unwrap(), NetEvent::BroadcastMessage { msg: wire(4) });
}

#[test]
fn rpc_commands() {
    let m = msg(6);
    assert_eq!(rpc_send_msg_command(&m).unwrap(), CommomNetMsg::SendMessage(6, wire(6)));
    assert_eq!(rpc_broadcast_command(&m).unwrap(), CommomNetMsg::SendMessage(0, wire(6)));
    assert_eq!(
        register_command("a".to_string(), "b".to_string(), "c".to_string()),
        RpcClientMsg::ModPort("a".to_string(), "b".to_string(), "c".to_string())
    );
}

#[test]
fn encode_results_map_to_events() {
    assert_eq!(send_event_from(3, Ok(vec![1])), Ok(NetEvent::SendMessage { session_id: 3, data: vec![1] }));
    assert_eq!(broadcast_event_from(Ok(vec![])), Ok(NetEvent::BroadcastMessage { msg: vec![] }));
    assert_eq!(send_command_from(2, Ok(vec![9])), Ok(CommomNetMsg::SendMessage(2, vec![9])));
    let mut tiny = [0u8; 0];
    let one = NetworkMsg { module: "m".to_string(), origin: 1, ..Default::default() };
    let err = one.encode(&mut &mut tiny[..]).unwrap_err();
    assert_eq!(send_event_from(3, Err(err)), Err(ServiceError::EncodeFailed));
    assert_eq!(send_command_from(3, Err(err)), Err(ServiceError::EncodeFailed));
}

#[test]
fn reconnect_events_one_per_peer() {
    let peers = vec!["a:1".to_string(), "b:2".to_string()];
    let evs = reconnect_events(&peers);
    assert_eq!(
        evs,
        vec![
            NetEvent::OutboundConnection { addr: "a:1".to_string() },
            NetEvent::OutboundConnection { addr: "b:2".to_string() }
        ]
    );
}

#[test]
fn type_field_is_encoded() {
    let m = NetMsg { module: "m".to_string(), msg_type: "t".to_string(), origin: 4, msg: vec![1, 2] };
    let expected: Vec<u8> = vec![0x0a, 0x01, b'm', 0x12, 0x01, b't', 0x18, 0x04, 0x22, 0x02, 0x01, 0x02];
    assert_eq!(send_msg_event(&m).unwrap(), NetEvent::SendMessage { session_id: 4, data: expected.clone() });
    assert_eq!(rpc_broadcast_command(&m).unwrap(), CommomNetMsg::SendMessage(0, expected));
    let back = NetworkMsg::decode(wire_of(&m).as_slice()).unwrap();
    assert_eq!(back.module, "m");
    assert_eq!(back.origin, 4);
    assert_eq!(back.msg, vec![1, 2]);
}

fn wire_of(m: &NetMsg) -> Vec<u8> {
    match broadcast_event(m).unwrap() {
        NetEvent::BroadcastMessage { msg } => msg,
        other => panic!("unexpected {:?}", other),
    }
}
