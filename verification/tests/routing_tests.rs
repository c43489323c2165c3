use cita_cloud_proto::network::NetworkMsg;
use network_direct::dispatch::{ClientCache, ClientLookup, DispatchTable, Route};
use network_direct::msg::NetMsg;
use network_direct::rpc_client::{RpcAction, RpcClient, RpcClientMsg};
use network_direct::service::broadcast_event;
use network_direct::direct::NetEvent;
use prost::Message;

fn payload(module: &str, origin: u64, body: &[u8]) -> Vec<u8> {
    let m = NetworkMsg { module: module.to_string(), origin, msg: body.to_vec(), ..Default::default() };
    m.encode_to_vec()
}

#[test]
fn route_to_registered_module_with_origin() {
    let mut t = DispatchTable::new();
    t.register_network_msg_handler("consensus".to_string(), "localhost".to_string(), "50001".to_string());
    match t.route(9, &payload("consensus", 0, &[1, 2])) {
        Route::Dispatch { module, port, msg } => {
            assert_eq!(module, "consensus");
            assert_eq!(port, "50001");
            assert_eq!(msg.origin, 9);
            assert_eq!(msg.msg, vec![1, 2]);
        }
        other => panic!("unexpected {:?}", other),
    }
}

#[test]
fn route_unregistered_and_garbage() {
    let t = DispatchTable::new();
    assert_eq!(t.route(1, &payload("controller", 0, &[])), Route::NoHandler);
    assert_eq!(t.route(1, &[0xff, 0xff, 0xff]), Route::Undecodable);
}

#[test]
fn registration_replaces_earlier_port() {
    let mut t = DispatchTable::new();
    t.register_network_msg_handler("m".to_string(), "h".to_string(), "1".to_string());
    t.register_network_msg_handler("m".to_string(), "h".to_string(), "2".to_string());
    assert_eq!(t.port_of("m"), Some("2".to_string()));
    assert_eq!(t.port_of("x"), None);
}

#[test]
fn client_cache_connects_once() {
    let mut c: ClientCache<u32> = ClientCache::new();
    match c.lookup("50002") {
        ClientLookup::Connect(url) => assert_eq!(url, "http://127.0.0.1:50002"),
        ClientLookup::Cached(_) => panic!("nothing cached yet"),
    }
    c.insert("50002".to_string(), 7);
    match c.lookup("50002") {
        ClientLookup::Cached(v) => assert_eq!(*v, 7),
        ClientLookup::Connect(_) => panic!("client was cached"),
    }
}

#[test]
fn rpc_client_registration_asks_to_connect() {
    let mut r: RpcClient<u32> = RpcClient::new();
    let a = r.handle(RpcClientMsg::ModPort("kms".to_string(), "host".to_string(), "60000".to_string()));
    assert_eq!(a, RpcAction::Connect { module: "kms".to_string(), url: "http://host:60000".to_string() });
}

#[test]
fn rpc_client_routes_by_module() {
    let mut r: RpcClient<u32> = RpcClient::new();
    assert_eq!(r.handle(RpcClientMsg::FromNetMsg(1, payload("kms", 3, &[]))), RpcAction::Skip);
    assert_eq!(r.handle(RpcClientMsg::FromNetMsg(1, vec![0xff, 0xff])), RpcAction::Skip);
    r.handle(RpcClientMsg::ModPort("kms".to_string(), "host".to_string(), "60000".to_string()));
    match r.handle(RpcClientMsg::FromNetMsg(1, payload("kms", 3, &[4]))) {
        RpcAction::Reconnect { module, url, msg } => {
            assert_eq!(module, "kms");
            assert_eq!(url, "http://host:60000");
            assert_eq!(msg.origin, 3);
        }
        other => panic!("unexpected {:?}", other),
    }
    r.add_client("kms".to_string(), 5);
    assert_eq!(r.client("kms"), Some(&5));
    match r.handle(RpcClientMsg::FromNetMsg(1, payload("kms", 3, &[4]))) {
        RpcAction::Send { module, msg } => {
            assert_eq!(module, "kms");
            assert_eq!(msg.msg, vec![4]);
        }
        other => panic!("unexpected {:?}", other),
    }
}

fn typed_payload(module: &str, msg_type: &str, origin: u64, body: &[u8]) -> Vec<u8> {
    let m = NetMsg { module: module.to_string(), msg_type: msg_type.to_string(), origin, msg: body.to_vec() };
    match broadcast_event(&m).unwrap() {
        NetEvent::BroadcastMessage { msg } => msg,
        other => panic!("unexpected {:?}", other),
    }
}

#[test]
fn route_keeps_type_and_replaces_origin() {
    let mut t = DispatchTable::new();
    t.register_network_msg_handler("consensus".to_string(), "localhost".to_string(), "50001".to_string());
    match t.route(7, &typed_payload("consensus", "vote", 3, &[5])) {
        Route::Dispatch { msg, .. } => {
            assert_eq!(
                msg,
                NetMsg { module: "consensus".to_string(), msg_type: "vote".to_string(), origin: 7, msg: vec![5] }
            );
        }
        other => panic!("unexpected {:?}", other),
    }
}

#[test]
fn rpc_client_passes_decoded_message() {
    let mut r: RpcClient<u32> = RpcClient::new();
    r.handle(RpcClientMsg::ModPort("kms".to_string(), "host".to_string(), "60000".to_string()));
    assert!(r.is_registered("kms"));
    assert!(!r.is_registered("other"));
    r.add_client("kms".to_string(), 1);
    match r.handle(RpcClientMsg::FromNetMsg(2, typed_payload("kms", "sign", 8, &[9]))) {
        RpcAction::Send { msg, .. } => {
            assert_eq!(msg, NetMsg { module: "kms".to_string(), msg_type: "sign".to_string(), origin: 8, msg: vec![9] });
        }
        other => panic!("unexpected {:?}", other),
    }
}
