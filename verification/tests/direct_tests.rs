use network_direct::direct::{inflow_step, DirectNet, InflowStep, NetAction, NetEvent};

fn open(net: &mut DirectNet, addr: Option<&str>) -> u64 {
    match net.handle_net_event(NetEvent::SessionOpen { peer_addr: addr.map(|a| a.to_string()) }) {
        NetAction::StartSession { session_id, .. } => session_id,
        other => panic!("unexpected {:?}", other),
    }
}

#[test]
fn sessions_get_consecutive_ids_from_zero() {
    let mut net = DirectNet::new();
    assert_eq!(open(&mut net, None), 0);
    assert_eq!(open(&mut net, Some("10.0.0.1:4000")), 1);
    assert_eq!(open(&mut net, None), 2);
}

#[test]
fn start_session_carries_peer_address() {
    let mut net = DirectNet::new();
    let a = net.handle_net_event(NetEvent::SessionOpen { peer_addr: Some("h:1".to_string()) });
    assert_eq!(a, NetAction::StartSession { session_id: 0, peer_addr: Some("h:1".to_string()) });
}

#[test]
fn outbound_connection_only_dialled_when_not_connected() {
    let mut net = DirectNet::new();
    let a = net.handle_net_event(NetEvent::OutboundConnection { addr: "p:1".to_string() });
    assert_eq!(a, NetAction::Connect { addr: "p:1".to_string() });
    let id = open(&mut net, Some("p:1"));
    let a = net.handle_net_event(NetEvent::OutboundConnection { addr: "p:1".to_string() });
    assert_eq!(a, NetAction::Ignore);
    let a = net.handle_net_event(NetEvent::OutboundConnection { addr: "p:2".to_string() });
    assert_eq!(a, NetAction::Connect { addr: "p:2".to_string() });
    assert_eq!(net.handle_net_event(NetEvent::SessionClosed { session_id: id }), NetAction::DropSession { session_id: id });
    let a = net.handle_net_event(NetEvent::OutboundConnection { addr: "p:1".to_string() });
    assert_eq!(a, NetAction::Connect { addr: "p:1".to_string() });
}

#[test]
fn inbound_session_does_not_count_as_connected() {
    let mut net = DirectNet::new();
    open(&mut net, None);
    assert!(!net.is_connected(&"p:1".to_string()));
}

#[test]
fn send_message_only_to_open_session() {
    let mut net = DirectNet::new();
    let id = open(&mut net, None);
    let a = net.handle_net_event(NetEvent::SendMessage { session_id: id, data: vec![1] });
    assert_eq!(a, NetAction::Deliver { session_id: id, data: vec![1] });
    let a = net.handle_net_event(NetEvent::SendMessage { session_id: 7, data: vec![1] });
    assert_eq!(a, NetAction::Ignore);
}

#[test]
fn received_message_is_forwarded_with_session() {
    let mut net = DirectNet::new();
    let a = net.handle_net_event(NetEvent::MessageReceived { session_id: 3, data: vec![5, 6] });
    assert_eq!(a, NetAction::Forward { session_id: 3, data: vec![5, 6] });
}

#[test]
fn inbound_connection_is_accepted() {
    let mut net = DirectNet::new();
    assert_eq!(net.handle_net_event(NetEvent::InboundConnection), NetAction::AcceptInbound);
}

#[test]
fn broadcast_goes_to_dialled_sessions_only() {
    let mut net = DirectNet::new();
    let a = open(&mut net, Some("a:1"));
    let _inbound = open(&mut net, None);
    let b = open(&mut net, Some("b:1"));
    match net.handle_net_event(NetEvent::BroadcastMessage { msg: vec![9] }) {
        NetAction::DeliverEach { mut session_ids, msg } => {
            session_ids.sort();
            assert_eq!(session_ids, vec![a, b]);
            assert_eq!(msg, vec![9]);
        }
        other => panic!("unexpected {:?}", other),
    }
}

#[test]
fn closed_session_gets_no_messages() {
    let mut net = DirectNet::new();
    let id = open(&mut net, Some("a:1"));
    net.handle_net_event(NetEvent::SessionClosed { session_id: id });
    assert_eq!(net.handle_net_event(NetEvent::SendMessage { session_id: id, data: vec![] }), NetAction::Ignore);
    assert!(net.outbound_sessions().is_empty());
    assert_eq!(open(&mut net, None), 1);
}

#[test]
fn inflow_step_decisions() {
    assert_eq!(inflow_step(3, false, None), InflowStep::Stop);
    assert_eq!(inflow_step(3, true, None), InflowStep::Continue(None));
    assert_eq!(
        inflow_step(3, true, Some(vec![1])),
        InflowStep::Continue(Some(NetEvent::MessageReceived { session_id: 3, data: vec![1] }))
    );
}
