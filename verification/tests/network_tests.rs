use network_direct::controller::ControlInfoMsg;
use network_direct::network::{reader_forwards, reader_length, CommomNetMsg, CommonNetwork, NetworkInput, NetworkOutput};

fn accept(net: &mut CommonNetwork) -> u64 {
    match net.handle(NetworkInput::Accepted) {
        NetworkOutput::StartReader { session_id, notice } => {
            assert_eq!(notice, ControlInfoMsg::Connected(session_id, String::new()));
            session_id
        }
        other => panic!("unexpected {:?}", other),
    }
}

#[test]
fn connection_ids_start_at_one() {
    let mut net = CommonNetwork::new();
    assert_eq!(accept(&mut net), 1);
    assert_eq!(accept(&mut net), 2);
    let out = net.handle(NetworkInput::Dialled("h:9".to_string()));
    assert_eq!(out, NetworkOutput::StartReader { session_id: 3, notice: ControlInfoMsg::Connected(3, "h:9".to_string()) });
}

#[test]
fn send_to_zero_reaches_all_in_order() {
    let mut net = CommonNetwork::new();
    accept(&mut net);
    accept(&mut net);
    accept(&mut net);
    let out = net.handle(NetworkInput::Command(CommomNetMsg::SendMessage(0, vec![1])));
    assert_eq!(out, NetworkOutput::Write { session_ids: vec![1, 2, 3], data: vec![1] });
}

#[test]
fn send_to_unknown_id_reaches_nobody() {
    let mut net = CommonNetwork::new();
    accept(&mut net);
    let out = net.handle(NetworkInput::Command(CommomNetMsg::SendMessage(5, vec![1])));
    assert_eq!(out, NetworkOutput::Write { session_ids: vec![], data: vec![1] });
    let out = net.handle(NetworkInput::Command(CommomNetMsg::SendMessage(1, vec![2])));
    assert_eq!(out, NetworkOutput::Write { session_ids: vec![1], data: vec![2] });
}

#[test]
fn failed_writes_drop_connections() {
    let mut net = CommonNetwork::new();
    accept(&mut net);
    accept(&mut net);
    accept(&mut net);
    let out = net.handle(NetworkInput::WriteFailed(vec![2]));
    assert_eq!(out, NetworkOutput::Terminate { session_ids: vec![2] });
    assert_eq!(net.send_targets(0), vec![1, 3]);
    assert_eq!(net.peer_count(), 2);
}

#[test]
fn disconnect_known_and_unknown() {
    let mut net = CommonNetwork::new();
    accept(&mut net);
    assert_eq!(net.handle(NetworkInput::Command(CommomNetMsg::ToDisConnect(1))), NetworkOutput::Terminate { session_ids: vec![1] });
    assert_eq!(net.handle(NetworkInput::Command(CommomNetMsg::ToDisConnect(1))), NetworkOutput::Nothing);
    assert_eq!(net.handle(NetworkInput::Command(CommomNetMsg::GetPeerCount)), NetworkOutput::PeerCount(0));
}

#[test]
fn to_connect_asks_to_dial() {
    let mut net = CommonNetwork::new();
    assert_eq!(net.handle(NetworkInput::Command(CommomNetMsg::ToConnect("x:1".to_string()))), NetworkOutput::Dial { url: "x:1".to_string() });
}

#[test]
fn peer_count_counts_open_connections() {
    let mut net = CommonNetwork::new();
    accept(&mut net);
    accept(&mut net);
    assert_eq!(net.handle(NetworkInput::Command(CommomNetMsg::GetPeerCount)), NetworkOutput::PeerCount(2));
}

#[test]
fn reader_stops_on_zero_or_failed_prefix() {
    assert_eq!(reader_length(None), None);
    assert_eq!(reader_length(Some(0)), None);
    assert_eq!(reader_length(Some(12)), Some(12));
    assert!(!reader_forwards(None));
    assert!(!reader_forwards(Some(0)));
    assert!(reader_forwards(Some(3)));
}
