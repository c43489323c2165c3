use network_direct::protocol::{Message, TransferConfig};
use network_direct::transfer::{HandlerEvent, NotifyHandler, Transfer, TransferAction, TransferEvent};
use std::sync::Arc;

fn bytes(b: &[u8]) -> Arc<[u8]> {
    b.into()
}

#[test]
fn default_config_allows_four_mebibytes() {
    assert_eq!(TransferConfig::default().max_buf_size(), 4 * 1024 * 1024);
}

#[test]
fn message_bytes_roundtrip() {
    let m = Message::from_bytes(&[1, 2, 3]).unwrap();
    assert_eq!(m.to_bytes(), vec![1, 2, 3]);
    assert_eq!(Message::from_bytes(&[]).unwrap().to_bytes(), Vec::<u8>::new());
}

#[test]
fn handler_event_from_message_and_unit() {
    let m = Message::Send(bytes(&[4]));
    assert_eq!(HandlerEvent::from(m.clone()), HandlerEvent::Rx(m));
    assert_eq!(HandlerEvent::from(()), HandlerEvent::Tx);
}

#[test]
fn poll_on_empty_queue_is_none() {
    let mut t: Transfer<u32, u8> = Transfer::new(TransferConfig::default());
    assert!(t.poll().is_none());
}

#[test]
fn broadcast_notifies_each_connection_once() {
    let mut t: Transfer<u32, u8> = Transfer::new(TransferConfig::default());
    t.inject_connection_established(10, 1);
    t.inject_connection_established(20, 2);
    t.broadcast(bytes(&[7, 7]));
    let mut peers = Vec::new();
    while let Some(a) = t.poll() {
        match a {
            TransferAction::Notify { peer_id, handler, event } => {
                assert_eq!(handler, NotifyHandler::Any);
                assert_eq!(event.to_bytes(), vec![7, 7]);
                peers.push(peer_id);
            }
            other => panic!("unexpected {:?}", other),
        }
    }
    peers.sort();
    assert_eq!(peers, vec![10, 20]);
}

#[test]
fn send_to_peer_uses_recorded_connection() {
    let mut t: Transfer<u32, u8> = Transfer::new(TransferConfig::default());
    t.inject_connection_established(10, 1);
    t.inject_connection_established(20, 2);
    t.send_to_peer(2, bytes(&[5]));
    match t.poll() {
        Some(TransferAction::Notify { peer_id, handler, event }) => {
            assert_eq!(peer_id, 20);
            assert_eq!(handler, NotifyHandler::One(2));
            assert_eq!(event.to_bytes(), vec![5]);
        }
        other => panic!("unexpected {:?}", other),
    }
    t.send_to_peer(3, bytes(&[5]));
    assert!(t.poll().is_none());
}

#[test]
fn injected_events_are_queued_in_order() {
    let mut t: Transfer<u32, u8> = Transfer::new(TransferConfig::default());
    t.inject_event(1, 2, HandlerEvent::Rx(Message::Send(bytes(&[3]))));
    t.inject_event(1, 2, HandlerEvent::Tx);
    match t.poll() {
        Some(TransferAction::Generate(TransferEvent::Received(p, c, b))) => {
            assert_eq!((p, c), (1, 2));
            assert_eq!(&b[..], &[3]);
        }
        other => panic!("unexpected {:?}", other),
    }
    assert_eq!(t.poll(), Some(TransferAction::Generate(TransferEvent::Nothing)));
    assert_eq!(t.poll(), None);
}
