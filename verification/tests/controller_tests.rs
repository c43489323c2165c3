use network_direct::controller::{ControlEvent, ControlInfoMsg, Control};
use network_direct::network::CommomNetMsg;

fn urls(msgs: Vec<CommomNetMsg>) -> Vec<String> {
    let mut v: Vec<String> = msgs
        .into_iter()
        .map(|m| match m {
            CommomNetMsg::ToConnect(u) => u,
            other => panic!("unexpected {:?}", other),
        })
        .collect();
    v.sort();
    v
}

#[test]
fn start_dials_every_address_once() {
    let mut c = Control::new(vec!["a:1".to_string(), "b:1".to_string(), "a:1".to_string()]);
    assert_eq!(urls(c.step(ControlEvent::Start)), vec!["a:1".to_string(), "b:1".to_string()]);
}

#[test]
fn connected_address_is_not_redialled_until_lost() {
    let mut c = Control::new(vec!["a:1".to_string(), "b:1".to_string()]);
    assert!(c.step(ControlEvent::Info(ControlInfoMsg::Connected(4, "a:1".to_string()))).is_empty());
    assert_eq!(urls(c.step(ControlEvent::Timeout)), vec!["b:1".to_string()]);
    assert!(c.step(ControlEvent::Info(ControlInfoMsg::DisConnected(4))).is_empty());
    assert_eq!(urls(c.step(ControlEvent::Timeout)), vec!["a:1".to_string(), "b:1".to_string()]);
}

#[test]
fn unknown_disconnect_changes_nothing() {
    let mut c = Control::new(vec!["a:1".to_string()]);
    c.step(ControlEvent::Info(ControlInfoMsg::DisConnected(9)));
    assert_eq!(urls(c.step(ControlEvent::Timeout)), vec!["a:1".to_string()]);
}

#[test]
fn inbound_connection_loss_adds_empty_address() {
    let mut c = Control::new(vec![]);
    c.step(ControlEvent::Info(ControlInfoMsg::Connected(1, String::new())));
    c.step(ControlEvent::Info(ControlInfoMsg::DisConnected(1)));
    assert_eq!(urls(c.step(ControlEvent::Timeout)), vec![String::new()]);
}

#[test]
fn pending_lists_each_address_once() {
    let mut c = Control::new(vec!["a:1".to_string()]);
    c.handle_info(ControlInfoMsg::Connected(1, "a:1".to_string()));
    c.handle_info(ControlInfoMsg::Connected(2, "a:1".to_string()));
    c.handle_info(ControlInfoMsg::DisConnected(1));
    c.handle_info(ControlInfoMsg::DisConnected(2));
    assert_eq!(c.pending(), vec!["a:1".to_string()]);
}
