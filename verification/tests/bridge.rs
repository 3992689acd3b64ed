use crab_trap::bridge::{Bridge, BridgeAction, BridgeEvent};
use crab_trap::registry::Registry;
use crab_trap::session::Handle;

fn nothing(action: BridgeAction) -> bool {
    matches!(action, BridgeAction::Nothing)
}

#[test]
fn new_bridge_runs_both_ways() {
    let b = Bridge::new(&Handle::new(1));
    assert_eq!(b, Bridge { inbound: true, outbound: true });
    assert!(b.is_running());
}

#[test]
fn inbound_bytes_are_delivered_as_text() {
    let mut b = Bridge::new(&Handle::new(1));
    match b.step(BridgeEvent::Received("uid=0(root)\n".as_bytes().to_vec())) {
        BridgeAction::Deliver(text) => assert_eq!(text, "uid=0(root)\n"),
        _ => panic!("nothing was delivered"),
    }
    assert!(b.is_running());
}

#[test]
fn ill_formed_bytes_are_replaced() {
    let mut b = Bridge::new(&Handle::new(1));
    match b.step(BridgeEvent::Received(vec![b'o', b'k', 0xFF, b'!'])) {
        BridgeAction::Deliver(text) => assert_eq!(text, "ok\u{fffd}!"),
        _ => panic!("nothing was delivered"),
    }
}

#[test]
fn outgoing_bytes_are_written_verbatim() {
    let mut b = Bridge::new(&Handle::new(1));
    match b.step(BridgeEvent::Outgoing(vec![0x1B, 0x4F, 0x41, 0xFF, 0x00])) {
        BridgeAction::Write(bytes) => assert_eq!(bytes, vec![0x1B, 0x4F, 0x41, 0xFF, 0x00]),
        _ => panic!("nothing was written"),
    }
}

#[test]
fn zero_byte_read_ends_the_inbound_direction() {
    let mut b = Bridge::new(&Handle::new(1));
    assert!(matches!(b.step(BridgeEvent::Received(vec![])), BridgeAction::CloseInbound));
    assert_eq!(b, Bridge { inbound: false, outbound: true });
    assert!(nothing(b.step(BridgeEvent::Received(b"late".to_vec()))));
    assert!(nothing(b.step(BridgeEvent::ReadFailed)));
    assert!(matches!(b.step(BridgeEvent::Outgoing(b"x".to_vec())), BridgeAction::Write(_)));
}

#[test]
fn read_failure_stops_both_directions() {
    let mut b = Bridge::new(&Handle::new(1));
    assert!(matches!(b.step(BridgeEvent::ReadFailed), BridgeAction::Stop));
    assert!(!b.is_running());
    assert!(nothing(b.step(BridgeEvent::Outgoing(b"x".to_vec()))));
    assert!(nothing(b.step(BridgeEvent::Received(b"x".to_vec()))));
}

#[test]
fn write_failure_stops_both_directions() {
    let mut b = Bridge::new(&Handle::new(1));
    assert!(matches!(b.step(BridgeEvent::WriteFailed), BridgeAction::Stop));
    assert!(!b.is_running());
    assert!(nothing(b.step(BridgeEvent::Received(b"x".to_vec()))));
    assert!(nothing(b.step(BridgeEvent::WriteFailed)));
}

#[test]
fn nothing_moves_after_cancellation() {
    let mut b = Bridge::new(&Handle::new(1));
    assert!(matches!(b.step(BridgeEvent::Cancelled), BridgeAction::Stop));
    assert_eq!(b, Bridge { inbound: false, outbound: false });
    assert!(nothing(b.step(BridgeEvent::Outgoing(b"x".to_vec()))));
    assert!(nothing(b.step(BridgeEvent::Received(b"x".to_vec()))));
    assert!(nothing(b.step(BridgeEvent::Received(vec![]))));
    assert!(nothing(b.step(BridgeEvent::Cancelled)));
    assert!(nothing(b.step(BridgeEvent::ReadFailed)));
}

#[test]
fn removed_session_never_writes_again() {
    let mut r = Registry::new();
    r.insert(String::from("a"), Handle::new(3));
    let removed = r.remove(&String::from("a")).unwrap();
    assert!(removed.cancelled);
    let mut b = Bridge::new(&removed);
    assert!(!b.is_running());
    assert!(nothing(b.step(BridgeEvent::Outgoing(b"id\n".to_vec()))));
    assert!(nothing(b.step(BridgeEvent::Received(b"x".to_vec()))));
}
