use crab_trap::session::{ControlSlot, Signal};

#[test]
fn control_slot_starts_open_and_empty() {
    let mut slot = ControlSlot::new();
    assert_eq!(slot, ControlSlot { pending: None, open: true });
    assert_eq!(slot.take(), None);
}

#[test]
fn later_signal_supersedes_an_unconsumed_one() {
    let mut slot = ControlSlot::new();
    assert!(slot.send(Signal::Start));
    assert!(slot.send(Signal::Quit));
    assert_eq!(slot.take(), Some(Signal::Quit));
    assert_eq!(slot.take(), None);
    assert!(slot.send(Signal::Delete));
    assert_eq!(slot.take(), Some(Signal::Delete));
}

#[test]
fn delivery_to_a_closed_slot_fails() {
    let mut slot = ControlSlot::new();
    slot.send(Signal::Start);
    slot.close();
    assert_eq!(slot, ControlSlot { pending: None, open: false });
    assert!(!slot.send(Signal::Start));
    assert_eq!(slot.take(), None);
    assert!(!slot.open);
}
