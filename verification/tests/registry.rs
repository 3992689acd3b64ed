use crab_trap::registry::{Registry, RenameError};
use crab_trap::session::Handle;

fn id(s: &str) -> String {
    String::from(s)
}

#[test]
fn new_registry_is_empty() {
    let r = Registry::new();
    assert_eq!(r.len(), 0);
    assert!(r.is_empty());
    assert!(!r.contains(&id("a")));
    assert_eq!(r.get(&id("a")), None);
    assert!(r.sessions().is_empty());
}

#[test]
fn handle_new_is_cooked_and_live() {
    let h = Handle::new(7);
    assert_eq!(h, Handle { conn: 7, raw_mode: false, cancelled: false });
}

#[test]
fn insert_twice_overwrites() {
    let mut r = Registry::new();
    assert_eq!(r.insert(id("a"), Handle::new(1)), None);
    assert_eq!(r.insert(id("a"), Handle::new(2)), Some(Handle::new(1)));
    assert_eq!(r.len(), 1);
    assert_eq!(r.get(&id("a")), Some(Handle::new(2)));
}

#[test]
fn overwrite_keeps_the_slot() {
    let mut r = Registry::new();
    r.insert(id("a"), Handle::new(1));
    r.insert(id("b"), Handle::new(2));
    r.insert(id("a"), Handle::new(3));
    assert_eq!(r.id_at(0), "a");
    assert_eq!(r.id_at(1), "b");
    assert_eq!(r.sessions(), vec![(id("a"), Handle::new(3)), (id("b"), Handle::new(2))]);
}

#[test]
fn remove_unknown_is_not_found_and_changes_nothing() {
    let mut r = Registry::new();
    r.insert(id("a"), Handle::new(1));
    assert_eq!(r.remove(&id("zzz")), None);
    assert_eq!(r.len(), 1);
    assert_eq!(r.get(&id("a")), Some(Handle::new(1)));
}

#[test]
fn removed_session_comes_back_cancelled() {
    let mut r = Registry::new();
    r.insert(id("a"), Handle::new(1));
    r.insert(id("b"), Handle { conn: 2, raw_mode: true, cancelled: false });
    r.insert(id("c"), Handle::new(3));
    assert_eq!(r.remove(&id("b")), Some(Handle { conn: 2, raw_mode: true, cancelled: true }));
    assert_eq!(r.len(), 2);
    assert!(!r.contains(&id("b")));
    assert_eq!(r.id_at(0), "a");
    assert_eq!(r.id_at(1), "c");
    assert_eq!(r.remove(&id("b")), None);
}

#[test]
fn rename_to_existing_is_rejected_without_mutation() {
    let mut r = Registry::new();
    r.insert(id("a"), Handle::new(1));
    r.insert(id("b"), Handle::new(2));
    assert_eq!(r.rename(&id("a"), id("b")), Err(RenameError::Exists));
    assert_eq!(r.rename(&id("a"), id("a")), Err(RenameError::Exists));
    assert_eq!(r.len(), 2);
    assert_eq!(r.sessions(), vec![(id("a"), Handle::new(1)), (id("b"), Handle::new(2))]);
}

#[test]
fn rename_to_empty_is_rejected() {
    let mut r = Registry::new();
    r.insert(id("a"), Handle::new(1));
    assert_eq!(r.rename(&id("a"), id("")), Err(RenameError::Empty));
    assert_eq!(r.rename(&id("missing"), id("")), Err(RenameError::Empty));
    assert_eq!(r.sessions(), vec![(id("a"), Handle::new(1))]);
}

#[test]
fn rename_of_unknown_is_not_found() {
    let mut r = Registry::new();
    r.insert(id("a"), Handle::new(1));
    assert_eq!(r.rename(&id("nope"), id("x")), Err(RenameError::NotFound));
    assert_eq!(r.sessions(), vec![(id("a"), Handle::new(1))]);
}

#[test]
fn valid_rename_moves_the_session_and_keeps_it() {
    let mut r = Registry::new();
    let h = Handle { conn: 42, raw_mode: true, cancelled: false };
    r.insert(id("a"), Handle::new(1));
    r.insert(id("b"), h);
    r.insert(id("c"), Handle::new(3));
    assert_eq!(r.rename(&id("b"), id("web-01")), Ok(()));
    assert_eq!(r.len(), 3);
    assert!(!r.contains(&id("b")));
    assert_eq!(r.get(&id("web-01")), Some(h));
    assert_eq!(
        r.sessions(),
        vec![(id("a"), Handle::new(1)), (id("web-01"), h), (id("c"), Handle::new(3))]
    );
}

#[test]
fn toggle_raw_mode_flips_and_reports() {
    let mut r = Registry::new();
    r.insert(id("a"), Handle::new(1));
    assert_eq!(r.toggle_raw_mode(&id("a")), Some(true));
    assert_eq!(r.get(&id("a")), Some(Handle { conn: 1, raw_mode: true, cancelled: false }));
    assert_eq!(r.toggle_raw_mode(&id("a")), Some(false));
    assert_eq!(r.get(&id("a")), Some(Handle::new(1)));
    assert_eq!(r.toggle_raw_mode(&id("b")), None);
    assert_eq!(r.len(), 1);
}

#[test]
fn ids_with_wide_characters_are_told_apart() {
    let mut r = Registry::new();
    r.insert(id("é"), Handle::new(1));
    r.insert(id("e"), Handle::new(2));
    assert_eq!(r.len(), 2);
    assert_eq!(r.get(&id("é")), Some(Handle::new(1)));
}

#[test]
fn id_of_conn_finds_the_session_of_a_connection() {
    let mut r = Registry::new();
    r.insert(id("a"), Handle::new(10));
    r.insert(id("b"), Handle::new(20));
    r.insert(id("c"), Handle::new(20));
    assert_eq!(r.id_of_conn(10), Some(id("a")));
    assert_eq!(r.id_of_conn(20), Some(id("b")));
    assert_eq!(r.id_of_conn(30), None);
    r.remove(&id("b"));
    assert_eq!(r.id_of_conn(20), Some(id("c")));
    assert_eq!(Registry::new().id_of_conn(0), None);
}
