use crab_trap::controller::Size;
use crab_trap::keys::Key;
use crab_trap::navigator::{AliasAction, AliasEditor, NavAction, Navigator};
use crab_trap::registry::Registry;
use crab_trap::screen::AliasPrompt;
use crab_trap::session::Handle;

const SIZE: Size = Size { rows: 24, cols: 80 };

fn three() -> Registry {
    let mut r = Registry::new();
    r.insert(String::from("a"), Handle::new(1));
    r.insert(String::from("b"), Handle::new(2));
    r.insert(String::from("c"), Handle::new(3));
    r
}

fn ids(r: &Registry) -> Vec<String> {
    r.sessions().into_iter().map(|entry| entry.0).collect()
}

#[test]
fn navigator_does_not_open_on_an_empty_registry() {
    assert_eq!(Navigator::open(&Registry::new(), 5), None);
    assert_eq!(Navigator::open(&three(), 5), Some(Navigator { selected: 0, anchor: 5 }));
}

#[test]
fn up_and_down_are_clamped() {
    let mut r = three();
    let mut nav = Navigator::open(&r, 5).unwrap();
    assert!(matches!(nav.on_key(&Key::Up, &mut r, SIZE), NavAction::Redraw));
    assert_eq!(nav.selected, 0);
    nav.on_key(&Key::Down, &mut r, SIZE);
    assert_eq!(nav.selected, 1);
    nav.on_key(&Key::Down, &mut r, SIZE);
    assert_eq!(nav.selected, 2);
    nav.on_key(&Key::Down, &mut r, SIZE);
    assert_eq!(nav.selected, 2);
    nav.on_key(&Key::Up, &mut r, SIZE);
    assert_eq!(nav.selected, 1);
    assert_eq!(ids(&r), vec!["a", "b", "c"]);
}

#[test]
fn enter_attaches_to_the_selected_session() {
    let mut r = three();
    let mut nav = Navigator::open(&r, 5).unwrap();
    nav.on_key(&Key::Down, &mut r, SIZE);
    match nav.on_key(&Key::Char('\n'), &mut r, SIZE) {
        NavAction::Attach { id } => assert_eq!(id, "b"),
        _ => panic!("did not attach"),
    }
    match nav.on_key(&Key::Char('\r'), &mut r, SIZE) {
        NavAction::Attach { id } => assert_eq!(id, "b"),
        _ => panic!("did not attach"),
    }
    assert_eq!(r.len(), 3);
}

#[test]
fn escape_exits_without_side_effects() {
    let mut r = three();
    let mut nav = Navigator::open(&r, 5).unwrap();
    nav.on_key(&Key::Down, &mut r, SIZE);
    assert!(matches!(nav.on_key(&Key::Esc, &mut r, SIZE), NavAction::Exit));
    assert_eq!(nav.selected, 1);
    assert_eq!(
        r.sessions(),
        vec![
            (String::from("a"), Handle::new(1)),
            (String::from("b"), Handle::new(2)),
            (String::from("c"), Handle::new(3))
        ]
    );
}

#[test]
fn delete_removes_cancels_and_steps_back() {
    let mut r = three();
    let mut nav = Navigator::open(&r, 5).unwrap();
    nav.on_key(&Key::Down, &mut r, SIZE);
    match nav.on_key(&Key::Delete, &mut r, SIZE) {
        NavAction::Removed { handle, exit } => {
            assert_eq!(handle, Handle { conn: 2, raw_mode: false, cancelled: true });
            assert!(!exit);
        },
        _ => panic!("nothing was removed"),
    }
    assert_eq!(nav.selected, 0);
    assert_eq!(ids(&r), vec!["a", "c"]);
    match nav.on_key(&Key::Backspace, &mut r, SIZE) {
        NavAction::Removed { handle, exit } => {
            assert_eq!(handle.conn, 1);
            assert!(handle.cancelled);
            assert!(!exit);
        },
        _ => panic!("nothing was removed"),
    }
    assert_eq!(nav.selected, 0);
    assert_eq!(ids(&r), vec!["c"]);
}

#[test]
fn deleting_the_last_session_exits() {
    let mut r = Registry::new();
    r.insert(String::from("only"), Handle::new(1));
    let mut nav = Navigator::open(&r, 5).unwrap();
    match nav.on_key(&Key::Delete, &mut r, SIZE) {
        NavAction::Removed { handle, exit } => {
            assert!(handle.cancelled);
            assert!(exit);
        },
        _ => panic!("nothing was removed"),
    }
    assert!(r.is_empty());
    assert!(matches!(nav.on_key(&Key::Down, &mut r, SIZE), NavAction::Exit));
    assert!(matches!(nav.on_key(&Key::Delete, &mut r, SIZE), NavAction::Exit));
}

#[test]
fn r_toggles_raw_mode_of_the_selected_session() {
    let mut r = three();
    let mut nav = Navigator::open(&r, 5).unwrap();
    nav.on_key(&Key::Down, &mut r, SIZE);
    nav.on_key(&Key::Down, &mut r, SIZE);
    assert!(matches!(nav.on_key(&Key::Char('r'), &mut r, SIZE), NavAction::Redraw));
    assert_eq!(r.get(&String::from("c")), Some(Handle { conn: 3, raw_mode: true, cancelled: false }));
    assert_eq!(r.get(&String::from("a")), Some(Handle::new(1)));
    nav.on_key(&Key::Char('r'), &mut r, SIZE);
    assert_eq!(r.get(&String::from("c")), Some(Handle::new(3)));
}

#[test]
fn a_opens_the_rename_line_in_the_entry_row() {
    let mut r = three();
    let mut nav = Navigator::open(&r, 5).unwrap();
    nav.on_key(&Key::Down, &mut r, SIZE);
    match nav.on_key(&Key::Char('a'), &mut r, SIZE) {
        NavAction::Rename { id, row } => {
            assert_eq!(id, "b");
            assert_eq!(row, 6);
        },
        _ => panic!("rename did not open"),
    }
    let mut nav = Navigator::open(&r, 23).unwrap();
    nav.on_key(&Key::Down, &mut r, SIZE);
    nav.on_key(&Key::Down, &mut r, SIZE);
    match nav.on_key(&Key::Char('a'), &mut r, SIZE) {
        NavAction::Rename { id, row } => {
            assert_eq!(id, "c");
            assert_eq!(row, 22);
        },
        _ => panic!("rename did not open"),
    }
}

#[test]
fn other_keys_only_redraw() {
    let mut r = three();
    let mut nav = Navigator::open(&r, 5).unwrap();
    for key in [Key::Char('x'), Key::Left, Key::F(2), Key::Ctrl('b'), Key::Alt('a'), Key::Null] {
        assert!(matches!(nav.on_key(&key, &mut r, SIZE), NavAction::Redraw));
    }
    assert_eq!(nav.selected, 0);
    assert_eq!(r.len(), 3);
}

#[test]
fn selection_follows_a_registry_that_shrank() {
    let mut r = three();
    let mut nav = Navigator { selected: 2, anchor: 5 };
    r.remove(&String::from("c"));
    r.remove(&String::from("b"));
    match nav.on_key(&Key::Char('\n'), &mut r, SIZE) {
        NavAction::Attach { id } => assert_eq!(id, "a"),
        _ => panic!("did not attach"),
    }
    assert_eq!(nav.selected, 0);
}

fn type_text(editor: &mut AliasEditor, r: &mut Registry, text: &str) {
    for c in text.chars() {
        assert_eq!(editor.on_key(&Key::Char(c), r), AliasAction::Redraw);
    }
}

#[test]
fn alias_commit_renames_the_session() {
    let mut r = three();
    let mut editor = AliasEditor::new(String::from("b"));
    assert_eq!(editor.input, "");
    assert_eq!(editor.prompt, AliasPrompt::Enter);
    type_text(&mut editor, &mut r, "web");
    assert_eq!(editor.input, "web");
    assert_eq!(editor.on_key(&Key::Char('\n'), &mut r), AliasAction::Renamed);
    assert_eq!(ids(&r), vec!["a", "web", "c"]);
    assert_eq!(r.get(&String::from("web")), Some(Handle::new(2)));
}

#[test]
fn alias_rejects_empty_input_and_asks_again() {
    let mut r = three();
    let mut editor = AliasEditor::new(String::from("b"));
    assert_eq!(editor.on_key(&Key::Char('\r'), &mut r), AliasAction::Redraw);
    assert_eq!(editor.prompt, AliasPrompt::Empty);
    assert_eq!(ids(&r), vec!["a", "b", "c"]);
    type_text(&mut editor, &mut r, "x");
    assert_eq!(editor.prompt, AliasPrompt::Enter);
    assert_eq!(editor.on_key(&Key::Char('\n'), &mut r), AliasAction::Renamed);
    assert_eq!(ids(&r), vec!["a", "x", "c"]);
}

#[test]
fn alias_rejects_an_existing_id_and_clears_the_input() {
    let mut r = three();
    let mut editor = AliasEditor::new(String::from("b"));
    type_text(&mut editor, &mut r, "c");
    assert_eq!(editor.on_key(&Key::Char('\n'), &mut r), AliasAction::Redraw);
    assert_eq!(editor.prompt, AliasPrompt::Exists);
    assert_eq!(editor.input, "");
    assert_eq!(
        r.sessions(),
        vec![
            (String::from("a"), Handle::new(1)),
            (String::from("b"), Handle::new(2)),
            (String::from("c"), Handle::new(3))
        ]
    );
    type_text(&mut editor, &mut r, "b");
    assert_eq!(editor.on_key(&Key::Char('\n'), &mut r), AliasAction::Redraw);
    assert_eq!(editor.prompt, AliasPrompt::Exists);
}

#[test]
fn alias_backspace_edits_whole_characters() {
    let mut r = three();
    let mut editor = AliasEditor::new(String::from("b"));
    type_text(&mut editor, &mut r, "aé🦀");
    assert_eq!(editor.on_key(&Key::Backspace, &mut r), AliasAction::Redraw);
    assert_eq!(editor.input, "aé");
    assert_eq!(editor.on_key(&Key::Delete, &mut r), AliasAction::Redraw);
    assert_eq!(editor.input, "a");
    editor.on_key(&Key::Backspace, &mut r);
    editor.on_key(&Key::Backspace, &mut r);
    assert_eq!(editor.input, "");
}

#[test]
fn alias_escape_aborts_without_changes() {
    let mut r = three();
    let mut editor = AliasEditor::new(String::from("b"));
    type_text(&mut editor, &mut r, "zzz");
    assert_eq!(editor.on_key(&Key::Esc, &mut r), AliasAction::Aborted);
    assert_eq!(ids(&r), vec!["a", "b", "c"]);
}

#[test]
fn alias_for_a_vanished_session_changes_nothing() {
    let mut r = three();
    let mut editor = AliasEditor::new(String::from("b"));
    type_text(&mut editor, &mut r, "new");
    r.remove(&String::from("b"));
    assert_eq!(editor.on_key(&Key::Char('\n'), &mut r), AliasAction::Gone);
    assert_eq!(ids(&r), vec!["a", "c"]);
}

#[test]
fn alias_ignores_other_keys() {
    let mut r = three();
    let mut editor = AliasEditor::new(String::from("b"));
    type_text(&mut editor, &mut r, "n");
    for key in [Key::Up, Key::Left, Key::F(1), Key::Ctrl('c'), Key::Alt('x')] {
        assert_eq!(editor.on_key(&key, &mut r), AliasAction::Redraw);
    }
    assert_eq!(editor.input, "n");
    assert_eq!(editor.prompt, AliasPrompt::Enter);
}
