//! The session list: selecting, attaching, deleting and renaming sessions.
//!
//! The navigator looks the registry up afresh at every key, so it holds no
//! copy that could go stale while it waits for the operator. The caller reads
//! the keys and draws; `Navigator::on_key` and `AliasEditor::on_key` decide.

use crate::controller::Size;
use crate::keys::Key;
use crate::registry::{rename_check, Registry, RenameError};
use crate::screen::{layout, layout_of, AliasPrompt};
use crate::session::Handle;
use vstd::prelude::*;

verus! {

/// What the caller is to do after a key.
#[derive(Clone, Debug, PartialEq, Eq)]
pub enum NavAction {
    /// Draw the list again.
    Redraw,
    /// Send `start` to the controller of session `id`, wait until it
    /// releases the foreground, then leave the navigator.
    Attach { id: String },
    /// A session was removed: fire the cancellation handle that `handle`
    /// names. Then draw the list again, or, when `exit` is set because no
    /// session is left, leave the navigator and release the foreground.
    Removed { handle: Handle, exit: bool },
    /// Open the rename line for session `id` in row `row`.
    Rename { id: String, row: u16 },
    /// Leave the navigator and release the foreground.
    Exit,
}

pub enum NavActionView {
    Redraw,
    Attach { id: Seq<char> },
    Removed { handle: Handle, exit: bool },
    Rename { id: Seq<char>, row: u16 },
    Exit,
}

impl View for NavAction {
    type V = NavActionView;

    open spec fn view(&self) -> NavActionView {
        match *self {
            NavAction::Redraw => NavActionView::Redraw,
            NavAction::Attach { id } => NavActionView::Attach { id: id@ },
            NavAction::Removed { handle, exit } => NavActionView::Removed { handle, exit },
            NavAction::Rename { id, row } => NavActionView::Rename { id: id@, row },
            NavAction::Exit => NavActionView::Exit,
        }
    }
}

/// Whether `key` is Enter.
pub open spec fn is_enter_key(key: Key) -> bool {
    key == Key::Char('\n') || key == Key::Char('\r')
}

/// Whether `key` removes: Delete or Backspace.
pub open spec fn is_remove_key(key: Key) -> bool {
    key == Key::Delete || key == Key::Backspace
}

/// The row in which the rename line for entry `index` opens: the entry's own
/// row, or the list's first row for an entry that is not drawn.
pub open spec fn rename_row(anchor: u16, count: nat, size: Size, index: int) -> u16 {
    let at = layout_of(anchor, count, size);
    if index < at.visible {
        (at.top + index) as u16
    } else {
        at.top
    }
}

/// The navigator's own state.
#[derive(Clone, Copy, Debug, PartialEq, Eq, Structural)]
pub struct Navigator {
    /// The slot of the selected entry.
    pub selected: usize,
    /// The cursor's row when the navigator opened.
    pub anchor: u16,
}

impl Navigator {
    /// The selected slot in a list of `count` entries, where `count > 0`:
    /// the selection, held within the list.
    pub open spec fn cursor(self, count: nat) -> int {
        if self.selected < count {
            self.selected as int
        } else {
            count - 1
        }
    }

    /// The selection after `key` in a list of `count` entries. Up and Down
    /// move it by one and stop at the ends; a removal moves it back by one
    /// unless it stands on the first entry.
    pub open spec fn after(self, key: Key, count: nat) -> Navigator {
        if count == 0 {
            self
        } else {
            let cur = self.cursor(count);
            let selected = if key == Key::Up || is_remove_key(key) {
                if cur > 0 {
                    cur - 1
                } else {
                    0
                }
            } else if key == Key::Down {
                if cur < count - 1 {
                    cur + 1
                } else {
                    cur
                }
            } else {
                cur
            };
            Navigator { selected: selected as usize, anchor: self.anchor }
        }
    }

    /// The sessions after `key`.
    pub open spec fn sessions_after(
        self,
        key: Key,
        sessions: Map<Seq<char>, Handle>,
        order: Seq<Seq<char>>,
    ) -> Map<Seq<char>, Handle> {
        if order.len() == 0 {
            sessions
        } else {
            let id = order[self.cursor(order.len())];
            if is_remove_key(key) {
                sessions.remove(id)
            } else if key == Key::Char('r') {
                sessions.insert(id, sessions[id].with_raw_mode(!sessions[id].raw_mode))
            } else {
                sessions
            }
        }
    }

    /// The listing order after `key`.
    pub open spec fn order_after(self, key: Key, order: Seq<Seq<char>>) -> Seq<Seq<char>> {
        if order.len() > 0 && is_remove_key(key) {
            order.remove(self.cursor(order.len()))
        } else {
            order
        }
    }

    /// What `key` asks of the caller.
    pub open spec fn reaction(
        self,
        key: Key,
        sessions: Map<Seq<char>, Handle>,
        order: Seq<Seq<char>>,
        size: Size,
    ) -> NavActionView {
        if order.len() == 0 || key == Key::Esc {
            NavActionView::Exit
        } else {
            let cur = self.cursor(order.len());
            let id = order[cur];
            if is_enter_key(key) {
                NavActionView::Attach { id }
            } else if is_remove_key(key) {
                NavActionView::Removed { handle: sessions[id].cancel(), exit: order.len() == 1 }
            } else if key == Key::Char('a') {
                NavActionView::Rename { id, row: rename_row(self.anchor, order.len(), size, cur) }
            } else {
                NavActionView::Redraw
            }
        }
    }

    /// Opens the navigator on `registry`, with the cursor in row `anchor`
    /// and the first entry selected. There is nothing to open on an empty
    /// registry.
    pub fn open(registry: &Registry, anchor: u16) -> (nav: Option<Navigator>)
        requires
            registry.valid(),
        ensures
            nav is Some <==> registry.order().len() > 0,
            nav is Some ==> nav->0 == (Navigator { selected: 0, anchor }),
    {
        if registry.is_empty() {
            None
        } else {
            Some(Navigator { selected: 0, anchor })
        }
    }

    /// Takes one key.
    ///
    /// Escape leaves. Up and Down move the selection within the list. Enter
    /// attaches to the selected session. Delete and Backspace remove it from
    /// the registry, cancelled, and leave when it was the last one. `r` flips
    /// its raw-mode preference. `a` opens the rename line in its row. Any
    /// other key only draws the list again. With no session left in the
    /// registry every key leaves.
    pub fn on_key(&mut self, key: &Key, registry: &mut Registry, size: Size) -> (action: NavAction)
        requires
            old(registry).valid(),
        ensures
            final(registry).valid(),
            *final(self) == old(self).after(*key, old(registry).order().len()),
            action@ == old(self).reaction(*key, old(registry)@, old(registry).order(), size),
            final(registry)@ == old(self).sessions_after(
                *key,
                old(registry)@,
                old(registry).order(),
            ),
            final(registry).order() == old(self).order_after(*key, old(registry).order()),
            final(registry).order().len() > 0 ==> final(self).selected < final(registry).order().len(),
    {
        let count = registry.len();
        if count == 0 {
            return NavAction::Exit;
        }
        let cur: usize = if self.selected < count {
            self.selected
        } else {
            count - 1
        };
        self.selected = cur;
        if let Key::Esc = key {
            return NavAction::Exit;
        }
        let id = registry.id_at(cur);
        proof {
            registry.lemma_order();
            assert(registry.order().index_of(id@) == cur);
        }
        match key {
            Key::Up => {
                if cur > 0 {
                    self.selected = cur - 1;
                }
                NavAction::Redraw
            },
            Key::Down => {
                if cur < count - 1 {
                    self.selected = cur + 1;
                }
                NavAction::Redraw
            },
            Key::Delete | Key::Backspace => {
                let removed = registry.remove(&id);
                if cur > 0 {
                    self.selected = cur - 1;
                }
                match removed {
                    Some(handle) => NavAction::Removed { handle, exit: count == 1 },
                    None => NavAction::Redraw,
                }
            },
            Key::Char(c) => {
                if *c == '\n' || *c == '\r' {
                    NavAction::Attach { id }
                } else if *c == 'r' {
                    registry.toggle_raw_mode(&id);
                    NavAction::Redraw
                } else if *c == 'a' {
                    let at = layout(self.anchor, count, size);
                    let row: u16 = if cur < at.visible {
                        at.top + cur as u16
                    } else {
                        at.top
                    };
                    NavAction::Rename { id, row }
                } else {
                    NavAction::Redraw
                }
            },
            _ => NavAction::Redraw,
        }
    }
}

/// How a key ends or continues the rename line.
#[derive(Clone, Copy, Debug, PartialEq, Eq, Structural)]
pub enum AliasAction {
    /// Draw the rename line again and go on.
    Redraw,
    /// The session has its new id; the rename line closes.
    Renamed,
    /// The operator gave up; nothing changed.
    Aborted,
    /// The session is no longer registered; nothing changed.
    Gone,
}

/// The rename line for one session.
#[derive(Clone, Debug, PartialEq, Eq)]
pub struct AliasEditor {
    /// The id of the session to rename.
    pub target: String,
    /// What was typed so far.
    pub input: String,
    /// The prompt to show.
    pub prompt: AliasPrompt,
}

/// The view of a rename line.
pub struct AliasView {
    pub target: Seq<char>,
    pub input: Seq<char>,
    pub prompt: AliasPrompt,
}

impl View for AliasEditor {
    type V = AliasView;

    open spec fn view(&self) -> AliasView {
        AliasView { target: self.target@, input: self.input@, prompt: self.prompt }
    }
}

impl AliasView {
    /// What Enter does with the input: the verdict of the rename.
    pub open spec fn verdict(self, sessions: Map<Seq<char>, Handle>) -> Result<(), RenameError> {
        rename_check(sessions, self.target, self.input)
    }

    /// The rename line after `key`. A character is added to the input,
    /// Backspace and Delete take the last one off. Enter on an empty input
    /// asks again; Enter on an id that is taken clears the input and asks
    /// again.
    pub open spec fn after(self, key: Key, sessions: Map<Seq<char>, Handle>) -> AliasView {
        match key {
            Key::Char(c) => if is_enter_key(key) {
                match self.verdict(sessions) {
                    Err(RenameError::Empty) => AliasView {
                        target: self.target,
                        input: self.input,
                        prompt: AliasPrompt::Empty,
                    },
                    Err(RenameError::Exists) => AliasView {
                        target: self.target,
                        input: Seq::<char>::empty(),
                        prompt: AliasPrompt::Exists,
                    },
                    _ => self,
                }
            } else {
                AliasView { target: self.target, input: self.input.push(c), prompt: AliasPrompt::Enter }
            },
            Key::Backspace | Key::Delete => AliasView {
                target: self.target,
                input: if self.input.len() > 0 {
                    self.input.drop_last()
                } else {
                    self.input
                },
                prompt: AliasPrompt::Enter,
            },
            Key::Esc => self,
            _ => AliasView { target: self.target, input: self.input, prompt: AliasPrompt::Enter },
        }
    }

    /// What `key` asks of the caller.
    pub open spec fn reaction(self, key: Key, sessions: Map<Seq<char>, Handle>) -> AliasAction {
        if key == Key::Esc {
            AliasAction::Aborted
        } else if is_enter_key(key) {
            match self.verdict(sessions) {
                Ok(_) => AliasAction::Renamed,
                Err(RenameError::NotFound) => AliasAction::Gone,
                Err(_) => AliasAction::Redraw,
            }
        } else {
            AliasAction::Redraw
        }
    }

    /// Whether `key` renames the session.
    pub open spec fn renames(self, key: Key, sessions: Map<Seq<char>, Handle>) -> bool {
        is_enter_key(key) && self.verdict(sessions) is Ok
    }
}

impl AliasEditor {
    /// The rename line for session `target`, with nothing typed yet.
    pub fn new(target: String) -> (editor: AliasEditor)
        ensures
            editor@ == (AliasView {
                target: target@,
                input: Seq::<char>::empty(),
                prompt: AliasPrompt::Enter,
            }),
    {
        AliasEditor { target, input: String::new(), prompt: AliasPrompt::Enter }
    }

    /// Takes one key. The registry changes only when Enter is pressed on an
    /// input that is not empty and names no session, while the session to
    /// rename is still registered: then that session moves to the new id.
    pub fn on_key(&mut self, key: &Key, registry: &mut Registry) -> (action: AliasAction)
        requires
            old(registry).valid(),
        ensures
            final(registry).valid(),
            final(self)@ == old(self)@.after(*key, old(registry)@),
            action == old(self)@.reaction(*key, old(registry)@),
            old(self)@.renames(*key, old(registry)@) ==> {
                &&& final(registry)@ == old(registry)@.remove(old(self).target@).insert(
                    old(self).input@,
                    old(registry)@[old(self).target@],
                )
                &&& final(registry).order() == old(registry).order().update(
                    old(registry).order().index_of(old(self).target@),
                    old(self).input@,
                )
            },
            !old(self)@.renames(*key, old(registry)@) ==> *final(registry) == *old(registry),
    {
        match key {
            Key::Char(c) => {
                if *c == '\n' || *c == '\r' {
                    match registry.rename(&self.target, self.input.clone()) {
                        Ok(_) => AliasAction::Renamed,
                        Err(RenameError::Empty) => {
                            self.prompt = AliasPrompt::Empty;
                            AliasAction::Redraw
                        },
                        Err(RenameError::Exists) => {
                            self.input = String::new();
                            self.prompt = AliasPrompt::Exists;
                            AliasAction::Redraw
                        },
                        Err(RenameError::NotFound) => AliasAction::Gone,
                    }
                } else {
                    self.input.push(*c);
                    self.prompt = AliasPrompt::Enter;
                    AliasAction::Redraw
                }
            },
            Key::Backspace | Key::Delete => {
                self.input.pop();
                self.prompt = AliasPrompt::Enter;
                AliasAction::Redraw
            },
            Key::Esc => AliasAction::Aborted,
            _ => {
                self.prompt = AliasPrompt::Enter;
                AliasAction::Redraw
            },
        }
    }
}

} // verus!
