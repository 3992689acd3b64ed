//! The attach/detach protocol of one session.
//!
//! A controller lives as long as its session. It starts detached, attaches on
//! `start`, detaches when the operator asks for it, and ends for good on
//! `delete`. While attached it turns operator input into the bytes to forward
//! and hands remote output to the display. The caller performs what each step
//! returns.

use crate::keys::Key;
use crate::session::Signal;
use crate::text::{chars_of, decimal, push_decimal, trim_end, trimmed_len};
use vstd::prelude::*;
use vstd::string::*;
use vstd::utf8::encode_utf8;

verus! {

/// Where a controller stands in its session's life.
#[derive(Clone, Copy, Debug, PartialEq, Eq, Structural)]
pub enum Phase {
    Detached,
    Attached,
    /// The session was deleted; the controller never acts again.
    Terminated,
}

/// The size of the operator's terminal.
#[derive(Clone, Copy, Debug, PartialEq, Eq, Structural)]
pub struct Size {
    pub rows: u16,
    pub cols: u16,
}

/// What a controller reacts to.
#[derive(Clone, Debug, PartialEq, Eq)]
pub enum Event {
    /// `start` was delivered. `raw_mode` is the session's preference at that
    /// moment, `size` the terminal's size where it is known.
    Start { raw_mode: bool, size: Option<Size> },
    /// `quit` was delivered.
    Quit,
    /// `delete` was delivered.
    Delete,
    /// The operator pressed a key (raw mode).
    Key(Key),
    /// The operator submitted a line, given without its line end (cooked
    /// mode).
    Line(String),
    /// Text arrived from the remote side.
    Remote(String),
}

pub enum EventView {
    Start { raw_mode: bool, size: Option<Size> },
    Quit,
    Delete,
    Key(Key),
    Line(Seq<char>),
    Remote(Seq<char>),
}

impl View for Event {
    type V = EventView;

    open spec fn view(&self) -> EventView {
        match *self {
            Event::Start { raw_mode, size } => EventView::Start { raw_mode, size },
            Event::Quit => EventView::Quit,
            Event::Delete => EventView::Delete,
            Event::Key(k) => EventView::Key(k),
            Event::Line(s) => EventView::Line(s@),
            Event::Remote(s) => EventView::Remote(s@),
        }
    }
}

/// What the caller is to do after a step.
#[derive(Clone, Debug, PartialEq, Eq)]
pub enum Action {
    /// Nothing.
    Idle,
    /// The controller now owns the terminal: begin forwarding operator input
    /// and relaying remote output. `announce`, where present, is forwarded
    /// first.
    Attach { announce: Option<Vec<u8>> },
    /// Forward these bytes to the remote side.
    Forward(Vec<u8>),
    /// Write `text` to the display, after clearing the current line when
    /// `clear_line` is set.
    Show { text: String, clear_line: bool },
    /// The operator detached: send `quit`, release the foreground, and
    /// forward `forward`.
    Detach { forward: Vec<u8> },
    /// The session is deleted: fire its cancellation handle, and release the
    /// foreground when `release` is set.
    Terminate { release: bool },
}

pub enum ActionView {
    Idle,
    Attach { announce: Option<Seq<u8>> },
    Forward(Seq<u8>),
    Show { text: Seq<char>, clear_line: bool },
    Detach { forward: Seq<u8> },
    Terminate { release: bool },
}

impl View for Action {
    type V = ActionView;

    open spec fn view(&self) -> ActionView {
        match *self {
            Action::Idle => ActionView::Idle,
            Action::Attach { announce } => ActionView::Attach {
                announce: match announce {
                    Some(b) => Some(b@),
                    None => None,
                },
            },
            Action::Forward(b) => ActionView::Forward(b@),
            Action::Show { text, clear_line } => ActionView::Show { text: text@, clear_line },
            Action::Detach { forward } => ActionView::Detach { forward: forward@ },
            Action::Terminate { release } => ActionView::Terminate { release },
        }
    }
}

impl ActionView {
    /// Whether the action hands the foreground back.
    pub open spec fn releases(self) -> bool {
        match self {
            ActionView::Detach { .. } => true,
            ActionView::Terminate { release } => release,
            _ => false,
        }
    }

    /// Whether the action sends anything to the remote side.
    pub open spec fn forwards(self) -> bool {
        match self {
            ActionView::Forward(_) => true,
            ActionView::Attach { announce } => announce is Some,
            ActionView::Detach { .. } => true,
            _ => false,
        }
    }
}

/// The line that detaches in cooked mode.
pub open spec fn detach_word() -> Seq<char> {
    seq!['b', 'a', 'c', 'k']
}

/// The command that tells the remote side the size of the local terminal.
pub open spec fn resize_command(size: Size) -> Seq<char> {
    "\nstty rows "@ + decimal(size.rows as nat) + " cols "@ + decimal(size.cols as nat) + "\n"@
}

/// What is forwarded for a submitted line: the line and a line feed, as
/// UTF-8.
pub open spec fn line_bytes(line: Seq<char>) -> Seq<u8> {
    encode_utf8(line.push('\n'))
}

/// What is forwarded on detach: one line feed.
pub open spec fn detach_bytes() -> Seq<u8> {
    seq![0x0Au8]
}

/// The state of one session's controller.
#[derive(Clone, Copy, Debug, PartialEq, Eq, Structural)]
pub struct Controller {
    pub phase: Phase,
    /// The mode of the current attachment, or of the last one.
    pub raw_mode: bool,
    /// Whether remote output is relayed to the display.
    pub relaying: bool,
}

impl Controller {
    pub open spec fn initial() -> Controller {
        Controller { phase: Phase::Detached, raw_mode: false, relaying: false }
    }

    /// Whether `event` is the operator's request to detach: Ctrl-B in raw
    /// mode, the line `back` in cooked mode.
    pub open spec fn detaches(self, event: EventView) -> bool {
        self.phase == Phase::Attached && match event {
            EventView::Key(k) => self.raw_mode && k.is_detach(),
            EventView::Line(l) => !self.raw_mode && trim_end(l) == detach_word(),
            _ => false,
        }
    }

    /// The state after `event`.
    pub open spec fn next(self, event: EventView) -> Controller {
        if self.phase == Phase::Terminated {
            self
        } else if self.detaches(event) {
            Controller { phase: Phase::Detached, raw_mode: self.raw_mode, relaying: false }
        } else {
            match event {
                EventView::Delete => Controller {
                    phase: Phase::Terminated,
                    raw_mode: self.raw_mode,
                    relaying: false,
                },
                EventView::Start { raw_mode, size } => if self.phase == Phase::Detached {
                    Controller { phase: Phase::Attached, raw_mode, relaying: true }
                } else {
                    self
                },
                EventView::Quit => Controller {
                    phase: self.phase,
                    raw_mode: self.raw_mode,
                    relaying: false,
                },
                _ => self,
            }
        }
    }

    /// What `event` asks of the caller.
    pub open spec fn reaction(self, event: EventView) -> ActionView {
        if self.phase == Phase::Terminated {
            ActionView::Idle
        } else if self.detaches(event) {
            ActionView::Detach { forward: detach_bytes() }
        } else {
            match event {
                EventView::Delete => ActionView::Terminate {
                    release: self.phase == Phase::Attached,
                },
                EventView::Start { raw_mode, size } => if self.phase == Phase::Detached {
                    ActionView::Attach {
                        announce: if raw_mode && size is Some {
                            Some(encode_utf8(resize_command(size->0)))
                        } else {
                            None
                        },
                    }
                } else {
                    ActionView::Idle
                },
                EventView::Quit => ActionView::Idle,
                EventView::Key(k) => if self.phase == Phase::Attached && self.raw_mode && k.bytes() is Some {
                    ActionView::Forward(k.bytes()->0)
                } else {
                    ActionView::Idle
                },
                EventView::Line(l) => if self.phase == Phase::Attached && !self.raw_mode {
                    ActionView::Forward(line_bytes(l))
                } else {
                    ActionView::Idle
                },
                EventView::Remote(text) => if self.phase == Phase::Attached && self.relaying {
                    ActionView::Show { text, clear_line: !self.raw_mode }
                } else {
                    ActionView::Idle
                },
            }
        }
    }

    /// A controller for a session that was just registered: detached.
    pub fn new() -> (c: Controller)
        ensures
            c == Controller::initial(),
    {
        Controller { phase: Phase::Detached, raw_mode: false, relaying: false }
    }

    /// Whether the controller owns the terminal.
    pub fn is_attached(&self) -> (b: bool)
        ensures
            b == (self.phase == Phase::Attached),
    {
        match self.phase {
            Phase::Attached => true,
            _ => false,
        }
    }

    /// Takes one event. The foreground is released exactly when an
    /// attachment ends, and nothing is forwarded unless the controller was
    /// attached or has just attached.
    pub fn step(&mut self, event: Event) -> (action: Action)
        ensures
            *final(self) == old(self).next(event@),
            action@ == old(self).reaction(event@),
            action@.releases() <==> old(self).phase == Phase::Attached && final(self).phase
                != Phase::Attached,
            action@.forwards() ==> old(self).phase == Phase::Attached || final(self).phase
                == Phase::Attached,
    {
        let attached = self.is_attached();
        if let Phase::Terminated = self.phase {
            return Action::Idle;
        }
        match event {
            Event::Delete => {
                self.phase = Phase::Terminated;
                self.relaying = false;
                Action::Terminate { release: attached }
            },
            Event::Start { raw_mode, size } => {
                if attached {
                    return Action::Idle;
                }
                self.phase = Phase::Attached;
                self.raw_mode = raw_mode;
                self.relaying = true;
                let announce = match size {
                    Some(size) if raw_mode => Some(resize_bytes(size)),
                    _ => None,
                };
                Action::Attach { announce }
            },
            Event::Quit => {
                self.relaying = false;
                Action::Idle
            },
            Event::Key(key) => {
                if !attached || !self.raw_mode {
                    return Action::Idle;
                }
                if crate::keys::is_detach_key(&key) {
                    return self.detach();
                }
                match crate::keys::encode_key(&key) {
                    Some(bytes) => Action::Forward(bytes),
                    None => Action::Idle,
                }
            },
            Event::Line(line) => {
                if !attached || self.raw_mode {
                    return Action::Idle;
                }
                if is_detach_line(line.as_str()) {
                    return self.detach();
                }
                let mut line = line;
                line.push('\n');
                Action::Forward(line.as_str().as_bytes_vec())
            },
            Event::Remote(text) => {
                if attached && self.relaying {
                    Action::Show { text, clear_line: !self.raw_mode }
                } else {
                    Action::Idle
                }
            },
        }
    }

    fn detach(&mut self) -> (action: Action)
        requires
            old(self).phase == Phase::Attached,
        ensures
            *final(self) == (Controller {
                phase: Phase::Detached,
                raw_mode: old(self).raw_mode,
                relaying: false,
            }),
            action@ == (ActionView::Detach { forward: detach_bytes() }),
    {
        self.phase = Phase::Detached;
        self.relaying = false;
        let mut forward: Vec<u8> = Vec::new();
        forward.push(0x0A);
        assert(forward@ == detach_bytes());
        Action::Detach { forward }
    }
}

/// The event that the delivery of `signal` is to a controller. For `start`
/// the session's raw-mode preference and the terminal's size go with it.
pub fn signal_event(signal: Signal, raw_mode: bool, size: Option<Size>) -> (event: Event)
    ensures
        event@ == match signal {
            Signal::Start => EventView::Start { raw_mode, size },
            Signal::Quit => EventView::Quit,
            Signal::Delete => EventView::Delete,
        },
{
    match signal {
        Signal::Start => Event::Start { raw_mode, size },
        Signal::Quit => Event::Quit,
        Signal::Delete => Event::Delete,
    }
}

/// Whether a submitted line asks to detach: `back`, with or without white
/// space after it.
pub fn is_detach_line(line: &str) -> (b: bool)
    ensures
        b == (trim_end(line@) == detach_word()),
{
    let chars = chars_of(line);
    let n = trimmed_len(&chars);
    if n == 4 && chars[0] == 'b' && chars[1] == 'a' && chars[2] == 'c' && chars[3] == 'k' {
        assert(chars@.take(4) == detach_word());
        true
    } else {
        assert(chars@.take(n as int).len() == n);
        if n == 4 {
            assert(chars@.take(4)[0] == chars@[0]);
            assert(chars@.take(4)[1] == chars@[1]);
            assert(chars@.take(4)[2] == chars@[2]);
            assert(chars@.take(4)[3] == chars@[3]);
        }
        false
    }
}

/// The resize command for `size`, as text.
pub fn resize_text(size: Size) -> (s: String)
    ensures
        s@ == resize_command(size),
{
    let mut s = String::from_str("\nstty rows ");
    push_decimal(&mut s, size.rows);
    s.append(" cols ");
    push_decimal(&mut s, size.cols);
    s.append("\n");
    s
}

/// The resize command for `size`, as the bytes to forward.
pub fn resize_bytes(size: Size) -> (b: Vec<u8>)
    ensures
        b@ == encode_utf8(resize_command(size)),
{
    resize_text(size).as_str().as_bytes_vec()
}

/// The state that a run of events leaves a controller in.
pub open spec fn run(start: Controller, events: Seq<EventView>) -> Controller
    decreases events.len(),
{
    if events.len() == 0 {
        start
    } else {
        run(start, events.drop_last()).next(events.last())
    }
}

/// How often a run of events releases the foreground.
pub open spec fn releases(start: Controller, events: Seq<EventView>) -> nat
    decreases events.len(),
{
    if events.len() == 0 {
        0
    } else {
        let before = run(start, events.drop_last());
        releases(start, events.drop_last()) + if before.reaction(events.last()).releases() {
            1nat
        } else {
            0nat
        }
    }
}

/// How often a run of events attaches the controller.
pub open spec fn attaches(start: Controller, events: Seq<EventView>) -> nat
    decreases events.len(),
{
    if events.len() == 0 {
        0
    } else {
        let before = run(start, events.drop_last());
        attaches(start, events.drop_last()) + if before.reaction(events.last()) is Attach {
            1nat
        } else {
            0nat
        }
    }
}

/// Over any run of events, a detached controller releases the foreground
/// once for each attachment that has ended: as often as it attached, less
/// one while it is still attached. So no release is missed and none is
/// doubled.
pub proof fn lemma_one_release_per_attachment(events: Seq<EventView>)
    ensures
        releases(Controller::initial(), events) + (if run(Controller::initial(), events).phase
            == Phase::Attached {
            1nat
        } else {
            0nat
        }) == attaches(Controller::initial(), events),
    decreases events.len(),
{
    if events.len() > 0 {
        lemma_one_release_per_attachment(events.drop_last());
    }
}

/// `start` attaches a detached controller, and from then on operator input
/// is forwarded: in raw mode every key of the encoding table, in cooked mode
/// every line but the detach word.
pub proof fn lemma_start_begins_forwarding(
    c: Controller,
    raw_mode: bool,
    size: Option<Size>,
    key: Key,
    line: Seq<char>,
)
    requires
        c.phase == Phase::Detached,
    ensures
        c.reaction(EventView::Start { raw_mode, size }) is Attach,
        c.next(EventView::Start { raw_mode, size }).phase == Phase::Attached,
        raw_mode && key.bytes() is Some ==> c.next(EventView::Start { raw_mode, size }).reaction(
            EventView::Key(key),
        ) == ActionView::Forward(key.bytes()->0),
        !raw_mode && trim_end(line) != detach_word() ==> c.next(
            EventView::Start { raw_mode, size },
        ).reaction(EventView::Line(line)) == ActionView::Forward(line_bytes(line)),
{
}

/// The detach trigger ends the attachment with one release, and after it
/// operator input is no longer forwarded and remote output no longer shown.
pub proof fn lemma_detach_stops_forwarding(c: Controller, trigger: EventView, later: EventView)
    requires
        c.detaches(trigger),
        later is Key || later is Line || later is Remote,
    ensures
        c.reaction(trigger) == (ActionView::Detach { forward: detach_bytes() }),
        c.reaction(trigger).releases(),
        c.next(trigger).phase == Phase::Detached,
        c.next(trigger).reaction(later) == ActionView::Idle,
        !c.next(trigger).reaction(trigger).releases(),
{
}

/// Once the session is deleted the controller asks for nothing more.
pub proof fn lemma_terminated_is_final(c: Controller, later: EventView)
    ensures
        c.next(EventView::Delete).phase == Phase::Terminated,
        c.next(EventView::Delete).next(later) == c.next(EventView::Delete),
        c.next(EventView::Delete).reaction(later) == ActionView::Idle,
{
}

} // verus!
