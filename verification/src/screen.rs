//! What the console writes to the operator's terminal, as text.
//!
//! Nothing here writes anything: each function returns the characters, escape
//! sequences included, and the caller sends them to the terminal. The escape
//! sequences come from `termion`.

use crate::controller::Size;
use crate::session::Handle;
use crate::text::{chars_of, decimal, push_chars};
use vstd::prelude::*;
use vstd::string::*;

verus! {

/// The rows at the bottom of the terminal that hold the key help.
pub const FOOTER_ROWS: u16 = 2;

pub open spec fn csi_clear_all() -> Seq<char> {
    "\x1B[2J"@
}

pub open spec fn csi_clear_after() -> Seq<char> {
    "\x1B[J"@
}

pub open spec fn csi_clear_before() -> Seq<char> {
    "\x1B[1J"@
}

pub open spec fn csi_clear_line() -> Seq<char> {
    "\x1B[2K"@
}

pub open spec fn csi_hide() -> Seq<char> {
    "\x1B[?25l"@
}

pub open spec fn csi_show() -> Seq<char> {
    "\x1B[?25h"@
}

pub open spec fn csi_blinking_block() -> Seq<char> {
    "\x1B[\x31 q"@
}

/// Moves the cursor to column `x` of row `y`, both counted from one.
pub open spec fn csi_goto(x: u16, y: u16) -> Seq<char> {
    "\x1B["@ + decimal(y as nat) + ";"@ + decimal(x as nat) + "H"@
}

pub open spec fn csi_fg_red() -> Seq<char> {
    "\x1B[38;5;1m"@
}

pub open spec fn csi_fg_light_red() -> Seq<char> {
    "\x1B[38;5;9m"@
}

pub open spec fn csi_fg_light_green() -> Seq<char> {
    "\x1B[38;5;10m"@
}

pub open spec fn csi_fg_reset() -> Seq<char> {
    "\x1B[39m"@
}

pub open spec fn csi_fg_rgb(r: u8, g: u8, b: u8) -> Seq<char> {
    "\x1B[38;2;"@ + decimal(r as nat) + ";"@ + decimal(g as nat) + ";"@ + decimal(b as nat) + "m"@
}

pub open spec fn csi_bg_red() -> Seq<char> {
    "\x1B[48;5;1m"@
}

pub open spec fn csi_bg_light_black() -> Seq<char> {
    "\x1B[48;5;8m"@
}

pub open spec fn csi_bg_reset() -> Seq<char> {
    "\x1B[49m"@
}

pub open spec fn csi_bg_rgb(r: u8, g: u8, b: u8) -> Seq<char> {
    "\x1B[48;2;"@ + decimal(r as nat) + ";"@ + decimal(g as nat) + ";"@ + decimal(b as nat) + "m"@
}

/// `termion::clear::All`, formatted: CSI `2J`.
#[verifier::external_body]
fn clear_all() -> (s: String)
    ensures
        s@ == csi_clear_all(),
{
    format!("{}", termion::clear::All)
}

/// `termion::clear::AfterCursor`, formatted: CSI `J`.
#[verifier::external_body]
fn clear_after_cursor() -> (s: String)
    ensures
        s@ == csi_clear_after(),
{
    format!("{}", termion::clear::AfterCursor)
}

/// `termion::clear::BeforeCursor`, formatted: CSI `1J`.
#[verifier::external_body]
fn clear_before_cursor() -> (s: String)
    ensures
        s@ == csi_clear_before(),
{
    format!("{}", termion::clear::BeforeCursor)
}

/// `termion::clear::CurrentLine`, formatted: CSI `2K`.
#[verifier::external_body]
fn clear_current_line() -> (s: String)
    ensures
        s@ == csi_clear_line(),
{
    format!("{}", termion::clear::CurrentLine)
}

/// `termion::cursor::Hide`, formatted: CSI `?25l`.
#[verifier::external_body]
fn cursor_hide() -> (s: String)
    ensures
        s@ == csi_hide(),
{
    format!("{}", termion::cursor::Hide)
}

/// `termion::cursor::Show`, formatted: CSI `?25h`.
#[verifier::external_body]
fn cursor_show() -> (s: String)
    ensures
        s@ == csi_show(),
{
    format!("{}", termion::cursor::Show)
}

/// `termion::cursor::BlinkingBlock`, formatted: CSI `1 q`.
#[verifier::external_body]
fn cursor_blinking_block() -> (s: String)
    ensures
        s@ == csi_blinking_block(),
{
    format!("{}", termion::cursor::BlinkingBlock)
}

/// `termion::cursor::Goto(x, y)`, formatted: CSI, the row, `;`, the column,
/// `H`, both numbers in decimal. `Goto(0, 0)` trips an assertion in termion,
/// so it is left out.
#[verifier::external_body]
fn cursor_goto(x: u16, y: u16) -> (s: String)
    requires
        x != 0 || y != 0,
    ensures
        s@ == csi_goto(x, y),
{
    format!("{}", termion::cursor::Goto(x, y))
}

/// `termion::color::Fg(Red)`, formatted: CSI `38;5;1m`.
#[verifier::external_body]
fn fg_red() -> (s: String)
    ensures
        s@ == csi_fg_red(),
{
    format!("{}", termion::color::Fg(termion::color::Red))
}

/// `termion::color::Fg(LightRed)`, formatted: CSI `38;5;9m`.
#[verifier::external_body]
fn fg_light_red() -> (s: String)
    ensures
        s@ == csi_fg_light_red(),
{
    format!("{}", termion::color::Fg(termion::color::LightRed))
}

/// `termion::color::Fg(LightGreen)`, formatted: CSI `38;5;10m`.
#[verifier::external_body]
fn fg_light_green() -> (s: String)
    ensures
        s@ == csi_fg_light_green(),
{
    format!("{}", termion::color::Fg(termion::color::LightGreen))
}

/// `termion::color::Fg(Reset)`, formatted: CSI `39m`.
#[verifier::external_body]
fn fg_reset() -> (s: String)
    ensures
        s@ == csi_fg_reset(),
{
    format!("{}", termion::color::Fg(termion::color::Reset))
}

/// `termion::color::Fg(Rgb(r, g, b))`, formatted: CSI `38;2;`, then the
/// three parts in decimal with `;` between them, then `m`.
#[verifier::external_body]
fn fg_rgb(r: u8, g: u8, b: u8) -> (s: String)
    ensures
        s@ == csi_fg_rgb(r, g, b),
{
    format!("{}", termion::color::Fg(termion::color::Rgb(r, g, b)))
}

/// `termion::color::Bg(Red)`, formatted: CSI `48;5;1m`.
#[verifier::external_body]
fn bg_red() -> (s: String)
    ensures
        s@ == csi_bg_red(),
{
    format!("{}", termion::color::Bg(termion::color::Red))
}

/// `termion::color::Bg(LightBlack)`, formatted: CSI `48;5;8m`.
#[verifier::external_body]
fn bg_light_black() -> (s: String)
    ensures
        s@ == csi_bg_light_black(),
{
    format!("{}", termion::color::Bg(termion::color::LightBlack))
}

/// `termion::color::Bg(Reset)`, formatted: CSI `49m`.
#[verifier::external_body]
fn bg_reset() -> (s: String)
    ensures
        s@ == csi_bg_reset(),
{
    format!("{}", termion::color::Bg(termion::color::Reset))
}

/// `termion::color::Bg(Rgb(r, g, b))`, formatted: CSI `48;2;`, then the
/// three parts in decimal with `;` between them, then `m`.
#[verifier::external_body]
fn bg_rgb(r: u8, g: u8, b: u8) -> (s: String)
    ensures
        s@ == csi_bg_rgb(r, g, b),
{
    format!("{}", termion::color::Bg(termion::color::Rgb(r, g, b)))
}

/// Where the session list stands on the screen.
#[derive(Clone, Copy, Debug, PartialEq, Eq, Structural)]
pub struct Layout {
    /// The row of the first entry, counted from one.
    pub top: u16,
    /// How many entries are drawn.
    pub visible: usize,
}

/// The rows that the list may use: all but the footer.
pub open spec fn list_room(size: Size) -> int {
    if size.rows > FOOTER_ROWS {
        size.rows - FOOTER_ROWS
    } else {
        0
    }
}

/// The layout of a list of `count` entries that was opened with the cursor
/// in row `anchor`. The list starts in the cursor's row where it fits
/// between there and the footer; a longer list moves up just far enough to
/// end above the footer; a list longer than the screen starts in the first
/// row and shows what fits.
pub open spec fn layout_of(anchor: u16, count: nat, size: Size) -> Layout {
    let room = list_room(size);
    let first = if anchor == 0 {
        1
    } else {
        anchor as int
    };
    if count > room {
        Layout { top: 1, visible: room as usize }
    } else if first + count - 1 <= room {
        Layout { top: first as u16, visible: count as usize }
    } else {
        Layout { top: (room - count + 1) as u16, visible: count as usize }
    }
}

/// The row of entry `index` in a list that starts in row `top`.
pub open spec fn entry_row(top: u16, index: int) -> int {
    top + index
}

/// Computes the layout. The list never reaches into the footer and never
/// begins above the first row, so drawing it scrolls nothing.
pub fn layout(anchor: u16, count: usize, size: Size) -> (l: Layout)
    ensures
        l == layout_of(anchor, count as nat, size),
        l.top >= 1,
        l.visible <= count,
        l.visible > 0 ==> entry_row(l.top, l.visible - 1) <= list_room(size),
        count <= list_room(size) ==> l.visible == count,
{
    let room: u16 = if size.rows > FOOTER_ROWS {
        size.rows - FOOTER_ROWS
    } else {
        0
    };
    let first: u16 = if anchor == 0 {
        1
    } else {
        anchor
    };
    if count > room as usize {
        Layout { top: 1, visible: room as usize }
    } else if first as usize + count - 1 <= room as usize {
        Layout { top: first, visible: count }
    } else {
        Layout { top: (room as usize - count + 1) as u16, visible: count }
    }
}

/// The list stays inside its region. Every entry that is drawn has a row
/// between the first row and the footer; the list begins no lower than the
/// cursor stood when it was opened; and the footer's two rows lie below the
/// last entry, within the screen. So drawing the list moves nothing that
/// stands above it.
pub proof fn lemma_layout_fits(anchor: u16, count: nat, size: Size, i: int)
    requires
        0 <= i < layout_of(anchor, count, size).visible,
    ensures
        1 <= layout_of(anchor, count, size).top,
        anchor >= 1 ==> layout_of(anchor, count, size).top <= anchor,
        layout_of(anchor, count, size).top <= entry_row(layout_of(anchor, count, size).top, i)
            <= list_room(size),
        entry_row(layout_of(anchor, count, size).top, i) < footer_row(size, 0) < footer_row(size, 1)
            <= size.rows,
{
}

/// One entry of the list: the id, ` (raw)` behind it for a session in raw
/// mode, the whole on a red ground where it is the selected entry, and the
/// cursor hidden.
pub open spec fn entry_text(id: Seq<char>, raw_mode: bool, selected: bool) -> Seq<char> {
    let name = id + if raw_mode {
        " (raw)"@
    } else {
        Seq::<char>::empty()
    };
    if selected {
        csi_bg_red() + name + csi_bg_reset() + csi_hide()
    } else {
        name + csi_hide()
    }
}

/// The first `n` entries, each in its own row.
pub open spec fn rows_text(entries: Seq<(String, Handle)>, selected: int, top: u16, n: int) -> Seq<
    char,
>
    decreases n,
{
    if n <= 0 {
        Seq::<char>::empty()
    } else {
        rows_text(entries, selected, top, n - 1) + csi_goto(1, entry_row(top, n - 1) as u16)
            + entry_text(entries[n - 1].0@, entries[n - 1].1.raw_mode, selected == n - 1)
    }
}

/// The list: everything from its first row down is cleared, then the
/// visible entries are drawn. What stands above the first row is not
/// touched.
pub open spec fn list_text(entries: Seq<(String, Handle)>, selected: int, at: Layout) -> Seq<char> {
    csi_goto(1, at.top) + csi_clear_after() + rows_text(entries, selected, at.top, at.visible as int)
}

/// Appends one entry of the list to `out`.
pub fn push_entry(out: &mut String, id: &str, raw_mode: bool, selected: bool)
    ensures
        final(out)@ == old(out)@ + entry_text(id@, raw_mode, selected),
{
    if selected {
        out.append(bg_red().as_str());
    }
    out.append(id);
    if raw_mode {
        out.append(" (raw)");
    }
    if selected {
        out.append(bg_reset().as_str());
    }
    out.append(cursor_hide().as_str());
    proof {
        let name = id@ + if raw_mode {
            " (raw)"@
        } else {
            Seq::<char>::empty()
        };
        if selected {
            assert(out@ =~= old(out)@ + (csi_bg_red() + name + csi_bg_reset() + csi_hide()));
        } else {
            assert(out@ =~= old(out)@ + (name + csi_hide()));
        }
    }
}

/// Draws the session list at `at`, with entry `selected` highlighted.
pub fn render_list(entries: &Vec<(String, Handle)>, selected: usize, at: Layout) -> (out: String)
    requires
        at.top >= 1,
        at.visible <= entries.len(),
        at.top + at.visible <= u16::MAX,
    ensures
        out@ == list_text(entries@, selected as int, at),
{
    let mut out = cursor_goto(1, at.top);
    out.append(clear_after_cursor().as_str());
    let ghost head = out@;
    let mut i: usize = 0;
    while i < at.visible
        invariant
            i <= at.visible <= entries.len(),
            at.top + at.visible <= u16::MAX,
            out@ == head + rows_text(entries@, selected as int, at.top, i as int),
        decreases at.visible - i,
    {
        let ghost before = out@;
        let row: u16 = at.top + i as u16;
        out.append(cursor_goto(1, row).as_str());
        push_entry(&mut out, entries[i].0.as_str(), entries[i].1.raw_mode, i == selected);
        proof {
            assert(out@ =~= head + rows_text(entries@, selected as int, at.top, i + 1));
        }
        i += 1;
    }
    out
}

/// The first line of the key help.
pub open spec fn help_line_one() -> Seq<char> {
    "(ENTER - start shell) (DEL | BACK - remove shell) (ESC - back to menu)"@
}

/// The second line of the key help.
pub open spec fn help_line_two() -> Seq<char> {
    "(a - rename shell) (r - enter tty (raw) mode)"@
}

/// `msg` as it is shown in `width` columns: whole where it fits, else cut
/// three columns short of the width and ended with three dots.
pub open spec fn fitted(msg: Seq<char>, width: u16) -> Seq<char> {
    if msg.len() > width {
        msg.take(
            if width >= 3 {
                width - 3
            } else {
                0
            },
        ) + "..."@
    } else {
        msg
    }
}

/// Fits `msg` into `width` columns.
pub fn fit(msg: &str, width: u16) -> (out: String)
    ensures
        out@ == fitted(msg@, width),
{
    let chars = chars_of(msg);
    if chars.len() > width as usize {
        let keep: usize = if width >= 3 {
            (width - 3) as usize
        } else {
            0
        };
        let mut out = String::new();
        push_chars(&mut out, &chars, 0, keep);
        out.append("...");
        out
    } else {
        String::from_str(msg)
    }
}

/// The footer: the two lines of key help in the last two rows, on a grey
/// ground, each fitted to the width.
pub open spec fn footer_text(size: Size) -> Seq<char> {
    csi_goto(1, footer_row(size, 0)) + csi_bg_light_black() + fitted(help_line_one(), size.cols)
        + csi_bg_reset() + csi_goto(1, footer_row(size, 1)) + csi_bg_light_black() + fitted(
        help_line_two(),
        size.cols,
    ) + csi_bg_reset()
}

/// The row of line `k` of the footer: the last row for the second line, the
/// one above it for the first; never above the first row.
pub open spec fn footer_row(size: Size, k: int) -> u16 {
    if size.rows + k >= FOOTER_ROWS + 1 {
        (size.rows + k + 1 - FOOTER_ROWS) as u16
    } else {
        1
    }
}

/// Draws the footer.
pub fn list_menu_help(size: Size) -> (out: String)
    ensures
        out@ == footer_text(size),
{
    let first: u16 = if size.rows >= 3 {
        size.rows - 1
    } else {
        1
    };
    let second: u16 = if size.rows >= 2 {
        size.rows
    } else {
        1
    };
    let mut out = cursor_goto(1, first);
    out.append(bg_light_black().as_str());
    out.append(fit("(ENTER - start shell) (DEL | BACK - remove shell) (ESC - back to menu)", size.cols).as_str());
    out.append(bg_reset().as_str());
    out.append(cursor_goto(1, second).as_str());
    out.append(bg_light_black().as_str());
    out.append(fit("(a - rename shell) (r - enter tty (raw) mode)", size.cols).as_str());
    out.append(bg_reset().as_str());
    proof {
        assert(out@ =~= footer_text(size));
    }
    out
}

/// The whole of the navigator's display: the list, then the footer.
pub open spec fn display_text(entries: Seq<(String, Handle)>, selected: int, anchor: u16, size: Size) -> Seq<
    char,
> {
    list_text(entries, selected, layout_of(anchor, entries.len(), size)) + footer_text(size)
}

/// Draws the navigator's display for the sessions `keys`, opened with the
/// cursor in row `anchor`, with entry `cur_idx` highlighted.
pub fn refresh_list_display(cur_idx: usize, keys: &Vec<(String, Handle)>, anchor: u16, size: Size) -> (out:
    String)
    ensures
        out@ == display_text(keys@, cur_idx as int, anchor, size),
{
    let at = layout(anchor, keys.len(), size);
    let mut out = render_list(keys, cur_idx, at);
    out.append(list_menu_help(size).as_str());
    out
}

/// What is written when the navigator gives the terminal back: a new line,
/// the cursor shown again as a blinking block, and the rest of the screen
/// cleared.
pub open spec fn leave_text() -> Seq<char> {
    "\r\n"@ + csi_show() + csi_blinking_block() + csi_clear_after() + "\n"@
}

pub fn unlock_menu() -> (out: String)
    ensures
        out@ == leave_text(),
{
    let mut out = String::from_str("\r\n");
    out.append(cursor_show().as_str());
    out.append(cursor_blinking_block().as_str());
    out.append(clear_after_cursor().as_str());
    out.append("\n");
    out
}

/// The hint shown on attach: how to get back to the menu in this mode.
pub open spec fn guide_text(raw_mode: bool) -> Seq<char> {
    csi_clear_before() + "\n\r\n"@ + csi_fg_red() + (if raw_mode {
        "type \"CTRL + b\" to return to menu"@
    } else {
        "type \"back\" to return to menu"@
    }) + csi_fg_reset() + "\r\n\n"@
}

pub fn attach_guide(raw_mode: bool) -> (out: String)
    ensures
        out@ == guide_text(raw_mode),
{
    let mut out = clear_before_cursor();
    out.append("\n\r\n");
    out.append(fg_red().as_str());
    if raw_mode {
        out.append("type \"CTRL + b\" to return to menu");
    } else {
        out.append("type \"back\" to return to menu");
    }
    out.append(fg_reset().as_str());
    out.append("\r\n\n");
    out
}

/// Remote output as it goes to the display: as it is, or behind a cleared
/// line.
pub open spec fn shown_text(text: Seq<char>, clear_line: bool) -> Seq<char> {
    if clear_line {
        csi_clear_line() + text
    } else {
        text
    }
}

pub fn show_remote(text: &str, clear_line: bool) -> (out: String)
    ensures
        out@ == shown_text(text@, clear_line),
{
    if clear_line {
        let mut out = clear_current_line();
        out.append(text);
        out
    } else {
        String::from_str(text)
    }
}

/// Saves the cursor, writes `body` into the first row, and puts the cursor
/// back.
pub open spec fn banner_text(body: Seq<char>) -> Seq<char> {
    "\x1B7"@ + csi_goto(1, 1) + csi_clear_line() + body + "\x1B8"@
}

/// A notice in the first row: red on amber.
pub open spec fn notification_text(text: Seq<char>) -> Seq<char> {
    banner_text(csi_bg_rgb(255, 200, 0) + csi_fg_red() + text + csi_fg_reset() + csi_bg_reset())
}

/// The notice for `text`, ready to be written to the terminal.
pub fn display_notification(text: &str) -> (out: String)
    ensures
        out@ == notification_text(text@),
{
    let mut out = String::from_str("\x1B7");
    out.append(cursor_goto(1, 1).as_str());
    out.append(clear_current_line().as_str());
    out.append(bg_rgb(255, 200, 0).as_str());
    out.append(fg_red().as_str());
    out.append(text);
    out.append(fg_reset().as_str());
    out.append(bg_reset().as_str());
    out.append("\x1B8");
    proof {
        assert(out@ =~= notification_text(text@));
    }
    out
}

/// The notice of a new connection from `addr`, in the first row, in green.
pub open spec fn arrival_text(addr: Seq<char>) -> Seq<char> {
    banner_text(csi_fg_light_green() + "new shell received from "@ + addr + " !"@ + csi_fg_reset())
}

pub fn arrival_notice(addr: &str) -> (out: String)
    ensures
        out@ == arrival_text(addr@),
{
    let mut out = String::from_str("\x1B7");
    out.append(cursor_goto(1, 1).as_str());
    out.append(clear_current_line().as_str());
    out.append(fg_light_green().as_str());
    out.append("new shell received from ");
    out.append(addr);
    out.append(" !");
    out.append(fg_reset().as_str());
    out.append("\x1B8");
    proof {
        assert(out@ =~= arrival_text(addr@));
    }
    out
}

/// A hint of the line editor, in grey.
pub open spec fn hint_text(hint: Seq<char>) -> Seq<char> {
    csi_fg_rgb(100, 100, 100) + hint + csi_fg_reset()
}

pub fn highlight_hint(hint: &str) -> (out: String)
    ensures
        out@ == hint_text(hint@),
{
    let mut out = fg_rgb(100, 100, 100);
    out.append(hint);
    out.append(fg_reset().as_str());
    out
}

/// What clears the display: the whole screen, and a line feed.
pub open spec fn clear_text() -> Seq<char> {
    csi_clear_all() + "\n"@
}

pub fn clear() -> (out: String)
    ensures
        out@ == clear_text(),
{
    let mut out = clear_all();
    out.append("\n");
    out
}

/// The red words of the banner and of the prompt.
pub open spec fn red_text(text: Seq<char>) -> Seq<char> {
    csi_fg_light_red() + text + csi_fg_reset()
}

pub fn red(text: &str) -> (out: String)
    ensures
        out@ == red_text(text@),
{
    let mut out = fg_light_red();
    out.append(text);
    out.append(fg_reset().as_str());
    out
}

/// Which prompt the rename line shows.
#[derive(Clone, Copy, Debug, PartialEq, Eq, Structural)]
pub enum AliasPrompt {
    /// The plain request for a new id.
    Enter,
    /// The last input was empty.
    Empty,
    /// The last input already names a session.
    Exists,
}

pub open spec fn prompt_text(prompt: AliasPrompt) -> Seq<char> {
    match prompt {
        AliasPrompt::Enter => "Please enter a new alias: "@,
        AliasPrompt::Empty => "\u{274c} Alias cannot be empty, please try again: "@,
        AliasPrompt::Exists => "\u{274c} Alias already exists, please try again: "@,
    }
}

/// The rename line in row `row`: the prompt, then what was typed so far.
pub open spec fn alias_text(row: u16, prompt: AliasPrompt, input: Seq<char>) -> Seq<char> {
    csi_goto(1, row) + prompt_text(prompt) + csi_blinking_block() + csi_clear_after() + if input.len()
        > 0 {
        input + csi_blinking_block() + csi_clear_after()
    } else {
        Seq::<char>::empty()
    }
}

/// Draws the rename line.
pub fn alias_line(row: u16, prompt: AliasPrompt, input: &str) -> (out: String)
    ensures
        out@ == alias_text(row, prompt, input@),
{
    let mut out = cursor_goto(1, row);
    match prompt {
        AliasPrompt::Enter => {
            out.append("Please enter a new alias: ");
        },
        AliasPrompt::Empty => {
            out.append("\u{274c} Alias cannot be empty, please try again: ");
        },
        AliasPrompt::Exists => {
            out.append("\u{274c} Alias already exists, please try again: ");
        },
    }
    out.append(cursor_blinking_block().as_str());
    out.append(clear_after_cursor().as_str());
    if !input.is_empty() {
        out.append(input);
        out.append(cursor_blinking_block().as_str());
        out.append(clear_after_cursor().as_str());
    }
    proof {
        assert(out@ =~= alias_text(row, prompt, input@));
    }
    out
}

} // verus!
