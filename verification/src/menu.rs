//! The outer menu: its commands, what a typed line means, the prompt, and
//! the arguments the console is started with.

use crate::acceptor::{listen_address, listen_text};
use crate::screen::{highlight_hint, hint_text, red, red_text};
use crate::text::{chars_of, push_chars, replace, replaced, trim_end, trimmed_len};
use vstd::prelude::*;
use vstd::string::*;

verus! {

/// A command of the outer menu.
#[derive(Clone, Copy, Debug, PartialEq, Eq, Structural)]
pub enum MenuCommand {
    /// `l`: open the session list.
    List,
    /// `clear`: clear the display.
    Clear,
    /// `h`: show the help.
    Help,
    /// `exit`: quit.
    Exit,
}

/// The command that `word` names, if it names one.
pub open spec fn command_of(word: Seq<char>) -> Option<MenuCommand> {
    if word == seq!['l'] {
        Some(MenuCommand::List)
    } else if word == seq!['c', 'l', 'e', 'a', 'r'] {
        Some(MenuCommand::Clear)
    } else if word == seq!['h'] {
        Some(MenuCommand::Help)
    } else if word == seq!['e', 'x', 'i', 't'] {
        Some(MenuCommand::Exit)
    } else {
        None
    }
}

/// The table of the menu's commands.
pub struct MenuList {
    entries: Vec<(Vec<char>, MenuCommand)>,
}

impl MenuList {
    /// The table holds the four commands under their names.
    pub closed spec fn valid(self) -> bool {
        &&& self.entries.len() == 4
        &&& self.entries[0].0@ == seq!['l'] && self.entries[0].1 == MenuCommand::List
        &&& self.entries[1].0@ == seq!['c', 'l', 'e', 'a', 'r'] && self.entries[1].1
            == MenuCommand::Clear
        &&& self.entries[2].0@ == seq!['h'] && self.entries[2].1 == MenuCommand::Help
        &&& self.entries[3].0@ == seq!['e', 'x', 'i', 't'] && self.entries[3].1
            == MenuCommand::Exit
    }

    /// Looks a command up by its name.
    pub fn get(&self, key: &str) -> (cmd: Option<MenuCommand>)
        requires
            self.valid(),
        ensures
            cmd == command_of(key@),
    {
        let word = chars_of(key);
        let mut i: usize = 0;
        while i < self.entries.len()
            invariant
                self.valid(),
                i <= self.entries.len(),
                word@ == key@,
                forall|k: int| 0 <= k < i ==> self.entries[k].0@ != key@,
            decreases self.entries.len() - i,
        {
            if same_chars(&self.entries[i].0, &word) {
                return Some(self.entries[i].1);
            }
            i += 1;
        }
        None
    }
}

/// Whether two texts are the same.
pub fn same_chars(a: &Vec<char>, b: &Vec<char>) -> (same: bool)
    ensures
        same == (a@ == b@),
{
    if a.len() != b.len() {
        return false;
    }
    let mut i: usize = 0;
    while i < a.len()
        invariant
            a.len() == b.len(),
            i <= a.len(),
            a@.take(i as int) == b@.take(i as int),
        decreases a.len() - i,
    {
        if a[i] != b[i] {
            return false;
        }
        assert(a@.take(i + 1) == a@.take(i as int).push(a@[i as int]));
        assert(b@.take(i + 1) == b@.take(i as int).push(b@[i as int]));
        i += 1;
    }
    assert(a@.take(a.len() as int) == a@);
    assert(b@.take(b.len() as int) == b@);
    true
}

/// Builds the menu's table.
pub fn new() -> (menu: MenuList)
    ensures
        menu.valid(),
{
    let mut entries: Vec<(Vec<char>, MenuCommand)> = Vec::new();
    entries.push((vec!['l'], MenuCommand::List));
    entries.push((vec!['c', 'l', 'e', 'a', 'r'], MenuCommand::Clear));
    entries.push((vec!['h'], MenuCommand::Help));
    entries.push((vec!['e', 'x', 'i', 't'], MenuCommand::Exit));
    assert(entries[0].0@ =~= seq!['l']);
    assert(entries[1].0@ =~= seq!['c', 'l', 'e', 'a', 'r']);
    assert(entries[2].0@ =~= seq!['h']);
    assert(entries[3].0@ =~= seq!['e', 'x', 'i', 't']);
    MenuList { entries }
}

/// The help of the outer menu, one command to a line.
pub open spec fn help_text() -> Seq<char> {
    "l - list the connected shells\nh - display this help message\nclear - clear the display\nexit - quit the program\n"@
}

pub fn help() -> (out: String)
    ensures
        out@ == help_text(),
{
    String::from_str(
        "l - list the connected shells\nh - display this help message\nclear - clear the display\nexit - quit the program\n",
    )
}

/// What a line typed at the outer menu asks for.
#[derive(Clone, Debug, PartialEq, Eq)]
pub enum MenuAction {
    /// Run a command of the menu.
    Run(MenuCommand),
    /// Change the working directory to this path.
    ChangeDir(String),
    /// Hand the line to the local shell.
    Shell(String),
}

pub enum MenuActionView {
    Run(MenuCommand),
    ChangeDir(Seq<char>),
    Shell(Seq<char>),
}

impl View for MenuAction {
    type V = MenuActionView;

    open spec fn view(&self) -> MenuActionView {
        match *self {
            MenuAction::Run(c) => MenuActionView::Run(c),
            MenuAction::ChangeDir(d) => MenuActionView::ChangeDir(d@),
            MenuAction::Shell(l) => MenuActionView::Shell(l@),
        }
    }
}

/// What follows the last blank of `s`; all of `s` where it holds no blank.
pub open spec fn last_word(s: Seq<char>) -> Seq<char>
    decreases s.len(),
{
    if s.len() == 0 || s.last() == ' ' {
        Seq::<char>::empty()
    } else {
        last_word(s.drop_last()).push(s.last())
    }
}

/// Whether `s` begins with `cd` and a blank.
pub open spec fn is_change_dir(s: Seq<char>) -> bool {
    s.len() >= 3 && s[0] == 'c' && s[1] == 'd' && s[2] == ' '
}

/// The meaning of a typed line. White space at its end does not count. A
/// command's name runs the command; `cd` and a path change to the path, its
/// last word, with each `~` standing for the home directory; anything else
/// goes to the local shell.
pub open spec fn meaning(line: Seq<char>, home: Seq<char>) -> MenuActionView {
    let key = trim_end(line);
    match command_of(key) {
        Some(cmd) => MenuActionView::Run(cmd),
        None => if is_change_dir(key) {
            MenuActionView::ChangeDir(replaced(last_word(key), seq!['~'], home))
        } else {
            MenuActionView::Shell(key)
        },
    }
}

/// The index at which the last word of `v[..n]` begins.
fn last_word_start(v: &Vec<char>, n: usize) -> (start: usize)
    requires
        n <= v.len(),
    ensures
        start <= n,
        v@.subrange(start as int, n as int) == last_word(v@.take(n as int)),
{
    let mut start: usize = n;
    while start > 0 && v[start - 1] != ' '
        invariant
            start <= n <= v.len(),
            forall|k: int| start <= k < n ==> v@[k] != ' ',
        decreases start,
    {
        start -= 1;
    }
    proof {
        lemma_last_word_grows(v@.take(n as int), start as int);
        assert(v@.take(n as int).skip(start as int) == v@.subrange(start as int, n as int));
    }
    start
}

/// Where no blank stands from `from` on, and one stands just before `from`
/// or `from` is the beginning, the last word is what stands from `from` on.
proof fn lemma_last_word_grows(s: Seq<char>, from: int)
    requires
        0 <= from <= s.len(),
        forall|k: int| from <= k < s.len() ==> s[k] != ' ',
        from == 0 || s[from - 1] == ' ',
    ensures
        last_word(s) == s.skip(from),
    decreases s.len(),
{
    if from == s.len() {
        assert(s.skip(from) =~= Seq::<char>::empty());
    } else {
        lemma_last_word_grows(s.drop_last(), from);
        assert(s.skip(from) =~= s.drop_last().skip(from).push(s.last()));
    }
}

/// Decides what a line typed at the outer menu asks for.
pub fn dispatch(menu: &MenuList, line: &str, home: &str) -> (action: MenuAction)
    requires
        menu.valid(),
    ensures
        action@ == meaning(line@, home@),
{
    let chars = chars_of(line);
    let n = trimmed_len(&chars);
    let mut key = String::new();
    push_chars(&mut key, &chars, 0, n);
    proof {
        reveal_strlit("~");
        assert(chars@.subrange(0, n as int) == chars@.take(n as int));
        assert(key@ == trim_end(line@));
        assert("~"@ =~= seq!['~']);
        if n >= 3 {
            assert(key@[0] == chars@[0] && key@[1] == chars@[1] && key@[2] == chars@[2]);
        }
    }
    match menu.get(key.as_str()) {
        Some(cmd) => MenuAction::Run(cmd),
        None => {
            if n >= 3 && chars[0] == 'c' && chars[1] == 'd' && chars[2] == ' ' {
                let start = last_word_start(&chars, n);
                let mut dir = String::new();
                push_chars(&mut dir, &chars, start, n);
                MenuAction::ChangeDir(replace(dir.as_str(), "~", home))
            } else {
                MenuAction::Shell(key)
            }
        },
    }
}

/// The prompt of the outer menu for the working directory `pwd`: the
/// console's name and the directory, in red, with the home directory
/// written as `~`.
pub open spec fn prompt_of(pwd: Seq<char>, home: Seq<char>) -> Seq<char> {
    red_text("crab_trap \u{1f980}:"@ + replaced(pwd, home, seq!['~']) + " #"@) + " "@
}

/// Formats the prompt.
pub fn get_prompt(pwd: &str, home: &str) -> (prompt: String)
    ensures
        prompt@ == prompt_of(pwd@, home@),
{
    proof {
        reveal_strlit("~");
        assert("~"@ =~= seq!['~']);
    }
    let mut body = String::from_str("crab_trap \u{1f980}:");
    body.append(replace(pwd, home, "~").as_str());
    body.append(" #");
    let mut prompt = red(body.as_str());
    prompt.append(" ");
    prompt
}

/// The line that says where the console listens, in red.
pub open spec fn listening_text(host: Seq<char>, port: u16) -> Seq<char> {
    red_text("listening on "@ + listen_text(host, port))
}

pub fn listening_notice(host: &str, port: u16) -> (out: String)
    ensures
        out@ == listening_text(host@, port),
{
    let mut body = String::from_str("listening on ");
    body.append(listen_address(host, port).as_str());
    red(body.as_str())
}

/// Where the console listens.
#[derive(Clone, Debug, PartialEq, Eq)]
pub struct Bind {
    pub host: String,
    pub port: u16,
}

/// Why the arguments were refused.
#[derive(Clone, Debug, PartialEq, Eq)]
pub enum ArgsError {
    /// The port is no number between 0 and 65535; the argument is kept.
    InvalidPort(String),
    /// The number of arguments is wrong.
    Usage,
}

/// The default host.
pub open spec fn default_host() -> Seq<char> {
    "0.0.0.0"@
}

/// The default port.
pub const DEFAULT_PORT: u16 = 4545;

/// Whether `c` is a decimal digit.
pub open spec fn is_digit(c: char) -> bool {
    '0' <= c <= '9'
}

/// The number that a run of decimal digits writes.
pub open spec fn digits_value(s: Seq<char>) -> nat
    decreases s.len(),
{
    if s.len() == 0 {
        0
    } else {
        digits_value(s.drop_last()) * 10 + (s.last() as u32 - 0x30) as nat
    }
}

/// The digits of a port argument: the argument without a leading `+`.
pub open spec fn port_digits(s: Seq<char>) -> Seq<char> {
    if s.len() > 0 && s[0] == '+' {
        s.skip(1)
    } else {
        s
    }
}

/// The port that an argument names, as `str::parse::<u16>` reads it: decimal
/// digits, at least one, with or without a `+` before them, and no more than
/// 65535.
pub open spec fn port_of(s: Seq<char>) -> Option<u16> {
    let d = port_digits(s);
    if d.len() > 0 && (forall|i: int| 0 <= i < d.len() ==> is_digit(#[trigger] d[i])) && digits_value(d)
        <= u16::MAX {
        Some(digits_value(d) as u16)
    } else {
        None
    }
}

/// The value grows with every digit, so a prefix over the limit stays over
/// it.
proof fn lemma_digits_monotone(s: Seq<char>, n: int)
    requires
        0 <= n <= s.len(),
        forall|i: int| 0 <= i < s.len() ==> is_digit(#[trigger] s[i]),
    ensures
        digits_value(s.take(n)) <= digits_value(s),
    decreases s.len() - n,
{
    if n < s.len() {
        lemma_digits_monotone(s, n + 1);
        assert(s.take(n + 1).drop_last() == s.take(n));
    } else {
        assert(s.take(n) == s);
    }
}

/// Reads a port.
pub fn parse_port(arg: &str) -> (port: Option<u16>)
    ensures
        port == port_of(arg@),
{
    let chars = chars_of(arg);
    let start: usize = if chars.len() > 0 && chars[0] == '+' {
        1
    } else {
        0
    };
    let ghost d = port_digits(arg@);
    assert(d == chars@.skip(start as int));
    if start == chars.len() {
        return None;
    }
    let mut value: u32 = 0;
    let mut i: usize = start;
    assert(d.take(0) =~= Seq::<char>::empty());
    while i < chars.len()
        invariant
            start <= i <= chars.len(),
            d == chars@.skip(start as int),
            d == port_digits(arg@),
            forall|k: int| 0 <= k < i - start ==> is_digit(#[trigger] d[k]),
            value == digits_value(d.take(i - start)),
            value <= u16::MAX,
        decreases chars.len() - i,
    {
        let c: char = chars[i];
        assert(d[i - start] == c);
        if c < '0' || c > '9' {
            assert(!is_digit(d[i - start]));
            return None;
        }
        let next: u32 = value * 10 + (c as u32 - 0x30);
        proof {
            assert(d.take(i - start + 1).drop_last() == d.take(i - start));
            assert(next == digits_value(d.take(i - start + 1)));
        }
        if next > 0xFFFF {
            proof {
                if forall|k: int| 0 <= k < d.len() ==> is_digit(#[trigger] d[k]) {
                    lemma_digits_monotone(d, i - start + 1);
                    assert(digits_value(d) > u16::MAX);
                }
            }
            return None;
        }
        value = next;
        i += 1;
    }
    assert(d.take(d.len() as int) == d);
    Some(value as u16)
}

/// What the arguments ask for. Without arguments the console listens on
/// `0.0.0.0:4545`; with two, on that host and port; any other number of
/// arguments is refused, and so is a port that cannot be read.
pub fn parse_args(args: &Vec<String>) -> (bind: Result<Bind, ArgsError>)
    ensures
        match bind {
            Ok(b) => (args.len() == 1 && b.host@ == default_host() && b.port == DEFAULT_PORT) || (
            args.len() == 3 && port_of(args[2]@) == Some(b.port) && b.host@ == args[1]@),
            Err(ArgsError::InvalidPort(p)) => args.len() == 3 && port_of(args[2]@) is None && p@
                == args[2]@,
            Err(ArgsError::Usage) => args.len() != 1 && args.len() != 3,
        },
{
    if args.len() == 3 {
        match parse_port(args[2].as_str()) {
            Some(port) => Ok(Bind { host: args[1].clone(), port }),
            None => Err(ArgsError::InvalidPort(args[2].clone())),
        }
    } else if args.len() == 1 {
        Ok(Bind { host: String::from_str("0.0.0.0"), port: DEFAULT_PORT })
    } else {
        Err(ArgsError::Usage)
    }
}

/// How the console is started.
pub open spec fn usage_text(program: Seq<char>) -> Seq<char> {
    "Usage: "@ + program + " OR "@ + program + " <address> <port>"@
}

pub fn usage(program: &str) -> (out: String)
    ensures
        out@ == usage_text(program@),
{
    let mut out = String::from_str("Usage: ");
    out.append(program);
    out.append(" OR ");
    out.append(program);
    out.append(" <address> <port>");
    out
}

/// What the line editor is set up with.
#[derive(Clone, Copy, Debug, PartialEq, Eq, Structural)]
pub struct InputHelper {
    /// Whether file names are completed.
    pub completer: bool,
}

impl InputHelper {
    /// The helper of the outer menu: hints, and completion of file names.
    pub fn new() -> (helper: InputHelper)
        ensures
            helper.completer,
    {
        InputHelper { completer: true }
    }

    /// The helper of a session's line editor: hints only.
    pub fn new_only_hinter() -> (helper: InputHelper)
        ensures
            !helper.completer,
    {
        InputHelper { completer: false }
    }

    /// A hint as it is shown: in grey.
    pub fn highlight_hint(&self, hint: &str) -> (out: String)
        ensures
            out@ == hint_text(hint@),
    {
        highlight_hint(hint)
    }
}

} // verus!
