//! Keystrokes and the byte sequences a remote terminal driver expects for
//! them.

use vstd::prelude::*;
use vstd::utf8::*;

verus! {

/// One keystroke read from the operator's terminal.
#[derive(Clone, Copy, Debug, PartialEq, Eq, Structural)]
pub enum Key {
    Backspace,
    Left,
    Right,
    Up,
    Down,
    Home,
    End,
    PageUp,
    PageDown,
    BackTab,
    Delete,
    Insert,
    /// Function key `F(n)`.
    F(u8),
    /// A character key; Enter arrives as `Char('\n')`.
    Char(char),
    Alt(char),
    Ctrl(char),
    Null,
    Esc,
}

pub const ESC: u8 = 0x1B;

pub const CARRIAGE_RETURN: u8 = 0x0D;

pub const DEL: u8 = 0x7F;

/// Second byte of an SS3 sequence, the letter `O`.
pub const SS3: u8 = 0x4F;

/// The UTF-8 encoding of one character.
pub open spec fn char_bytes(c: char) -> Seq<u8> {
    encode_scalar(c as u32)
}

/// Whether `c` is an ASCII letter.
pub open spec fn is_letter(c: char) -> bool {
    ('a' <= c <= 'z') || ('A' <= c <= 'Z')
}

/// The lower-case form of an ASCII letter, as a byte.
pub open spec fn lower_byte(c: char) -> u8
    recommends
        is_letter(c),
{
    if 'A' <= c <= 'Z' {
        (c as u8 + 0x20) as u8
    } else {
        c as u8
    }
}

/// Whether `c` stands for the Enter key.
pub open spec fn is_enter(c: char) -> bool {
    c == '\n' || c == '\r'
}

impl Key {
    /// The detach hotkey, Ctrl-B: never forwarded to the remote side.
    pub open spec fn is_detach(self) -> bool {
        self matches Key::Ctrl(c) && is_letter(c) && lower_byte(c) == 0x62
    }

    /// The encoding table. `None` for the detach hotkey and for keys that
    /// have no encoding.
    pub open spec fn bytes(self) -> Option<Seq<u8>> {
        match self {
            Key::Char(c) => if is_enter(c) {
                Some(seq![CARRIAGE_RETURN])
            } else {
                Some(char_bytes(c))
            },
            Key::Backspace | Key::Delete => Some(seq![DEL]),
            Key::Esc => Some(seq![ESC]),
            Key::Up => Some(seq![ESC, SS3, 0x41u8]),
            Key::Down => Some(seq![ESC, SS3, 0x42u8]),
            Key::Right => Some(seq![ESC, SS3, 0x43u8]),
            Key::Left => Some(seq![ESC, SS3, 0x44u8]),
            Key::Alt(c) => Some(seq![ESC] + char_bytes(c)),
            Key::Ctrl(c) => if is_letter(c) && !self.is_detach() {
                Some(seq![(lower_byte(c) - 0x60) as u8])
            } else {
                None
            },
            _ => None,
        }
    }
}

/// Appends the UTF-8 encoding of `c` to `out`.
pub fn push_char(out: &mut Vec<u8>, c: char)
    ensures
        final(out)@ == old(out)@ + char_bytes(c),
{
    let u: u32 = c as u32;
    let ghost before = out@;
    proof {
        char_is_scalar(c);
    }
    if u <= 0x7F {
        out.push((u & 0x7F) as u8);
        assert(out@ == before + seq![leading_byte_width_1(u)]);
    } else if u <= 0x7FF {
        out.push(0xC0 | ((u >> 6) & 0x1F) as u8);
        out.push(0x80 | (u & 0x3F) as u8);
        assert(out@ == before + seq![leading_byte_width_2(u), last_continuation_byte(u)]);
    } else if u <= 0xFFFF {
        out.push(0xE0 | ((u >> 12) & 0x0F) as u8);
        out.push(0x80 | ((u >> 6) & 0x3F) as u8);
        out.push(0x80 | (u & 0x3F) as u8);
        assert(out@ == before + seq![
            leading_byte_width_3(u),
            second_last_continuation_byte(u),
            last_continuation_byte(u),
        ]);
    } else {
        out.push(0xF0 | ((u >> 18) & 0x7) as u8);
        out.push(0x80 | ((u >> 12) & 0x3F) as u8);
        out.push(0x80 | ((u >> 6) & 0x3F) as u8);
        out.push(0x80 | (u & 0x3F) as u8);
        assert(out@ == before + seq![
            leading_byte_width_4(u),
            third_last_continuation_byte(u),
            second_last_continuation_byte(u),
            last_continuation_byte(u),
        ]);
    }
}

/// Whether `key` is the detach hotkey.
pub fn is_detach_key(key: &Key) -> (b: bool)
    ensures
        b == key.is_detach(),
{
    match key {
        Key::Ctrl(c) => *c == 'b' || *c == 'B',
        _ => false,
    }
}

/// The exact bytes to forward for `key`, by the encoding table: UTF-8 for a
/// character, `0x0D` for Enter, `0x7F` for Backspace and Delete, `0x1B` for
/// Escape, SS3 sequences for the arrows, `0x1B` and the character for Alt,
/// the control code `0x01..=0x1A` for Ctrl with a letter. Nothing for the
/// detach hotkey and for keys outside the table.
pub fn encode_key(key: &Key) -> (out: Option<Vec<u8>>)
    ensures
        out is Some <==> key.bytes() is Some,
        out is Some ==> out->0@ == key.bytes()->0,
{
    let mut buf: Vec<u8> = Vec::new();
    match key {
        Key::Char(c) => {
            if *c == '\n' || *c == '\r' {
                buf.push(CARRIAGE_RETURN);
            } else {
                push_char(&mut buf, *c);
            }
        },
        Key::Backspace | Key::Delete => {
            buf.push(DEL);
        },
        Key::Esc => {
            buf.push(ESC);
        },
        Key::Up => {
            buf.push(ESC);
            buf.push(SS3);
            buf.push(0x41);
        },
        Key::Down => {
            buf.push(ESC);
            buf.push(SS3);
            buf.push(0x42);
        },
        Key::Right => {
            buf.push(ESC);
            buf.push(SS3);
            buf.push(0x43);
        },
        Key::Left => {
            buf.push(ESC);
            buf.push(SS3);
            buf.push(0x44);
        },
        Key::Alt(c) => {
            buf.push(ESC);
            push_char(&mut buf, *c);
        },
        Key::Ctrl(c) => {
            let c: char = *c;
            if is_detach_key(key) {
                return None;
            } else if 'a' <= c && c <= 'z' {
                buf.push(c as u8 - 0x60);
            } else if 'A' <= c && c <= 'Z' {
                buf.push(c as u8 + 0x20 - 0x60);
            } else {
                return None;
            }
        },
        _ => {
            return None;
        },
    }
    assert(buf@ == key.bytes()->0);
    Some(buf)
}

} // verus!
