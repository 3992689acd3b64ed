//! Accepting a connection: the session id, the validation handshake, and
//! the registration of what passed.
//!
//! A peer counts as a shell when it echoes a probe: `echo <id>` is written to
//! it, and the id must show up in one of at most ten reads, taken 200 ms
//! apart. A peer that stays silent is dropped without a word.

use crate::registry::Registry;
use crate::session::Handle;
use crate::text::{chars_of, contains, decimal, decode_lossy, find, push_chars, push_decimal, utf8_lossy};
use vstd::prelude::*;
use vstd::string::*;

verus! {

/// How many reads the handshake waits for the echo.
pub const PROBE_ATTEMPTS: usize = 10;

/// The pause after a read without the echo, in milliseconds.
pub const PROBE_INTERVAL_MS: u64 = 200;

/// The length of a session id.
pub const ID_LEN: usize = 31;

/// The lower-case hexadecimal SHA-256 digest of the UTF-8 bytes of a text,
/// as `sha256::digest` computes it.
pub uninterp spec fn sha256_hex(text: Seq<char>) -> Seq<char>;

/// `sha256::digest` on a string slice: the digest of its bytes, hex encoded.
/// The result depends on the text alone and has 64 characters, two for each
/// of the digest's 32 bytes.
#[verifier::external_body]
fn digest(text: &str) -> (hex: String)
    ensures
        hex@ == sha256_hex(text@),
        hex@.len() == 64,
{
    sha256::digest(text)
}

/// The id of the session for a peer address: the first 31 characters of the
/// address's digest.
pub open spec fn id_of(addr: Seq<char>) -> Seq<char> {
    sha256_hex(addr).take(ID_LEN as int)
}

/// The first 31 characters of a digest.
pub fn truncate_digest(hex: &str) -> (id: String)
    requires
        hex@.len() >= ID_LEN,
    ensures
        id@ == hex@.take(ID_LEN as int),
{
    let chars = chars_of(hex);
    let mut id = String::new();
    push_chars(&mut id, &chars, 0, ID_LEN);
    id
}

/// Derives the session id from the peer's address. The same address always
/// gives the same id.
pub fn session_id(addr: &str) -> (id: String)
    ensures
        id@ == id_of(addr@),
        id@.len() == ID_LEN,
{
    let hex = digest(addr);
    truncate_digest(hex.as_str())
}

/// The probe written to a new connection.
pub open spec fn probe_text(key: Seq<char>) -> Seq<char> {
    "echo "@ + key + "\r\n"@
}

pub fn probe_command(key: &str) -> (cmd: String)
    ensures
        cmd@ == probe_text(key@),
{
    let mut cmd = String::from_str("echo ");
    cmd.append(key);
    cmd.append("\r\n");
    cmd
}

/// The address to listen on: host, a colon, and the port in decimal.
pub open spec fn listen_text(host: Seq<char>, port: u16) -> Seq<char> {
    host + ":"@ + decimal(port as nat)
}

pub fn listen_address(host: &str, port: u16) -> (addr: String)
    ensures
        addr@ == listen_text(host@, port),
{
    let mut addr = String::from_str(host);
    addr.append(":");
    push_decimal(&mut addr, port);
    addr
}

/// Whether `content`, the text of one read, holds the probe key.
pub fn echoes(content: &str, key: &str) -> (b: bool)
    ensures
        b == contains(content@, key@),
{
    let hay = chars_of(content);
    let needle = chars_of(key);
    find(&hay, &needle)
}

/// Whether a read answers the probe: it gave bytes, and their text, decoded
/// with replacement, holds the key.
pub open spec fn answers(key: Seq<char>, reply: Option<Seq<u8>>) -> bool {
    reply is Some && contains(utf8_lossy(reply->0), key)
}

/// The view of one read's outcome.
pub open spec fn reply_view(reply: Option<Vec<u8>>) -> Option<Seq<u8>> {
    match reply {
        Some(bytes) => Some(bytes@),
        None => None,
    }
}

/// Whether one of the first ten of `replies` answers the probe.
pub open spec fn validates(key: Seq<char>, replies: Seq<Option<Vec<u8>>>) -> bool {
    exists|i: int|
        0 <= i < replies.len() && i < PROBE_ATTEMPTS && answers(key, reply_view(#[trigger] replies[i]))
}

/// What the caller is to do after a read.
#[derive(Clone, Copy, Debug, PartialEq, Eq, Structural)]
pub enum ProbeAction {
    /// Wait for the interval, then read again.
    Retry,
    /// The peer is a shell: write a line feed to get its prompt back, then
    /// register the session.
    Accept,
    /// The peer never echoed: drop the connection, register nothing, report
    /// nothing.
    Discard,
}

/// The handshake with one peer, after the probe was written.
#[derive(Clone, Debug, PartialEq, Eq)]
pub struct Probe {
    pub key: String,
    /// Reads taken so far without the echo.
    pub misses: usize,
    /// `Some` once the handshake is decided.
    pub verdict: Option<bool>,
}

impl Probe {
    pub open spec fn valid(self) -> bool {
        &&& self.misses <= PROBE_ATTEMPTS
        &&& self.verdict == Some(false) <==> self.misses == PROBE_ATTEMPTS
    }

    /// The handshake after one more read. A decided handshake stays as it is.
    pub open spec fn next(self, reply: Option<Seq<u8>>) -> Probe {
        if self.verdict is Some {
            self
        } else if answers(self.key@, reply) {
            Probe { key: self.key, misses: self.misses, verdict: Some(true) }
        } else if self.misses + 1 >= PROBE_ATTEMPTS {
            Probe { key: self.key, misses: PROBE_ATTEMPTS, verdict: Some(false) }
        } else {
            Probe { key: self.key, misses: (self.misses + 1) as usize, verdict: None }
        }
    }

    /// What a handshake in this state asks for.
    pub open spec fn action(self) -> ProbeAction {
        match self.verdict {
            Some(true) => ProbeAction::Accept,
            Some(false) => ProbeAction::Discard,
            None => ProbeAction::Retry,
        }
    }

    /// The handshake for `key`, with no read taken yet.
    pub fn new(key: String) -> (p: Probe)
        ensures
            p.valid(),
            p.key == key,
            p.misses == 0,
            p.verdict is None,
    {
        Probe { key, misses: 0, verdict: None }
    }

    /// Takes the outcome of one read: the bytes it gave, or `None` where
    /// nothing could be read.
    pub fn on_read(&mut self, reply: Option<&[u8]>) -> (action: ProbeAction)
        ensures
            old(self).valid() ==> final(self).valid(),
            *final(self) == old(self).next(
                match reply {
                    Some(bytes) => Some(bytes@),
                    None => None,
                },
            ),
            action == final(self).action(),
    {
        if self.verdict.is_none() {
            let matched = match reply {
                Some(bytes) => {
                    let content = decode_lossy(bytes);
                    echoes(content.as_str(), self.key.as_str())
                },
                None => false,
            };
            if matched {
                self.verdict = Some(true);
            } else if self.misses >= PROBE_ATTEMPTS - 1 {
                self.misses = PROBE_ATTEMPTS;
                self.verdict = Some(false);
            } else {
                self.misses = self.misses + 1;
            }
        }
        match self.verdict {
            Some(true) => ProbeAction::Accept,
            Some(false) => ProbeAction::Discard,
            None => ProbeAction::Retry,
        }
    }
}

/// The handshake after a run of reads.
pub open spec fn probe_run(start: Probe, replies: Seq<Option<Vec<u8>>>) -> Probe
    decreases replies.len(),
{
    if replies.len() == 0 {
        start
    } else {
        probe_run(start, replies.drop_last()).next(reply_view(replies.last()))
    }
}

/// A fresh handshake for `key`.
pub open spec fn probe_start(key: String) -> Probe {
    Probe { key, misses: 0, verdict: None }
}

/// After any run of reads the handshake has accepted exactly if one of the
/// first ten reads answered the probe; it has rejected exactly if none did
/// and ten reads were taken; and until then it asks for another read.
pub proof fn lemma_probe_verdict(key: String, replies: Seq<Option<Vec<u8>>>)
    ensures
        probe_run(probe_start(key), replies).valid(),
        probe_run(probe_start(key), replies).key == key,
        probe_run(probe_start(key), replies).verdict == if validates(key@, replies) {
            Some(true)
        } else if replies.len() >= PROBE_ATTEMPTS {
            Some(false)
        } else {
            None
        },
        probe_run(probe_start(key), replies).verdict is None ==> probe_run(
            probe_start(key),
            replies,
        ).misses == replies.len(),
    decreases replies.len(),
{
    if replies.len() > 0 {
        let front = replies.drop_last();
        lemma_probe_verdict(key, front);
        if validates(key@, front) {
            let i = choose|i: int|
                0 <= i < front.len() && i < PROBE_ATTEMPTS && answers(
                    key@,
                    reply_view(#[trigger] front[i]),
                );
            assert(replies[i] == front[i]);
        } else if validates(key@, replies) {
            let i = choose|i: int|
                0 <= i < replies.len() && i < PROBE_ATTEMPTS && answers(
                    key@,
                    reply_view(#[trigger] replies[i]),
                );
            if i < front.len() {
                assert(replies[i] == front[i]);
            }
        } else {
            if front.len() < PROBE_ATTEMPTS {
                assert(!answers(key@, reply_view(replies[front.len() as int])));
            }
        }
    }
}

/// Runs the handshake over the outcomes of the reads, in order: `Some` with
/// the bytes of a read, `None` where nothing could be read. True exactly if
/// one of the first ten answers the probe.
pub fn soc_is_shell(replies: &Vec<Option<Vec<u8>>>, soc_key: String) -> (is_shell: bool)
    ensures
        is_shell == validates(soc_key@, replies@),
{
    let ghost key = soc_key;
    let mut probe = Probe::new(soc_key);
    let mut i: usize = 0;
    while i < replies.len() && probe.verdict.is_none()
        invariant
            i <= replies.len(),
            probe.valid(),
            probe == probe_run(probe_start(key), replies@.take(i as int)),
        decreases replies.len() - i,
    {
        proof {
            assert(replies@.take(i + 1).drop_last() == replies@.take(i as int));
        }
        match &replies[i] {
            Some(bytes) => {
                probe.on_read(Some(bytes.as_slice()));
            },
            None => {
                probe.on_read(None);
            },
        }
        i += 1;
    }
    proof {
        lemma_probe_verdict(key, replies@.take(i as int));
        lemma_probe_verdict(key, replies@);
        lemma_validates_prefix(key@, replies@, i as int);
    }
    match probe.verdict {
        Some(true) => true,
        _ => false,
    }
}

/// Reads after the deciding one do not change the verdict.
proof fn lemma_validates_prefix(key: Seq<char>, replies: Seq<Option<Vec<u8>>>, n: int)
    requires
        0 <= n <= replies.len(),
        n == replies.len() || validates(key, replies.take(n)) || n >= PROBE_ATTEMPTS,
    ensures
        validates(key, replies.take(n)) == validates(key, replies),
{
    let front = replies.take(n);
    if n == replies.len() {
        assert(front == replies);
    } else if validates(key, front) {
        let i = choose|i: int|
            0 <= i < front.len() && i < PROBE_ATTEMPTS && answers(key, reply_view(#[trigger] front[i]));
        assert(replies[i] == front[i]);
    } else if validates(key, replies) {
        let i = choose|i: int|
            0 <= i < replies.len() && i < PROBE_ATTEMPTS && answers(
                key,
                reply_view(#[trigger] replies[i]),
            );
        assert(replies[i] == front[i]);
    }
}

/// Whether a connection is accepted: validation was waived, or the
/// handshake over `replies` succeeds.
pub open spec fn accepts(key: Seq<char>, replies: Seq<Option<Vec<u8>>>, skip_validation: Option<bool>) -> bool {
    skip_validation == Some(true) || validates(key, replies)
}

/// Accepts or drops one connection. `peer` is the peer's address where it
/// could be had, `conn` names the connection, `replies` are the outcomes of
/// the reads that follow the probe. An accepted connection is registered
/// under the id of its address, overwriting a session of the same id;
/// otherwise the registry stays as it was.
pub fn handle_new_shell(
    peer: Option<&str>,
    conn: u64,
    replies: &Vec<Option<Vec<u8>>>,
    connected_shells: &mut Registry,
    skip_validation: Option<bool>,
) -> (registered: bool)
    requires
        old(connected_shells).valid(),
    ensures
        final(connected_shells).valid(),
        registered == (peer is Some && accepts(id_of(peer->0@), replies@, skip_validation)),
        registered ==> final(connected_shells)@ == old(connected_shells)@.insert(
            id_of(peer->0@),
            Handle::fresh(conn),
        ),
        !registered ==> *final(connected_shells) == *old(connected_shells),
{
    match peer {
        None => false,
        Some(addr) => {
            let soc_key = session_id(addr);
            let is_shell = match skip_validation {
                Some(true) => true,
                _ => soc_is_shell(replies, soc_key.clone()),
            };
            if is_shell {
                connected_shells.insert(soc_key, Handle::new(conn));
                true
            } else {
                false
            }
        },
    }
}

} // verus!
