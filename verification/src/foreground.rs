//! The foreground token: who owns the operator's terminal.
//!
//! The outer menu owns the terminal while nobody holds the token. It gives
//! the token to the navigator, the navigator hands it on to the controller of
//! the session it attaches to, and whoever holds it last gives it back. The
//! outer menu prompts again only once the token is free.

use vstd::prelude::*;

verus! {

/// A party that can hold the foreground token.
#[derive(Clone, Copy, Debug, PartialEq, Eq, Structural)]
pub enum Holder {
    /// The session list.
    Navigator,
    /// The controller of the session on connection `conn`.
    Controller { conn: u64 },
}

/// The token: a single slot, so that it never has two holders.
#[derive(Clone, Copy, Debug, PartialEq, Eq, Structural)]
pub struct Foreground {
    pub holder: Option<Holder>,
}

impl Foreground {
    /// Whether the outer menu may prompt.
    pub open spec fn free(self) -> bool {
        self.holder is None
    }

    /// The token with nobody holding it.
    pub fn new() -> (token: Foreground)
        ensures
            token.free(),
    {
        Foreground { holder: None }
    }

    pub fn is_free(&self) -> (b: bool)
        ensures
            b == self.free(),
    {
        self.holder.is_none()
    }

    /// Whether `who` holds the token.
    pub fn held_by(&self, who: Holder) -> (b: bool)
        ensures
            b == (self.holder == Some(who)),
    {
        match self.holder {
            Some(holder) => holder == who,
            None => false,
        }
    }

    /// Gives the free token to `who`. Refused, with nothing changed, while
    /// somebody holds it.
    pub fn acquire(&mut self, who: Holder) -> (granted: bool)
        ensures
            granted == old(self).free(),
            *final(self) == acquired(*old(self), who),
    {
        if self.holder.is_none() {
            self.holder = Some(who);
            true
        } else {
            false
        }
    }

    /// Hands the token from `from` to `to`. Refused, with nothing changed,
    /// unless `from` holds it.
    pub fn hand_over(&mut self, from: Holder, to: Holder) -> (done: bool)
        ensures
            done == (old(self).holder == Some(from)),
            *final(self) == handed_over(*old(self), from, to),
    {
        if self.held_by(from) {
            self.holder = Some(to);
            true
        } else {
            false
        }
    }

    /// Gives the token back. Only its holder can do that: a release by
    /// anybody else, and with it a second release by the same party, is
    /// refused and changes nothing.
    pub fn release(&mut self, who: Holder) -> (done: bool)
        ensures
            done == (old(self).holder == Some(who)),
            *final(self) == released(*old(self), who),
    {
        if self.held_by(who) {
            self.holder = None;
            true
        } else {
            false
        }
    }
}

/// The token after `who` asked for it.
pub open spec fn acquired(token: Foreground, who: Holder) -> Foreground {
    if token.holder is None {
        Foreground { holder: Some(who) }
    } else {
        token
    }
}

/// The token after `from` handed it to `to`.
pub open spec fn handed_over(token: Foreground, from: Holder, to: Holder) -> Foreground {
    if token.holder == Some(from) {
        Foreground { holder: Some(to) }
    } else {
        token
    }
}

/// The token after a release by `who`.
pub open spec fn released(token: Foreground, who: Holder) -> Foreground {
    if token.holder == Some(who) {
        Foreground { holder: None }
    } else {
        token
    }
}

/// A release frees the token at most once: after the holder's release the
/// token is free, and a second release by the same party finds nothing to
/// release.
pub proof fn lemma_no_double_release(token: Foreground, who: Holder)
    ensures
        token.holder == Some(who) ==> released(token, who).free(),
        released(token, who).holder != Some(who),
        released(released(token, who), who) == released(token, who),
{
}

/// While one party holds the token, no other party can acquire or release
/// it.
pub proof fn lemma_exclusive(token: Foreground, holder: Holder, other: Holder)
    requires
        token.holder == Some(holder),
        other != holder,
    ensures
        !token.free(),
        acquired(token, other) == token,
        released(token, other) == token,
        handed_over(token, other, other) == token,
{
}

} // verus!
