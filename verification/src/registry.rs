//! The session registry: the single source of truth for what is connected.

use crate::session::Handle;
use vstd::prelude::*;

verus! {

struct Entry {
    id: String,
    handle: Handle,
}

/// Why a rename was refused.
#[derive(Clone, Copy, Debug, PartialEq, Eq, Structural)]
pub enum RenameError {
    /// The new id is empty.
    Empty,
    /// The new id already names a session.
    Exists,
    /// No session has the old id.
    NotFound,
}

/// A map from session id to session, which also remembers the order in which
/// ids were first registered; lists are shown in that order.
pub struct Registry {
    entries: Vec<Entry>,
}

impl View for Registry {
    type V = Map<Seq<char>, Handle>;

    closed spec fn view(&self) -> Map<Seq<char>, Handle> {
        Map::new(
            |id: Seq<char>| self.slot(id) is Some,
            |id: Seq<char>| self.entries[self.slot(id)->0].handle,
        )
    }
}

impl Registry {
    closed spec fn distinct(self) -> bool {
        forall|i: int, j: int|
            0 <= i < j < self.entries.len() ==> self.entries[i].id@ != self.entries[j].id@
    }

    closed spec fn slot(self, id: Seq<char>) -> Option<int> {
        if exists|i: int| 0 <= i < self.entries.len() && self.entries[i].id@ == id {
            Some(choose|i: int| 0 <= i < self.entries.len() && self.entries[i].id@ == id)
        } else {
            None
        }
    }

    /// The ids, in listing order.
    pub closed spec fn order(self) -> Seq<Seq<char>> {
        Seq::new(self.entries.len() as nat, |i: int| self.entries[i].id@)
    }

    pub fn new() -> (r: Registry)
        ensures
            r.valid(),
            r@ == Map::<Seq<char>, Handle>::empty(),
            r.order() == Seq::<Seq<char>>::empty(),
    {
        let r = Registry { entries: Vec::new() };
        assert(r@ =~= Map::<Seq<char>, Handle>::empty());
        assert(r.order() =~= Seq::<Seq<char>>::empty());
        r
    }

    fn position(&self, id: &String) -> (p: Option<usize>)
        ensures
            match p {
                Some(i) => i < self.entries.len() && self.entries[i as int].id@ == id@,
                None => forall|i: int| 0 <= i < self.entries.len() ==> self.entries[i].id@ != id@,
            },
    {
        let mut i: usize = 0;
        while i < self.entries.len()
            invariant
                i <= self.entries.len(),
                forall|k: int| 0 <= k < i ==> self.entries[k].id@ != id@,
            decreases self.entries.len() - i,
        {
            if self.entries[i].id == *id {
                return Some(i);
            }
            i += 1;
        }
        None
    }

    /// How the map and the listing order belong together: the order holds
    /// each registered id once, and nothing else.
    pub proof fn lemma_order(self)
        requires
            self.valid(),
        ensures
            self.order().no_duplicates(),
            self@.dom() =~= self.order().to_set(),
            self@.dom().finite(),
            self@.dom().len() == self.order().len(),
    {
        let order = self.order();
        assert forall|id: Seq<char>| self@.dom().contains(id) <==> order.contains(id) by {
            if order.contains(id) {
                let i = choose|i: int| 0 <= i < order.len() && order[i] == id;
                assert(self.entries[i].id@ == id);
            }
            if self@.dom().contains(id) {
                assert(order[self.slot(id)->0] == id);
            }
        }
        assert(self@.dom() =~= order.to_set());
        order.unique_seq_to_set();
    }

    /// The consistency that every registry built through this interface has.
    pub closed spec fn valid(self) -> bool {
        self.distinct()
    }

    proof fn lemma_slot(self, i: int)
        requires
            self.distinct(),
            0 <= i < self.entries.len(),
        ensures
            self.slot(self.entries[i].id@) == Some(i),
            self@.contains_key(self.entries[i].id@),
            self@[self.entries[i].id@] == self.entries[i].handle,
            self.order()[i] == self.entries[i].id@,
    {
    }

    /// The number of registered sessions.
    pub fn len(&self) -> (n: usize)
        requires
            self.valid(),
        ensures
            n == self.order().len(),
            n == self@.dom().len(),
    {
        proof {
            self.lemma_order();
        }
        self.entries.len()
    }

    pub fn is_empty(&self) -> (b: bool)
        requires
            self.valid(),
        ensures
            b == (self.order().len() == 0),
            b == (self@ == Map::<Seq<char>, Handle>::empty()),
    {
        proof {
            self.lemma_order();
            if self.entries.len() == 0 {
                assert(self@ =~= Map::<Seq<char>, Handle>::empty());
            } else {
                self.lemma_slot(0);
            }
        }
        self.entries.len() == 0
    }

    /// Whether a session is registered under `id`.
    pub fn contains(&self, id: &String) -> (b: bool)
        requires
            self.valid(),
        ensures
            b == self@.contains_key(id@),
    {
        self.position(id).is_some()
    }

    /// The session registered under `id`, if there is one.
    pub fn get(&self, id: &String) -> (h: Option<Handle>)
        requires
            self.valid(),
        ensures
            h is Some <==> self@.contains_key(id@),
            h is Some ==> h->0 == self@[id@],
    {
        match self.position(id) {
            Some(i) => {
                proof {
                    self.lemma_slot(i as int);
                }
                Some(self.entries[i].handle)
            },
            None => None,
        }
    }

    /// The id in slot `i` of the listing order.
    pub fn id_at(&self, i: usize) -> (id: String)
        requires
            self.valid(),
            i < self.order().len(),
        ensures
            id@ == self.order()[i as int],
            self@.contains_key(id@),
    {
        proof {
            self.lemma_slot(i as int);
        }
        self.entries[i].id.clone()
    }

    /// Registers `handle` under `id`. A session already registered under
    /// `id` is overwritten and returned, and keeps its slot in the listing
    /// order; a new id goes to the end.
    pub fn insert(&mut self, id: String, handle: Handle) -> (previous: Option<Handle>)
        requires
            old(self).valid(),
        ensures
            final(self).valid(),
            final(self)@ == old(self)@.insert(id@, handle),
            previous is Some <==> old(self)@.contains_key(id@),
            previous is Some ==> previous->0 == old(self)@[id@],
            final(self).order() == if old(self)@.contains_key(id@) {
                old(self).order()
            } else {
                old(self).order().push(id@)
            },
    {
        let ghost before = *self;
        match self.position(&id) {
            Some(i) => {
                proof {
                    self.lemma_slot(i as int);
                }
                let previous = self.entries[i].handle;
                self.entries[i].handle = handle;
                proof {
                    assert forall|k: int| 0 <= k < self.entries.len() implies #[trigger] self.entries[k].id
                        == before.entries[k].id by {}
                    assert forall|x: Seq<char>| self.slot(x) == before.slot(x) by {
                        if before.slot(x) is Some {
                            self.lemma_slot(before.slot(x)->0);
                        }
                        if self.slot(x) is Some {
                            before.lemma_slot(self.slot(x)->0);
                        }
                    }
                    assert(self@ =~= before@.insert(id@, handle));
                    assert(self.order() =~= before.order());
                }
                Some(previous)
            },
            None => {
                let ghost key = id@;
                self.entries.push(Entry { id, handle });
                proof {
                    let n = before.entries.len() as int;
                    assert forall|x: Seq<char>| x != key implies self.slot(x) == before.slot(x) by {
                        if before.slot(x) is Some {
                            assert(self.entries[before.slot(x)->0].id@ == x);
                        }
                    }
                    assert(self.entries[n].id@ == key);
                    assert(self.slot(key) == Some(n));
                    assert(self@ =~= before@.insert(key, handle));
                    assert(self.order() =~= before.order().push(key));
                }
                None
            },
        }
    }

    /// Removes the session registered under `id` and fires its cancellation
    /// handle: the session comes back cancelled. An unknown id changes
    /// nothing and gives `None`.
    pub fn remove(&mut self, id: &String) -> (removed: Option<Handle>)
        requires
            old(self).valid(),
        ensures
            final(self).valid(),
            removed is Some <==> old(self)@.contains_key(id@),
            removed is Some ==> removed->0 == old(self)@[id@].cancel() && removed->0.cancelled,
            removed is None ==> *final(self) == *old(self),
            final(self)@ == old(self)@.remove(id@),
            final(self).order() == if old(self)@.contains_key(id@) {
                old(self).order().remove(old(self).order().index_of(id@))
            } else {
                old(self).order()
            },
    {
        let ghost before = *self;
        match self.position(id) {
            Some(i) => {
                proof {
                    before.lemma_slot(i as int);
                    before.lemma_order();
                }
                let entry = self.entries.remove(i);
                proof {
                    assert(before.order().index_of(id@) == i);
                    assert(self.order() =~= before.order().remove(i as int));
                    assert forall|x: Seq<char>| x != id@ implies self.slot(x) is Some
                        == before.slot(x) is Some && (self.slot(x) is Some
                        ==> self.entries[self.slot(x)->0].handle
                        == before.entries[before.slot(x)->0].handle) by {
                        if before.slot(x) is Some {
                            let k = before.slot(x)->0;
                            let k2 = if k < i { k } else { k - 1 };
                            assert(self.entries[k2].id@ == x);
                            self.lemma_slot(k2);
                        }
                        if self.slot(x) is Some {
                            let k = self.slot(x)->0;
                            let k2 = if k < i { k } else { k + 1 };
                            assert(before.entries[k2].id@ == x);
                            before.lemma_slot(k2);
                        }
                    }
                    assert(self.slot(id@) is None);
                    assert(self@ =~= before@.remove(id@));
                }
                Some(Handle { conn: entry.handle.conn, raw_mode: entry.handle.raw_mode, cancelled: true })
            },
            None => {
                proof {
                    assert(self@ =~= before@.remove(id@));
                }
                None
            },
        }
    }

    /// Moves the session registered under `from` to the id `to`. The session
    /// itself is untouched and keeps its slot in the listing order. Refused,
    /// with nothing changed, when `to` is empty, when `to` already names a
    /// session, or when `from` names none.
    pub fn rename(&mut self, from: &String, to: String) -> (r: Result<(), RenameError>)
        requires
            old(self).valid(),
        ensures
            final(self).valid(),
            r == rename_check(old(self)@, from@, to@),
            r is Err ==> *final(self) == *old(self),
            r is Ok ==> {
                &&& final(self)@ == old(self)@.remove(from@).insert(to@, old(self)@[from@])
                &&& final(self)@[to@] == old(self)@[from@]
                &&& !final(self)@.contains_key(from@)
                &&& final(self).order() == old(self).order().update(
                    old(self).order().index_of(from@),
                    to@,
                )
            },
    {
        let ghost before = *self;
        if to.as_str().is_empty() {
            return Err(RenameError::Empty);
        }
        if self.position(&to).is_some() {
            return Err(RenameError::Exists);
        }
        match self.position(from) {
            None => Err(RenameError::NotFound),
            Some(i) => {
                proof {
                    before.lemma_slot(i as int);
                    before.lemma_order();
                }
                let ghost key = to@;
                self.entries[i].id = to;
                proof {
                    assert(before.order().index_of(from@) == i);
                    assert(self.order() =~= before.order().update(i as int, key));
                    assert forall|k: int| 0 <= k < self.entries.len() && k != i implies #[trigger] self.entries[k]
                        == before.entries[k] by {}
                    assert(self.distinct());
                    self.lemma_slot(i as int);
                    assert forall|x: Seq<char>| x != from@ && x != key implies self.slot(x) is Some
                        == before.slot(x) is Some && (self.slot(x) is Some
                        ==> self.entries[self.slot(x)->0].handle
                        == before.entries[before.slot(x)->0].handle) by {
                        if before.slot(x) is Some {
                            self.lemma_slot(before.slot(x)->0);
                        }
                        if self.slot(x) is Some {
                            before.lemma_slot(self.slot(x)->0);
                        }
                    }
                    assert(self.slot(from@) is None);
                    assert(self@ =~= before@.remove(from@).insert(key, before@[from@]));
                }
                Ok(())
            },
        }
    }

    /// Flips the raw-mode preference of the session registered under `id`
    /// and gives the new value; `None`, with nothing changed, for an unknown
    /// id.
    pub fn toggle_raw_mode(&mut self, id: &String) -> (now: Option<bool>)
        requires
            old(self).valid(),
        ensures
            final(self).valid(),
            final(self).order() == old(self).order(),
            now is Some <==> old(self)@.contains_key(id@),
            now is None ==> *final(self) == *old(self),
            now is Some ==> now->0 == !old(self)@[id@].raw_mode && final(self)@ == old(self)@.insert(
                id@,
                old(self)@[id@].with_raw_mode(now->0),
            ),
    {
        match self.get(id) {
            None => None,
            Some(h) => {
                let raw: bool = !h.raw_mode;
                let key = id.clone();
                self.insert(key, Handle { conn: h.conn, raw_mode: raw, cancelled: h.cancelled });
                Some(raw)
            },
        }
    }

    /// The id under which the session on connection `conn` is registered:
    /// the first in listing order, should several sessions name `conn`.
    pub fn id_of_conn(&self, conn: u64) -> (id: Option<String>)
        requires
            self.valid(),
        ensures
            match id {
                Some(id) => {
                    &&& self@.contains_key(id@)
                    &&& self@[id@].conn == conn
                    &&& forall|j: int|
                        0 <= j < self.order().index_of(id@) ==> self@[#[trigger] self.order()[j]].conn
                            != conn
                },
                None => forall|k: Seq<char>| self@.contains_key(k) ==> (#[trigger] self@[k]).conn != conn,
            },
    {
        let mut i: usize = 0;
        while i < self.entries.len()
            invariant
                self.distinct(),
                i <= self.entries.len(),
                forall|j: int| 0 <= j < i ==> (#[trigger] self.entries[j]).handle.conn != conn,
            decreases self.entries.len() - i,
        {
            if self.entries[i].handle.conn == conn {
                proof {
                    self.lemma_slot(i as int);
                    self.lemma_order();
                    assert(self.order().index_of(self.entries[i as int].id@) == i);
                    assert forall|j: int| 0 <= j < i implies self@[#[trigger] self.order()[j]].conn
                        != conn by {
                        self.lemma_slot(j);
                    }
                }
                return Some(self.entries[i].id.clone());
            }
            i += 1;
        }
        proof {
            assert forall|k: Seq<char>| self@.contains_key(k) implies (#[trigger] self@[k]).conn
                != conn by {
                let j = self.slot(k)->0;
                self.lemma_slot(j);
            }
        }
        None
    }

    /// The sessions, in listing order.
    pub fn sessions(&self) -> (list: Vec<(String, Handle)>)
        requires
            self.valid(),
        ensures
            list.len() == self.order().len(),
            forall|i: int|
                0 <= i < list.len() ==> (#[trigger] list[i]).0@ == self.order()[i] && list[i].1
                    == self@[self.order()[i]],
    {
        let mut list: Vec<(String, Handle)> = Vec::new();
        let mut i: usize = 0;
        while i < self.entries.len()
            invariant
                self.distinct(),
                i <= self.entries.len(),
                list.len() == i,
                forall|k: int|
                    0 <= k < i ==> (#[trigger] list[k]).0@ == self.order()[k] && list[k].1
                        == self@[self.order()[k]],
            decreases self.entries.len() - i,
        {
            proof {
                self.lemma_slot(i as int);
            }
            list.push((self.entries[i].id.clone(), self.entries[i].handle));
            i += 1;
        }
        list
    }
}

/// The verdict on a rename request, in the order in which the checks are
/// made.
pub open spec fn rename_check(sessions: Map<Seq<char>, Handle>, from: Seq<char>, to: Seq<char>) -> Result<
    (),
    RenameError,
> {
    if to.len() == 0 {
        Err(RenameError::Empty)
    } else if sessions.contains_key(to) {
        Err(RenameError::Exists)
    } else if !sessions.contains_key(from) {
        Err(RenameError::NotFound)
    } else {
        Ok(())
    }
}

/// Inserting under one id twice leaves only the second session, and as many
/// sessions as after the first insert.
pub proof fn lemma_insert_overwrites(
    sessions: Map<Seq<char>, Handle>,
    id: Seq<char>,
    first: Handle,
    second: Handle,
)
    ensures
        sessions.insert(id, first).insert(id, second) == sessions.insert(id, second),
        sessions.insert(id, first).insert(id, second).dom() == sessions.insert(id, first).dom(),
        sessions.insert(id, first).insert(id, second)[id] == second,
{
    assert(sessions.insert(id, first).insert(id, second) =~= sessions.insert(id, second));
    assert(sessions.insert(id, first).insert(id, second).dom() =~= sessions.insert(id, first).dom());
}

/// A rename that succeeds keeps the number of sessions, and moves nothing
/// but the renamed session.
pub proof fn lemma_rename_preserves(sessions: Map<Seq<char>, Handle>, from: Seq<char>, to: Seq<char>)
    requires
        sessions.dom().finite(),
        rename_check(sessions, from, to) is Ok,
    ensures
        sessions.remove(from).insert(to, sessions[from]).dom().len() == sessions.dom().len(),
        forall|id: Seq<char>|
            id != from && id != to ==> (#[trigger] sessions.remove(from).insert(
                to,
                sessions[from],
            ).contains_key(id) <==> sessions.contains_key(id)),
        forall|id: Seq<char>|
            id != from && id != to && sessions.contains_key(id) ==> #[trigger] sessions.remove(
                from,
            ).insert(to, sessions[from])[id] == sessions[id],
{
    let after = sessions.remove(from).insert(to, sessions[from]);
    assert(after.dom() =~= sessions.dom().remove(from).insert(to));
}

} // verus!
