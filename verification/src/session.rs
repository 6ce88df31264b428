//! The session table: which connection identifiers are live, what input is
//! waiting for each connection, and which identifier to hand out next.

use crate::addr::PeerAddr;
use std::collections::HashMap;
use vstd::prelude::*;
use vstd::slice::slice_to_vec;

verus! {

broadcast use vstd::std_specs::hash::group_hash_axioms;

/// Why a registration was refused.
#[derive(Clone, Copy, Debug, PartialEq, Eq, Structural)]
pub enum SessionError {
    /// The identifier 0 is reserved and never names a connection.
    ReservedIdentifier,
    /// The identifier already names a live connection.
    AlreadyRegistered,
    /// The table was stopped and takes no more connections.
    Stopped,
}

/// The table's side of one connection: the peer's current address and the
/// packets routed to the connection that it has not yet taken.
#[derive(Debug)]
pub struct Session {
    pub peer: PeerAddr,
    pub inbox: Vec<Vec<u8>>,
}

/// A session as contracts see it.
pub struct SessionView {
    pub peer: PeerAddr,
    pub inbox: Seq<Seq<u8>>,
}

impl View for Session {
    type V = SessionView;

    open spec fn view(&self) -> SessionView {
        SessionView { peer: self.peer, inbox: self.inbox@.map_values(|p: Vec<u8>| p@) }
    }
}

impl Session {
    /// A session for a peer at `peer` with no input waiting.
    pub fn new(peer: PeerAddr) -> (s: Session)
        ensures
            s@ == (SessionView { peer, inbox: Seq::empty() }),
    {
        let s = Session { peer, inbox: Vec::new() };
        assert(s@.inbox =~= Seq::empty());
        s
    }

    /// A session for a peer at `peer` whose first input is `packet`.
    pub fn with_first_input(peer: PeerAddr, packet: Vec<u8>) -> (s: Session)
        ensures
            s@ == (SessionView { peer, inbox: seq![packet@] }),
    {
        let mut inbox: Vec<Vec<u8>> = Vec::new();
        inbox.push(packet);
        let s = Session { peer, inbox };
        assert(s@.inbox =~= seq![packet@]);
        s
    }
}

/// The session table as contracts see it.
pub struct TableView {
    /// The live connections by identifier.
    pub sessions: Map<u32, SessionView>,
    /// Where the search for an unused identifier starts.
    pub next: u32,
    /// Whether the table was stopped.
    pub stopped: bool,
}

impl TableView {
    /// What holds of every table: 0 names no connection, the connections are
    /// finitely many, the search starts at a nonzero identifier, and a
    /// stopped table is empty.
    pub open spec fn wf(self) -> bool {
        &&& !self.sessions.contains_key(0)
        &&& self.sessions.dom().finite()
        &&& self.next != 0
        &&& self.stopped ==> self.sessions =~= Map::empty()
    }

    /// Whether `conv` names a live connection.
    pub open spec fn contains(self, conv: u32) -> bool {
        self.sessions.contains_key(conv)
    }

    /// Whether the table may hand out `conv` now: it is not 0 and names no
    /// live connection.
    pub open spec fn is_free(self, conv: u32) -> bool {
        conv != 0 && !self.sessions.contains_key(conv)
    }

    /// Whether every nonzero identifier names a live connection.
    pub open spec fn exhausted(self) -> bool {
        forall|c: u32| c != 0 ==> #[trigger] self.sessions.contains_key(c)
    }

    /// How many steps the search takes from its start to `conv`, going up and
    /// round from the largest identifier to 1.
    pub open spec fn distance(self, conv: u32) -> int {
        if conv >= self.next {
            conv - self.next
        } else {
            conv + u32::MAX - self.next
        }
    }

    /// Whether `conv` is the unused identifier that the search meets first.
    pub open spec fn is_next_free(self, conv: u32) -> bool {
        &&& self.is_free(conv)
        &&& forall|d: u32| #[trigger] self.is_free(d) ==> self.distance(conv) <= self.distance(d)
    }

    /// The unused identifier that the search meets first, where there is one.
    pub open spec fn next_free(self) -> u32 {
        choose|c: u32| self.is_next_free(c)
    }

    /// The identifier after `conv` in the search's order: the next larger
    /// one, and 1 after the largest.
    pub open spec fn successor(self, conv: u32) -> u32 {
        if conv == u32::MAX {
            1
        } else {
            (conv + 1) as u32
        }
    }

    /// What an allocation returns: nothing when every nonzero identifier is
    /// live, else the first unused one.
    pub open spec fn allocation(self) -> Option<u32> {
        if self.exhausted() {
            None
        } else {
            Some(self.next_free())
        }
    }

    /// The table after an allocation: the next search starts behind the
    /// identifier that was handed out.
    pub open spec fn after_allocation(self) -> TableView {
        match self.allocation() {
            Some(c) => TableView { next: self.successor(c), ..self },
            None => self,
        }
    }

    /// The table after `packet` from `peer` was offered to connection `conv`:
    /// a live connection has it at the end of its input and `peer` as its
    /// address; without such a connection nothing changes.
    pub open spec fn dispatched(self, conv: u32, peer: PeerAddr, packet: Seq<u8>) -> TableView {
        if self.sessions.contains_key(conv) {
            TableView {
                sessions: self.sessions.insert(
                    conv,
                    SessionView { peer, inbox: self.sessions[conv].inbox.push(packet) },
                ),
                ..self
            }
        } else {
            self
        }
    }

    /// Why `conv` cannot be registered now, if it cannot.
    pub open spec fn register_error(self, conv: u32) -> Option<SessionError> {
        if self.stopped {
            Some(SessionError::Stopped)
        } else if conv == 0 {
            Some(SessionError::ReservedIdentifier)
        } else if self.sessions.contains_key(conv) {
            Some(SessionError::AlreadyRegistered)
        } else {
            None
        }
    }

    /// The table after an attempt to register `session` under `conv`.
    pub open spec fn registered(self, conv: u32, session: SessionView) -> TableView {
        if self.register_error(conv) is None {
            TableView { sessions: self.sessions.insert(conv, session), ..self }
        } else {
            self
        }
    }

    /// The table without connection `conv`.
    pub open spec fn unregistered(self, conv: u32) -> TableView {
        TableView { sessions: self.sessions.remove(conv), ..self }
    }

    /// The table after connection `conv` took its waiting input.
    pub open spec fn drained(self, conv: u32) -> TableView {
        if self.sessions.contains_key(conv) {
            TableView {
                sessions: self.sessions.insert(
                    conv,
                    SessionView { peer: self.sessions[conv].peer, inbox: Seq::empty() },
                ),
                ..self
            }
        } else {
            self
        }
    }

    /// The input that waits for connection `conv`, oldest first.
    pub open spec fn waiting(self, conv: u32) -> Seq<Seq<u8>> {
        if self.sessions.contains_key(conv) {
            self.sessions[conv].inbox
        } else {
            Seq::empty()
        }
    }

    /// The table once it was stopped: no connection is left.
    pub open spec fn halted(self) -> TableView {
        TableView { sessions: Map::empty(), stopped: true, ..self }
    }

    /// At most one identifier is the first unused one.
    pub proof fn lemma_next_free_unique(self, c: u32, d: u32)
        requires
            self.wf(),
            self.is_next_free(c),
            self.is_next_free(d),
        ensures
            c == d,
    {
        assert(self.is_free(c) && self.is_free(d));
        assert(self.distance(c) <= self.distance(d));
        assert(self.distance(d) <= self.distance(c));
    }

    /// Unless the identifiers are exhausted, the first unused one exists.
    pub proof fn lemma_next_free_exists(self)
        requires
            self.wf(),
            !self.exhausted(),
        ensures
            self.is_next_free(self.next_free()),
    {
        let c0 = choose|c: u32| c != 0 && !self.sessions.contains_key(c);
        assert(self.is_free(c0));
        self.lemma_least_distance(c0, self.distance(c0));
    }

    /// Among the unused identifiers one is nearest to the search's start.
    proof fn lemma_least_distance(self, c: u32, bound: int)
        requires
            self.wf(),
            self.is_free(c),
            self.distance(c) <= bound,
        ensures
            exists|m: u32| self.is_next_free(m),
        decreases bound,
    {
        if exists|d: u32| self.is_free(d) && self.distance(d) < self.distance(c) {
            let d = choose|d: u32| self.is_free(d) && self.distance(d) < self.distance(c);
            self.lemma_least_distance(d, bound - 1);
        } else {
            assert(self.is_next_free(c));
        }
    }
}

/// The connections of one listener by identifier.
///
/// The table hands out the nonzero identifiers in rising order, going round
/// from the largest to 1 and passing over those that are live; a peer may
/// register any nonzero identifier of its own choosing.
pub struct SessionTable {
    entries: HashMap<u32, Session>,
    next: u32,
    stopped: bool,
}

impl View for SessionTable {
    type V = TableView;

    closed spec fn view(&self) -> TableView {
        TableView {
            sessions: self.entries@.map_values(|s: Session| s@),
            next: self.next,
            stopped: self.stopped,
        }
    }
}

impl SessionTable {
    /// The table's invariant.
    pub open spec fn wf(&self) -> bool {
        self@.wf()
    }

    /// An empty table whose search for unused identifiers starts at 1.
    pub fn new() -> (t: SessionTable)
        ensures
            t.wf(),
            t@ == (TableView { sessions: Map::empty(), next: 1, stopped: false }),
    {
        SessionTable::with_start(1)
    }

    /// An empty table whose search for unused identifiers starts at `first`,
    /// or at 1 if `first` is 0.
    pub fn with_start(first: u32) -> (t: SessionTable)
        ensures
            t.wf(),
            t@ == (TableView {
                sessions: Map::empty(),
                next: if first == 0 {
                    1
                } else {
                    first
                },
                stopped: false,
            }),
    {
        let next: u32 = if first == 0 {
            1
        } else {
            first
        };
        let t = SessionTable { entries: HashMap::new(), next, stopped: false };
        assert(t@.sessions =~= Map::empty());
        t
    }

    /// Whether `conv` names a live connection.
    pub fn contains(&self, conv: u32) -> (b: bool)
        ensures
            b == self@.contains(conv),
    {
        self.entries.contains_key(&conv)
    }

    /// The number of live connections.
    pub fn len(&self) -> (n: usize)
        ensures
            n == self@.sessions.len(),
    {
        assert(self@.sessions.dom() =~= self.entries@.dom());
        self.entries.len()
    }

    /// Whether no connection is live.
    pub fn is_empty(&self) -> (b: bool)
        ensures
            b == (self@.sessions =~= Map::empty()),
    {
        let b = self.entries.is_empty();
        proof {
            if b {
                assert(self@.sessions =~= Map::empty());
            } else {
                assert(self@.sessions.dom() =~= self.entries@.dom());
            }
        }
        b
    }

    /// Whether the table was stopped.
    pub fn is_stopped(&self) -> (b: bool)
        ensures
            b == self@.stopped,
    {
        self.stopped
    }

    /// The address last seen for connection `conv`.
    pub fn peer_of(&self, conv: u32) -> (r: Option<PeerAddr>)
        ensures
            r == if self@.contains(conv) {
                Some(self@.sessions[conv].peer)
            } else {
                None
            },
    {
        match self.entries.get(&conv) {
            Some(session) => Some(session.peer),
            None => None,
        }
    }

    /// The number of packets that wait for connection `conv`.
    pub fn pending(&self, conv: u32) -> (n: usize)
        ensures
            n == self@.waiting(conv).len(),
    {
        match self.entries.get(&conv) {
            Some(session) => session.inbox.len(),
            None => 0,
        }
    }

    /// Offers `packet`, received from `peer`, to connection `conv`. If the
    /// connection is live the packet joins the end of its input, `peer`
    /// becomes its address, and `true` is returned. Otherwise nothing changes
    /// and `false` is returned.
    pub fn lookup_and_dispatch(&mut self, conv: u32, peer: PeerAddr, packet: &[u8]) -> (found: bool)
        requires
            old(self).wf(),
        ensures
            final(self).wf(),
            found == old(self)@.contains(conv),
            final(self)@ == old(self)@.dispatched(conv, peer, packet@),
    {
        let ghost before = self@;
        match self.entries.remove(&conv) {
            Some(session) => {
                let ghost was = session@;
                let mut inbox = session.inbox;
                inbox.push(slice_to_vec(packet));
                let moved = Session { peer, inbox };
                proof {
                    assert(moved@.inbox =~= was.inbox.push(packet@));
                }
                self.entries.insert(conv, moved);
                proof {
                    assert(self@.sessions =~= before.dispatched(conv, peer, packet@).sessions);
                }
                true
            },
            None => {
                proof {
                    assert(self@.sessions =~= before.sessions);
                }
                false
            },
        }
    }

    /// Hands out an identifier that names no live connection: the first such
    /// identifier at or after the one that follows the identifier handed out
    /// last, going round from the largest to 1. Returns `None` only when
    /// every nonzero identifier is live; the table is then unchanged.
    pub fn allocate_free_identifier(&mut self) -> (r: Option<u32>)
        requires
            old(self).wf(),
        ensures
            final(self).wf(),
            r == old(self)@.allocation(),
            final(self)@ == old(self)@.after_allocation(),
            r is None <==> (forall|c: u32| c != 0 ==> #[trigger] old(self)@.sessions.contains_key(c)),
            r matches Some(c) ==> c != 0 && !old(self)@.contains(c),
    {
        let ghost before = self@;
        let mut candidate: u32 = self.next;
        let mut tried: u32 = 0;
        while tried < u32::MAX
            invariant
                self@ == before,
                before == old(self)@,
                before.wf(),
                candidate != 0,
                tried < u32::MAX ==> before.distance(candidate) == tried,
                forall|d: u32|
                    d != 0 && before.distance(d) < tried ==> #[trigger] before.sessions.contains_key(
                        d,
                    ),
            decreases u32::MAX - tried,
        {
            if !self.entries.contains_key(&candidate) {
                proof {
                    assert(before.is_free(candidate));
                    assert(before.is_next_free(candidate));
                    assert(!before.exhausted());
                    before.lemma_next_free_exists();
                    before.lemma_next_free_unique(candidate, before.next_free());
                }
                self.next = if candidate == u32::MAX {
                    1
                } else {
                    candidate + 1
                };
                return Some(candidate);
            }
            candidate = if candidate == u32::MAX {
                1
            } else {
                candidate + 1
            };
            tried = tried + 1;
        }
        proof {
            assert forall|c: u32| c != 0 implies #[trigger] before.sessions.contains_key(c) by {
                assert(before.distance(c) < tried);
            }
        }
        None
    }

    /// Enters `session` under `conv`. Fails, and changes nothing, if the table
    /// was stopped, if `conv` is 0, or if `conv` already names a live
    /// connection: a second peer is never merged into a connection that
    /// exists.
    pub fn register(&mut self, conv: u32, session: Session) -> (r: Result<(), SessionError>)
        requires
            old(self).wf(),
        ensures
            final(self).wf(),
            r == match old(self)@.register_error(conv) {
                Some(e) => Err::<(), SessionError>(e),
                None => Ok(()),
            },
            final(self)@ == old(self)@.registered(conv, session@),
    {
        let ghost before = self@;
        if self.stopped {
            Err(SessionError::Stopped)
        } else if conv == 0 {
            Err(SessionError::ReservedIdentifier)
        } else if self.entries.contains_key(&conv) {
            Err(SessionError::AlreadyRegistered)
        } else {
            self.entries.insert(conv, session);
            proof {
                assert(self@.sessions =~= before.sessions.insert(conv, session@));
            }
            Ok(())
        }
    }

    /// Removes connection `conv` and returns its session, so that the
    /// identifier can be handed out again. Without such a connection nothing
    /// changes.
    pub fn unregister(&mut self, conv: u32) -> (r: Option<Session>)
        requires
            old(self).wf(),
        ensures
            final(self).wf(),
            final(self)@ == old(self)@.unregistered(conv),
            !final(self)@.contains(conv),
            match r {
                Some(s) => old(self)@.contains(conv) && s@ == old(self)@.sessions[conv],
                None => !old(self)@.contains(conv),
            },
    {
        let ghost before = self@;
        let r = self.entries.remove(&conv);
        proof {
            assert(self@.sessions =~= before.sessions.remove(conv));
        }
        r
    }

    /// Takes the input that waits for connection `conv`, oldest first, and
    /// leaves the connection with none. Without such a connection the result
    /// is empty.
    pub fn take_input(&mut self, conv: u32) -> (packets: Vec<Vec<u8>>)
        requires
            old(self).wf(),
        ensures
            final(self).wf(),
            packets@.map_values(|p: Vec<u8>| p@) == old(self)@.waiting(conv),
            final(self)@ == old(self)@.drained(conv),
    {
        let ghost before = self@;
        match self.entries.remove(&conv) {
            Some(session) => {
                let emptied = Session { peer: session.peer, inbox: Vec::new() };
                proof {
                    assert(emptied@.inbox =~= Seq::empty());
                }
                self.entries.insert(conv, emptied);
                proof {
                    assert(self@.sessions =~= before.drained(conv).sessions);
                }
                session.inbox
            },
            None => {
                let packets: Vec<Vec<u8>> = Vec::new();
                proof {
                    assert(self@.sessions =~= before.sessions);
                    assert(packets@.map_values(|p: Vec<u8>| p@) =~= Seq::empty());
                }
                packets
            },
        }
    }

    /// Stops the table: every connection is removed and none is taken from
    /// now on. Stopping a stopped table changes nothing.
    pub fn stop(&mut self)
        requires
            old(self).wf(),
        ensures
            final(self).wf(),
            final(self)@ == old(self)@.halted(),
            final(self)@.sessions == Map::<u32, SessionView>::empty(),
    {
        self.entries.clear();
        self.stopped = true;
        proof {
            assert(self@.sessions =~= Map::empty());
        }
    }
}

} // verus!
