//! The listener: routes each datagram to the connection it belongs to, or
//! admits a new connection for it.

use crate::addr::PeerAddr;
use crate::config::KcpConfig;
use crate::session::{Session, SessionTable, SessionView, TableView};
use crate::wire::{assign_conv, conv_of, parse_conv, parsed_conv, with_conv};
use std::collections::VecDeque;
use vstd::prelude::*;
use vstd::slice::{slice_subrange, slice_to_vec};

verus! {

/// One datagram as it came from the socket.
#[derive(Debug)]
pub struct Datagram {
    /// The address it was sent from.
    pub peer: PeerAddr,
    /// Its content.
    pub bytes: Vec<u8>,
}

/// A connection that the listener has just admitted.
#[derive(Clone, Copy, Debug, PartialEq, Eq, Structural)]
pub struct Accepted {
    /// The connection's identifier.
    pub conv: u32,
    /// The address of the peer that opened it.
    pub peer: PeerAddr,
}

/// What the listener did with one datagram.
#[derive(Clone, Copy, Debug, PartialEq, Eq, Structural)]
pub enum Routing {
    /// The datagram was too short to hold a header and was discarded.
    Dropped,
    /// The datagram joined the input of the live connection `conv`.
    Routed { conv: u32 },
    /// The datagram opened connection `conv` and is its first input.
    Admitted { conv: u32 },
}

/// Why the listener could not go on.
#[derive(Clone, Copy, Debug, PartialEq, Eq, Structural)]
pub enum ListenerError {
    /// A peer asked for an identifier and every identifier is in use.
    Exhausted,
    /// The listener was closed.
    Closed,
}

/// The session table of a new listener: empty, and the search for unused
/// identifiers starts at 1.
pub open spec fn fresh_table() -> TableView {
    TableView { sessions: Map::empty(), next: 1, stopped: false }
}

/// The listener as contracts see it.
pub struct ListenerView {
    /// The session table.
    pub table: TableView,
    /// The configuration.
    pub config: KcpConfig,
}

/// How one call of `accept` ran.
pub struct AcceptRun {
    /// The listener afterwards.
    pub listener: ListenerView,
    /// The datagrams that were not looked at.
    pub left: Seq<Datagram>,
    /// What the call returned.
    pub result: Result<Option<Accepted>, ListenerError>,
}

impl ListenerView {
    /// The listener's invariant.
    pub open spec fn wf(self) -> bool {
        self.table.wf()
    }

    /// The size of the receive buffer.
    pub open spec fn mtu(self) -> nat {
        self.config.spec_recv_buffer_len() as nat
    }

    /// What the receive buffer holds of a datagram: all of it, or as much as
    /// fits.
    pub open spec fn received(self, bytes: Seq<u8>) -> Seq<u8> {
        if bytes.len() <= self.mtu() {
            bytes
        } else {
            bytes.take(self.mtu() as int)
        }
    }

    /// What the listener does with a datagram.
    pub open spec fn outcome(self, bytes: Seq<u8>) -> Result<Routing, ListenerError> {
        if self.table.stopped {
            Err(ListenerError::Closed)
        } else {
            match parsed_conv(self.received(bytes)) {
                None => Ok(Routing::Dropped),
                Some(conv) => if self.table.contains(conv) {
                    Ok(Routing::Routed { conv })
                } else if conv != 0 {
                    Ok(Routing::Admitted { conv })
                } else {
                    match self.table.allocation() {
                        Some(assigned) => Ok(Routing::Admitted { conv: assigned }),
                        None => Err(ListenerError::Exhausted),
                    }
                },
            }
        }
    }

    /// The packet that a new connection gets as its first input: what was
    /// received, with the identifier `conv` in its header.
    pub open spec fn first_input(self, bytes: Seq<u8>, conv: u32) -> Seq<u8> {
        let packet = self.received(bytes);
        if conv_of(packet) == 0 {
            with_conv(packet, conv)
        } else {
            packet
        }
    }

    /// The listener after a datagram from `peer`.
    pub open spec fn after(self, peer: PeerAddr, bytes: Seq<u8>) -> ListenerView {
        match self.outcome(bytes) {
            Ok(Routing::Routed { conv }) => ListenerView {
                table: self.table.dispatched(conv, peer, self.received(bytes)),
                ..self
            },
            Ok(Routing::Admitted { conv }) => {
                let table = if conv_of(self.received(bytes)) == 0 {
                    self.table.after_allocation()
                } else {
                    self.table
                };
                ListenerView {
                    table: table.registered(
                        conv,
                        SessionView { peer, inbox: seq![self.first_input(bytes, conv)] },
                    ),
                    ..self
                }
            },
            _ => self,
        }
    }

    /// How `accept` runs on the datagrams in `queue`: it takes them in order,
    /// up to and including the first that opens a connection or cannot be
    /// served.
    pub open spec fn run_accept(self, queue: Seq<Datagram>) -> AcceptRun
        decreases queue.len(),
    {
        if self.table.stopped {
            AcceptRun { listener: self, left: queue, result: Err(ListenerError::Closed) }
        } else if queue.len() == 0 {
            AcceptRun { listener: self, left: queue, result: Ok(None) }
        } else {
            let first = queue[0];
            let rest = queue.subrange(1, queue.len() as int);
            let listener = self.after(first.peer, first.bytes@);
            match self.outcome(first.bytes@) {
                Ok(Routing::Admitted { conv }) => AcceptRun {
                    listener,
                    left: rest,
                    result: Ok(Some(Accepted { conv, peer: first.peer })),
                },
                Err(e) => AcceptRun { listener, left: rest, result: Err(e) },
                Ok(_) => listener.run_accept(rest),
            }
        }
    }
}

/// A KCP server without its socket: it is handed the datagrams that were
/// read, keeps the session table, and says which connections are new.
pub struct KcpListener {
    sessions: SessionTable,
    config: KcpConfig,
}

impl View for KcpListener {
    type V = ListenerView;

    closed spec fn view(&self) -> ListenerView {
        ListenerView { table: self.sessions@, config: self.config }
    }
}

impl KcpListener {
    /// The listener's invariant.
    pub open spec fn wf(&self) -> bool {
        self@.wf()
    }

    /// A listener with the default configuration and an empty session table
    /// that hands out every nonzero identifier.
    pub fn new() -> (l: KcpListener)
        ensures
            l.wf(),
            l@.table == fresh_table(),
            l@.config == KcpConfig::spec_default(),
            l@.mtu() == crate::config::DEFAULT_MTU,
    {
        KcpListener::with_config(KcpConfig::default())
    }

    /// A listener with the given configuration and an empty session table
    /// that hands out every nonzero identifier.
    pub fn with_config(config: KcpConfig) -> (l: KcpListener)
        ensures
            l.wf(),
            l@.table == fresh_table(),
            l@.config == config,
    {
        KcpListener { sessions: SessionTable::new(), config }
    }

    /// A listener over a session table prepared by the caller.
    pub fn with_sessions(sessions: SessionTable, config: KcpConfig) -> (l: KcpListener)
        requires
            sessions.wf(),
        ensures
            l.wf(),
            l@.table == sessions@,
            l@.config == config,
    {
        KcpListener { sessions, config }
    }

    /// The configuration, in contracts.
    pub open spec fn spec_config(&self) -> KcpConfig {
        self@.config
    }

    /// The configuration that new connections are built with.
    pub fn config(&self) -> (c: KcpConfig)
        ensures
            c == self.spec_config(),
    {
        self.config
    }

    /// The size of the buffer to read datagrams into.
    pub fn recv_buffer_len(&self) -> (n: usize)
        ensures
            n == self@.mtu(),
    {
        self.config.recv_buffer_len()
    }

    /// Whether the listener was closed.
    pub fn is_closed(&self) -> (b: bool)
        ensures
            b == self@.table.stopped,
    {
        self.sessions.is_stopped()
    }

    /// The session table.
    pub fn sessions(&self) -> (t: &SessionTable)
        ensures
            t@ == self@.table,
    {
        &self.sessions
    }

    /// Routes or admits one datagram received from `peer`.
    ///
    /// Of the datagram only what fits the receive buffer counts. If that is
    /// too short to hold a header it is dropped. If its identifier names a
    /// live connection it joins that connection's input, and `peer` becomes
    /// the connection's address. Otherwise it opens a connection, under its
    /// own identifier or, if that is 0, under a newly assigned one that is
    /// written into the packet first; the packet is the connection's first
    /// input. When an identifier is asked for and none is unused, the
    /// datagram is refused and nothing changes.
    pub fn handle_datagram(&mut self, peer: PeerAddr, bytes: &[u8]) -> (r: Result<
        Routing,
        ListenerError,
    >)
        requires
            old(self).wf(),
        ensures
            final(self).wf(),
            r == old(self)@.outcome(bytes@),
            final(self)@ == old(self)@.after(peer, bytes@),
            final(self).spec_config() == old(self).spec_config(),
    {
        if self.sessions.is_stopped() {
            return Err(ListenerError::Closed);
        }
        let mtu = self.config.recv_buffer_len();
        let size = if bytes.len() <= mtu {
            bytes.len()
        } else {
            mtu
        };
        let received = slice_subrange(bytes, 0, size);
        assert(received@ =~= self@.received(bytes@));
        let conv = match parse_conv(received) {
            None => {
                return Ok(Routing::Dropped);
            },
            Some(conv) => conv,
        };
        if self.sessions.lookup_and_dispatch(conv, peer, received) {
            return Ok(Routing::Routed { conv });
        }
        let mut packet = slice_to_vec(received);
        let mut assigned = conv;
        if conv == 0 {
            match self.sessions.allocate_free_identifier() {
                None => {
                    return Err(ListenerError::Exhausted);
                },
                Some(free) => {
                    assigned = free;
                    assign_conv(&mut packet, free);
                },
            }
        }
        let registered = self.sessions.register(assigned, Session::with_first_input(peer, packet));
        assert(registered is Ok);
        Ok(Routing::Admitted { conv: assigned })
    }

    /// Takes datagrams from the front of `inbound` until one opens a
    /// connection, and returns that connection. Datagrams for live
    /// connections are routed to them and malformed ones dropped on the way.
    /// Returns `Ok(None)` when `inbound` runs out first.
    ///
    /// Fails with `Exhausted` at a datagram that asks for an identifier when
    /// none is unused, and with `Closed`, taking nothing, on a closed
    /// listener.
    pub fn accept(&mut self, inbound: &mut VecDeque<Datagram>) -> (r: Result<
        Option<Accepted>,
        ListenerError,
    >)
        requires
            old(self).wf(),
        ensures
            final(self).wf(),
            old(self)@.run_accept(old(inbound)@) == (AcceptRun {
                listener: final(self)@,
                left: final(inbound)@,
                result: r,
            }),
            final(self).spec_config() == old(self).spec_config(),
    {
        if self.sessions.is_stopped() {
            return Err(ListenerError::Closed);
        }
        loop
            invariant
                self.wf(),
                !self@.table.stopped,
                self.spec_config() == old(self).spec_config(),
                old(self)@.run_accept(old(inbound)@) == self@.run_accept(inbound@),
            decreases inbound@.len(),
        {
            let ghost before = self@;
            let ghost queue = inbound@;
            let datagram = match inbound.pop_front() {
                None => {
                    return Ok(None);
                },
                Some(datagram) => datagram,
            };
            match self.handle_datagram(datagram.peer, datagram.bytes.as_slice()) {
                Ok(Routing::Admitted { conv }) => {
                    return Ok(Some(Accepted { conv, peer: datagram.peer }));
                },
                Err(e) => {
                    return Err(e);
                },
                Ok(_) => {
                    proof {
                        before.lemma_stays_open(datagram.peer, datagram.bytes@);
                    }
                },
            }
        }
    }

    /// Takes the input that waits for connection `conv`, oldest first.
    pub fn take_input(&mut self, conv: u32) -> (packets: Vec<Vec<u8>>)
        requires
            old(self).wf(),
        ensures
            final(self).wf(),
            packets@.map_values(|p: Vec<u8>| p@) == old(self)@.table.waiting(conv),
            final(self)@ == (ListenerView { table: old(self)@.table.drained(conv), ..old(self)@ }),
            final(self).spec_config() == old(self).spec_config(),
    {
        self.sessions.take_input(conv)
    }

    /// Ends connection `conv`: its identifier can be used again. Returns
    /// whether there was such a connection.
    pub fn release(&mut self, conv: u32) -> (was_live: bool)
        requires
            old(self).wf(),
        ensures
            final(self).wf(),
            was_live == old(self)@.table.contains(conv),
            final(self)@ == (ListenerView {
                table: old(self)@.table.unregistered(conv),
                ..old(self)@
            }),
            final(self).spec_config() == old(self).spec_config(),
    {
        self.sessions.unregister(conv).is_some()
    }

    /// Settles the admission of connection `conv` once its first input was
    /// given to the connection's protocol state. If that input was decoded
    /// the connection stays as it is. If it was not, the datagram that opened
    /// the connection was malformed: the connection is removed, its
    /// identifier can be used again, and the listener goes on with the next
    /// datagram. Returns whether the connection is kept.
    pub fn settle_admission(&mut self, conv: u32, decoded: bool) -> (kept: bool)
        requires
            old(self).wf(),
        ensures
            final(self).wf(),
            kept == (decoded && old(self)@.table.contains(conv)),
            final(self)@ == if decoded {
                old(self)@
            } else {
                (ListenerView { table: old(self)@.table.unregistered(conv), ..old(self)@ })
            },
            final(self).spec_config() == old(self).spec_config(),
    {
        if decoded {
            self.sessions.contains(conv)
        } else {
            self.sessions.unregister(conv);
            false
        }
    }

    /// Closes the listener: the session table is stopped and emptied.
    /// Closing a closed listener changes nothing.
    pub fn close(&mut self)
        requires
            old(self).wf(),
        ensures
            final(self).wf(),
            final(self)@ == (ListenerView { table: old(self)@.table.halted(), ..old(self)@ }),
            final(self).spec_config() == old(self).spec_config(),
    {
        self.sessions.stop();
    }

    /// This listener as a source of connections.
    pub fn incoming(self) -> (i: Incoming)
        ensures
            i.inner == self,
    {
        Incoming { inner: self }
    }
}

impl ListenerView {
    /// A datagram that is routed or dropped leaves the listener open.
    pub proof fn lemma_stays_open(self, peer: PeerAddr, bytes: Seq<u8>)
        requires
            self.wf(),
            !self.table.stopped,
        ensures
            !self.after(peer, bytes).table.stopped,
    {
    }
}

/// The connections that arrive at a listener, one after the other and
/// without end.
pub struct Incoming {
    pub inner: KcpListener,
}

impl Incoming {
    /// The next connection, as [`KcpListener::accept`] returns it.
    pub fn next(&mut self, inbound: &mut VecDeque<Datagram>) -> (r: Result<
        Option<Accepted>,
        ListenerError,
    >)
        requires
            old(self).inner.wf(),
        ensures
            final(self).inner.wf(),
            old(self).inner@.run_accept(old(inbound)@) == (AcceptRun {
                listener: final(self).inner@,
                left: final(inbound)@,
                result: r,
            }),
            final(self).inner.spec_config() == old(self).inner.spec_config(),
    {
        self.inner.accept(inbound)
    }
}

} // verus!
