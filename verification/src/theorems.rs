//! What holds of the session table and the listener in every state, proved
//! over the models that their contracts are written in.

use crate::addr::PeerAddr;
use crate::listener::{Accepted, Datagram, ListenerError, ListenerView, Routing};
use crate::session::{SessionView, TableView};
use crate::wire::{conv_of, lemma_with_conv, parsed_conv, with_conv, HEADER_LEN};
use vstd::prelude::*;

verus! {

/// One operation on a session table.
pub enum TableOp {
    /// `register(conv, session)`
    Register { conv: u32, session: SessionView },
    /// `unregister(conv)`
    Unregister { conv: u32 },
    /// `lookup_and_dispatch(conv, peer, packet)`
    Dispatch { conv: u32, peer: PeerAddr, packet: Seq<u8> },
    /// `allocate_free_identifier()`
    Allocate,
    /// `take_input(conv)`
    TakeInput { conv: u32 },
    /// `stop()`
    Stop,
}

/// The table after one operation.
pub open spec fn apply(table: TableView, op: TableOp) -> TableView {
    match op {
        TableOp::Register { conv, session } => table.registered(conv, session),
        TableOp::Unregister { conv } => table.unregistered(conv),
        TableOp::Dispatch { conv, peer, packet } => table.dispatched(conv, peer, packet),
        TableOp::Allocate => table.after_allocation(),
        TableOp::TakeInput { conv } => table.drained(conv),
        TableOp::Stop => table.halted(),
    }
}

/// The table after the operations `ops`, in order.
pub open spec fn run(table: TableView, ops: Seq<TableOp>) -> TableView
    decreases ops.len(),
{
    if ops.len() == 0 {
        table
    } else {
        apply(run(table, ops.drop_last()), ops.last())
    }
}

/// Whether `op` is a registration of `conv` that the table accepts.
pub open spec fn registers(table: TableView, op: TableOp, conv: u32) -> bool {
    op matches TableOp::Register { conv: c, .. } && c == conv && table.register_error(conv) is None
}

/// An identifier that the table hands out is not 0 and names no live
/// connection, and the table hands one out unless every nonzero identifier
/// names a live connection.
pub proof fn allocated_identifier_is_unused(table: TableView)
    requires
        table.wf(),
    ensures
        table.allocation() matches Some(conv) ==> conv != 0 && !table.contains(conv),
        table.allocation() is None <==> (forall|c: u32|
            c != 0 ==> #[trigger] table.sessions.contains_key(c)),
{
    if !table.exhausted() {
        table.lemma_next_free_exists();
    }
}

/// An allocation leaves every connection as it was.
pub proof fn allocation_keeps_sessions(table: TableView)
    requires
        table.wf(),
    ensures
        table.after_allocation().wf(),
        table.after_allocation().sessions == table.sessions,
{
    if !table.exhausted() {
        table.lemma_next_free_exists();
    }
}

/// Every operation leaves the table valid: in particular 0 never names a
/// connection, and a stopped table stays empty.
pub proof fn operations_keep_table_valid(table: TableView, op: TableOp)
    requires
        table.wf(),
    ensures
        apply(table, op).wf(),
{
    match op {
        TableOp::Allocate => {
            allocation_keeps_sessions(table);
        },
        _ => {},
    }
}

/// Any sequence of operations leaves the table valid.
pub proof fn runs_keep_table_valid(table: TableView, ops: Seq<TableOp>)
    requires
        table.wf(),
    ensures
        run(table, ops).wf(),
    decreases ops.len(),
{
    if ops.len() > 0 {
        runs_keep_table_valid(table, ops.drop_last());
        operations_keep_table_valid(run(table, ops.drop_last()), ops.last());
    }
}

/// Once `conv` is registered it stays registered, or the table is stopped,
/// until it is unregistered.
proof fn stays_registered(table: TableView, ops: Seq<TableOp>, i: int, k: int, conv: u32)
    requires
        0 <= i < k <= ops.len(),
        registers(run(table, ops.take(i)), ops[i], conv),
        forall|m: int| i < m < k ==> ops[m] != (TableOp::Unregister { conv }),
    ensures
        run(table, ops.take(k)).contains(conv) || run(table, ops.take(k)).stopped,
    decreases k - i,
{
    assert(ops.take(k).drop_last() =~= ops.take(k - 1));
    assert(ops.take(k).last() == ops[k - 1]);
    if k > i + 1 {
        stays_registered(table, ops, i, k - 1, conv);
    }
}

/// In any sequence of operations, two registrations of the same identifier
/// that both succeed have an unregistration of it between them.
pub proof fn no_second_registration_without_unregister(
    table: TableView,
    ops: Seq<TableOp>,
    i: int,
    j: int,
    conv: u32,
)
    requires
        0 <= i < j < ops.len(),
        registers(run(table, ops.take(i)), ops[i], conv),
        registers(run(table, ops.take(j)), ops[j], conv),
    ensures
        exists|k: int| i < k < j && ops[k] == (TableOp::Unregister { conv }),
{
    if forall|m: int| i < m < j ==> ops[m] != (TableOp::Unregister { conv }) {
        stays_registered(table, ops, i, j, conv);
    }
}

/// After a successful unregistration the identifier can be registered again.
pub proof fn unregistered_identifier_can_return(table: TableView, conv: u32)
    requires
        table.wf(),
        !table.stopped,
        conv != 0,
    ensures
        table.unregistered(conv).register_error(conv) is None,
{
}

/// A datagram whose identifier names a live connection is routed to that
/// connection and opens none: the same identifiers are live afterwards, the
/// packet is the last of the connection's input, the sender's address is the
/// connection's address, and every other connection is as it was.
pub proof fn live_connection_is_routed(
    listener: ListenerView,
    peer: PeerAddr,
    bytes: Seq<u8>,
    conv: u32,
)
    requires
        listener.wf(),
        parsed_conv(listener.received(bytes)) == Some(conv),
        listener.table.contains(conv),
    ensures
        listener.outcome(bytes) == Ok::<Routing, ListenerError>(Routing::Routed { conv }),
        listener.after(peer, bytes).wf(),
        listener.after(peer, bytes).table.sessions.dom() == listener.table.sessions.dom(),
        listener.after(peer, bytes).table.waiting(conv) == listener.table.waiting(conv).push(
            listener.received(bytes),
        ),
        listener.after(peer, bytes).table.sessions[conv].peer == peer,
        forall|other: u32|
            other != conv && listener.table.contains(other) ==> listener.after(
                peer,
                bytes,
            ).table.sessions[other] == #[trigger] listener.table.sessions[other],
{
    let after = listener.after(peer, bytes);
    assert(!listener.table.stopped);
    assert(after.table.sessions.dom() =~= listener.table.sessions.dom());
}

/// A datagram with identifier 0 opens a connection whenever some nonzero
/// identifier names no live connection. The connection's identifier is not
/// 0 and named no connection before. Its first and only input is the
/// datagram with that identifier written into its header, and every other
/// connection is as it was.
pub proof fn unassigned_datagram_gets_unused_identifier(
    listener: ListenerView,
    peer: PeerAddr,
    bytes: Seq<u8>,
    unused: u32,
)
    requires
        listener.wf(),
        !listener.table.stopped,
        parsed_conv(listener.received(bytes)) == Some(0u32),
        unused != 0,
        !listener.table.contains(unused),
    ensures
        listener.outcome(bytes) matches Ok(Routing::Admitted { conv }) && {
            let after = listener.after(peer, bytes);
            let packet = with_conv(listener.received(bytes), conv);
            &&& conv != 0
            &&& !listener.table.contains(conv)
            &&& after.wf()
            &&& !after.table.contains(0)
            &&& after.table.sessions.dom() == listener.table.sessions.dom().insert(conv)
            &&& after.table.sessions[conv] == (SessionView { peer, inbox: seq![packet] })
            &&& conv_of(packet) == conv
            &&& packet.len() == listener.received(bytes).len()
            &&& forall|i: int| 4 <= i < packet.len() ==> packet[i] == listener.received(bytes)[i]
            &&& forall|other: u32| #[trigger]
                listener.table.contains(other) ==> after.table.sessions[other]
                    == listener.table.sessions[other]
        },
{
    let table = listener.table;
    assert(!table.contains(0));
    assert(!table.exhausted());
    allocated_identifier_is_unused(table);
    allocation_keeps_sessions(table);
    let conv = table.allocation()->0;
    lemma_with_conv(listener.received(bytes), conv);
    let after = listener.after(peer, bytes);
    assert(after.table.sessions.dom() =~= table.sessions.dom().insert(conv));
}

/// A datagram with identifier 0 is refused when every nonzero identifier
/// names a live connection, and the listener is as it was: no connection is
/// overwritten.
pub proof fn unassigned_datagram_is_refused_when_exhausted(
    listener: ListenerView,
    peer: PeerAddr,
    bytes: Seq<u8>,
)
    requires
        listener.wf(),
        !listener.table.stopped,
        parsed_conv(listener.received(bytes)) == Some(0u32),
        listener.table.exhausted(),
    ensures
        listener.outcome(bytes) == Err::<Routing, ListenerError>(ListenerError::Exhausted),
        listener.after(peer, bytes) == listener,
{
    assert(!listener.table.contains(0));
}

/// A datagram with an identifier of the peer's choosing that names no live
/// connection opens a connection under that identifier, with the datagram,
/// unchanged, as its first and only input.
pub proof fn chosen_identifier_is_kept(
    listener: ListenerView,
    peer: PeerAddr,
    bytes: Seq<u8>,
    conv: u32,
)
    requires
        listener.wf(),
        !listener.table.stopped,
        parsed_conv(listener.received(bytes)) == Some(conv),
        conv != 0,
        !listener.table.contains(conv),
    ensures
        listener.outcome(bytes) == Ok::<Routing, ListenerError>(Routing::Admitted { conv }),
        listener.after(peer, bytes).wf(),
        listener.after(peer, bytes).table.sessions == listener.table.sessions.insert(
            conv,
            SessionView { peer, inbox: seq![listener.received(bytes)] },
        ),
{
}

/// Whatever the datagram, a connection is opened only under an identifier
/// that is not 0 and named no connection before, and it is live afterwards:
/// no two connections ever share an identifier.
pub proof fn admission_takes_unused_identifier(
    listener: ListenerView,
    peer: PeerAddr,
    bytes: Seq<u8>,
)
    requires
        listener.wf(),
    ensures
        listener.after(peer, bytes).wf(),
        listener.outcome(bytes) matches Ok(Routing::Admitted { conv }) ==> {
            &&& conv != 0
            &&& !listener.table.contains(conv)
            &&& listener.after(peer, bytes).table.contains(conv)
        },
{
    let table = listener.table;
    allocated_identifier_is_unused(table);
    allocation_keeps_sessions(table);
}

/// Two datagrams in a row that both open a connection open them under
/// different identifiers.
pub proof fn successive_admissions_differ(
    listener: ListenerView,
    peer: PeerAddr,
    first: Seq<u8>,
    second: Seq<u8>,
    a: u32,
    b: u32,
)
    requires
        listener.wf(),
        listener.outcome(first) == Ok::<Routing, ListenerError>(Routing::Admitted { conv: a }),
        listener.after(peer, first).outcome(second) == Ok::<Routing, ListenerError>(
            Routing::Admitted { conv: b },
        ),
    ensures
        a != b,
{
    admission_takes_unused_identifier(listener, peer, first);
    admission_takes_unused_identifier(listener.after(peer, first), peer, second);
}

/// A datagram too short to hold a header is dropped, and the listener is as
/// it was.
pub proof fn short_datagram_is_dropped(listener: ListenerView, peer: PeerAddr, bytes: Seq<u8>)
    requires
        listener.wf(),
        !listener.table.stopped,
        bytes.len() < HEADER_LEN,
    ensures
        listener.outcome(bytes) == Ok::<Routing, ListenerError>(Routing::Dropped),
        listener.after(peer, bytes) == listener,
{
}

/// What `accept` returns is a connection that is live afterwards, under an
/// identifier that is not 0 and with the sender of its first datagram as its
/// address. The datagrams that are left are the end of the queue; none is
/// left when `accept` finds no new connection. Only a closed listener is
/// reported as closed, and the listener stays valid throughout.
pub proof fn accept_returns_live_connection(listener: ListenerView, queue: Seq<Datagram>)
    requires
        listener.wf(),
    ensures
        ({
            let run = listener.run_accept(queue);
            &&& run.listener.wf()
            &&& run.left.len() <= queue.len()
            &&& run.left == queue.subrange(queue.len() - run.left.len(), queue.len() as int)
            &&& run.result matches Ok(Some(accepted)) ==> {
                &&& accepted.conv != 0
                &&& run.listener.table.contains(accepted.conv)
                &&& run.listener.table.sessions[accepted.conv].peer == accepted.peer
                &&& run.listener.table.sessions[accepted.conv].inbox.len() == 1
            }
            &&& run.result == Ok::<Option<Accepted>, ListenerError>(None) ==> run.left.len() == 0
            &&& run.result == Err::<Option<Accepted>, ListenerError>(ListenerError::Closed)
                <==> listener.table.stopped
        }),
    decreases queue.len(),
{
    let run = listener.run_accept(queue);
    if listener.table.stopped {
        assert(run.left =~= queue.subrange(0, queue.len() as int));
    } else if queue.len() == 0 {
        assert(run.left =~= queue.subrange(0, queue.len() as int));
    } else {
        let first = queue[0];
        let rest = queue.subrange(1, queue.len() as int);
        let next = listener.after(first.peer, first.bytes@);
        admission_takes_unused_identifier(listener, first.peer, first.bytes@);
        match listener.outcome(first.bytes@) {
            Ok(Routing::Admitted { conv }) => {
                assert(run.left =~= queue.subrange(1, queue.len() as int));
            },
            Err(e) => {
                assert(run.left =~= queue.subrange(1, queue.len() as int));
            },
            Ok(_) => {
                listener.lemma_stays_open(first.peer, first.bytes@);
                accept_returns_live_connection(next, rest);
                let left = next.run_accept(rest).left;
                assert(left =~= queue.subrange(queue.len() - left.len(), queue.len() as int));
            },
        }
    }
}

/// When the first datagram in the queue has identifier 0 and some nonzero
/// identifier names no live connection, `accept` returns a connection for
/// it: under an identifier that is not 0 and named no connection before,
/// with the datagram's sender as its address and, as its first and only
/// input, the datagram with that identifier written into its header. The
/// rest of the queue is left.
pub proof fn accept_admits_unassigned_datagram(
    listener: ListenerView,
    queue: Seq<Datagram>,
    unused: u32,
)
    requires
        listener.wf(),
        !listener.table.stopped,
        queue.len() > 0,
        parsed_conv(listener.received(queue[0].bytes@)) == Some(0u32),
        unused != 0,
        !listener.table.contains(unused),
    ensures
        ({
            let run = listener.run_accept(queue);
            let received = listener.received(queue[0].bytes@);
            &&& run.left == queue.subrange(1, queue.len() as int)
            &&& run.result matches Ok(Some(accepted)) && {
                &&& accepted.conv != 0
                &&& accepted.peer == queue[0].peer
                &&& !listener.table.contains(accepted.conv)
                &&& !run.listener.table.contains(0)
                &&& run.listener.table.sessions[accepted.conv] == (SessionView {
                    peer: accepted.peer,
                    inbox: seq![with_conv(received, accepted.conv)],
                })
                &&& conv_of(with_conv(received, accepted.conv)) == accepted.conv
            }
        }),
{
    unassigned_datagram_gets_unused_identifier(listener, queue[0].peer, queue[0].bytes@, unused);
}

/// `accept` fails only on a closed listener, or at a datagram that asks for
/// an identifier when every nonzero identifier names a live connection. A
/// datagram that is too short never makes it fail.
pub proof fn accept_fails_only_closed_or_exhausted(listener: ListenerView, queue: Seq<Datagram>)
    requires
        listener.wf(),
    ensures
        ({
            let run = listener.run_accept(queue);
            &&& run.result == Err::<Option<Accepted>, ListenerError>(ListenerError::Closed)
                ==> listener.table.stopped
            &&& run.result == Err::<Option<Accepted>, ListenerError>(ListenerError::Exhausted)
                ==> forall|c: u32| c != 0 ==> #[trigger] run.listener.table.sessions.contains_key(c)
        }),
    decreases queue.len(),
{
    if !listener.table.stopped && queue.len() > 0 {
        let first = queue[0];
        let rest = queue.subrange(1, queue.len() as int);
        let next = listener.after(first.peer, first.bytes@);
        admission_takes_unused_identifier(listener, first.peer, first.bytes@);
        allocated_identifier_is_unused(listener.table);
        match listener.outcome(first.bytes@) {
            Ok(Routing::Admitted { conv }) => {},
            Err(e) => {
                assert(!listener.table.contains(0));
            },
            Ok(_) => {
                listener.lemma_stays_open(first.peer, first.bytes@);
                accept_fails_only_closed_or_exhausted(next, rest);
            },
        }
    }
}

/// The listener after `close`.
pub open spec fn closed(listener: ListenerView) -> ListenerView {
    ListenerView { table: listener.table.halted(), ..listener }
}

/// Once the listener is closed no identifier names a connection, whichever
/// were live before: a datagram is neither routed nor admitted, the table
/// offers it to no connection, nothing can be registered, and closing again
/// changes nothing.
pub proof fn closed_listener_recognizes_nothing(
    listener: ListenerView,
    conv: u32,
    peer: PeerAddr,
    bytes: Seq<u8>,
)
    requires
        listener.wf(),
    ensures
        closed(listener).wf(),
        !closed(listener).table.contains(conv),
        closed(listener).table.dispatched(conv, peer, bytes) == closed(listener).table,
        closed(listener).table.register_error(conv) is Some,
        closed(listener).outcome(bytes) == Err::<Routing, ListenerError>(ListenerError::Closed),
        closed(listener).after(peer, bytes) == closed(listener),
        closed(closed(listener)) == closed(listener),
{
}

} // verus!
