use kcp_listener::{PeerAddr, Session, SessionError, SessionTable};

fn peer(port: u16) -> PeerAddr {
    PeerAddr::V4 { ip: 0x7F00_0001, port }
}

#[test]
fn new_table_is_empty() {
    let table = SessionTable::new();
    assert_eq!(table.len(), 0);
    assert!(table.is_empty());
    assert!(!table.is_stopped());
    assert!(!table.contains(1));
    assert_eq!(table.peer_of(1), None);
    assert_eq!(table.pending(1), 0);
}

#[test]
fn allocation_starts_at_one_and_goes_up() {
    let mut table = SessionTable::new();
    assert_eq!(table.allocate_free_identifier(), Some(1));
    assert_eq!(table.register(1, Session::new(peer(1))), Ok(()));
    assert_eq!(table.allocate_free_identifier(), Some(2));
    assert_eq!(table.register(2, Session::new(peer(2))), Ok(()));
    assert_eq!(table.allocate_free_identifier(), Some(3));
}

#[test]
fn allocated_identifier_is_nonzero_and_unused() {
    let mut table = SessionTable::new();
    for conv in [1u32, 2, 3, 5, 8] {
        assert_eq!(table.register(conv, Session::new(peer(9))), Ok(()));
    }
    let first = table.allocate_free_identifier();
    assert_eq!(first, Some(4));
    assert_eq!(table.register(4, Session::new(peer(9))), Ok(()));
    let second = table.allocate_free_identifier();
    assert_eq!(second, Some(6));
    assert_eq!(table.register(6, Session::new(peer(9))), Ok(()));
    assert_eq!(table.allocate_free_identifier(), Some(7));
}

#[test]
fn allocation_does_not_reuse_the_identifier_just_freed() {
    let mut table = SessionTable::new();
    assert_eq!(table.allocate_free_identifier(), Some(1));
    assert_eq!(table.register(1, Session::new(peer(1))), Ok(()));
    assert!(table.unregister(1).is_some());
    assert_eq!(table.allocate_free_identifier(), Some(2));
}

#[test]
fn register_refuses_zero() {
    let mut table = SessionTable::new();
    assert_eq!(
        table.register(0, Session::new(peer(1))),
        Err(SessionError::ReservedIdentifier)
    );
    assert!(table.is_empty());
    assert!(!table.contains(0));
}

#[test]
fn register_refuses_a_live_identifier() {
    let mut table = SessionTable::new();
    assert_eq!(table.register(7, Session::new(peer(1))), Ok(()));
    assert_eq!(
        table.register(7, Session::new(peer(2))),
        Err(SessionError::AlreadyRegistered)
    );
    assert_eq!(table.len(), 1);
    // The connection that was there is untouched.
    assert_eq!(table.peer_of(7), Some(peer(1)));
}

#[test]
fn register_succeeds_again_after_unregister() {
    let mut table = SessionTable::new();
    assert_eq!(table.register(7, Session::new(peer(1))), Ok(()));
    assert_eq!(
        table.register(7, Session::new(peer(2))),
        Err(SessionError::AlreadyRegistered)
    );
    let removed = table.unregister(7);
    assert_eq!(removed.map(|s| s.peer), Some(peer(1)));
    assert_eq!(table.register(7, Session::new(peer(2))), Ok(()));
    assert_eq!(table.peer_of(7), Some(peer(2)));
}

#[test]
fn register_refuses_after_stop() {
    let mut table = SessionTable::new();
    table.stop();
    assert_eq!(
        table.register(3, Session::new(peer(1))),
        Err(SessionError::Stopped)
    );
    assert_eq!(
        table.register(0, Session::new(peer(1))),
        Err(SessionError::Stopped)
    );
    assert!(table.is_empty());
}

#[test]
fn unregister_of_unknown_identifier_changes_nothing() {
    let mut table = SessionTable::new();
    assert_eq!(table.register(1, Session::new(peer(1))), Ok(()));
    assert!(table.unregister(2).is_none());
    assert_eq!(table.len(), 1);
    assert!(table.contains(1));
}

#[test]
fn dispatch_to_live_connection_queues_the_packet() {
    let mut table = SessionTable::new();
    assert_eq!(table.register(4, Session::new(peer(1))), Ok(()));
    assert!(table.lookup_and_dispatch(4, peer(1), &[1, 2, 3]));
    assert!(table.lookup_and_dispatch(4, peer(1), &[4, 5]));
    assert_eq!(table.pending(4), 2);
    assert_eq!(table.len(), 1);
    assert_eq!(table.take_input(4), vec![vec![1u8, 2, 3], vec![4u8, 5]]);
    assert_eq!(table.pending(4), 0);
    assert!(table.contains(4));
    assert_eq!(table.take_input(4), Vec::<Vec<u8>>::new());
}

#[test]
fn dispatch_to_unknown_identifier_consumes_nothing() {
    let mut table = SessionTable::new();
    assert_eq!(table.register(4, Session::new(peer(1))), Ok(()));
    assert!(!table.lookup_and_dispatch(5, peer(2), &[1, 2, 3]));
    assert!(!table.lookup_and_dispatch(0, peer(2), &[1, 2, 3]));
    assert_eq!(table.len(), 1);
    assert!(!table.contains(5));
    assert_eq!(table.pending(4), 0);
    assert_eq!(table.pending(5), 0);
    assert_eq!(table.peer_of(4), Some(peer(1)));
}

#[test]
fn dispatch_follows_the_peer_to_a_new_address() {
    let mut table = SessionTable::new();
    assert_eq!(table.register(4, Session::new(peer(1))), Ok(()));
    assert!(table.lookup_and_dispatch(4, peer(2), &[9]));
    assert_eq!(table.peer_of(4), Some(peer(2)));
    let moved = PeerAddr::V6 { ip: 1, port: 4000, flowinfo: 0, scope_id: 0 };
    assert!(table.lookup_and_dispatch(4, moved, &[8]));
    assert_eq!(table.peer_of(4), Some(moved));
    assert_eq!(table.take_input(4), vec![vec![9u8], vec![8u8]]);
}

#[test]
fn dispatch_keeps_connections_apart() {
    let mut table = SessionTable::new();
    assert_eq!(table.register(1, Session::new(peer(1))), Ok(()));
    assert_eq!(table.register(2, Session::new(peer(2))), Ok(()));
    assert!(table.lookup_and_dispatch(1, peer(1), &[1]));
    assert!(table.lookup_and_dispatch(2, peer(2), &[2]));
    assert!(table.lookup_and_dispatch(1, peer(1), &[3]));
    assert_eq!(table.take_input(1), vec![vec![1u8], vec![3u8]]);
    assert_eq!(table.take_input(2), vec![vec![2u8]]);
    assert_eq!(table.peer_of(1), Some(peer(1)));
    assert_eq!(table.peer_of(2), Some(peer(2)));
}

#[test]
fn session_with_first_input_holds_it() {
    let mut table = SessionTable::new();
    let session = Session::with_first_input(peer(1), vec![1, 2, 3]);
    assert_eq!(session.peer, peer(1));
    assert_eq!(session.inbox, vec![vec![1u8, 2, 3]]);
    assert_eq!(table.register(9, session), Ok(()));
    assert_eq!(table.pending(9), 1);
    assert_eq!(table.take_input(9), vec![vec![1u8, 2, 3]]);
}

#[test]
fn unregister_returns_the_waiting_input() {
    let mut table = SessionTable::new();
    assert_eq!(table.register(9, Session::new(peer(1))), Ok(()));
    assert!(table.lookup_and_dispatch(9, peer(1), &[7, 7]));
    let session = table.unregister(9).unwrap();
    assert_eq!(session.inbox, vec![vec![7u8, 7]]);
    assert!(!table.contains(9));
    assert_eq!(table.take_input(9), Vec::<Vec<u8>>::new());
}

#[test]
fn stop_empties_the_table() {
    let mut table = SessionTable::new();
    assert_eq!(table.register(1, Session::new(peer(1))), Ok(()));
    assert_eq!(table.register(2, Session::new(peer(2))), Ok(()));
    table.stop();
    assert!(table.is_stopped());
    assert!(table.is_empty());
    assert_eq!(table.len(), 0);
    assert!(!table.lookup_and_dispatch(1, peer(1), &[1]));
    assert!(!table.lookup_and_dispatch(2, peer(2), &[1]));
    assert_eq!(table.pending(1), 0);
    assert!(table.unregister(1).is_none());
}

#[test]
fn stop_twice_is_the_same_as_once() {
    let mut table = SessionTable::new();
    assert_eq!(table.register(1, Session::new(peer(1))), Ok(()));
    table.stop();
    table.stop();
    assert!(table.is_stopped());
    assert!(table.is_empty());
    assert!(!table.lookup_and_dispatch(1, peer(1), &[1]));
}

#[test]
fn peer_addr_accessors() {
    let v4 = PeerAddr::V4 { ip: 1, port: 80 };
    let v6 = PeerAddr::V6 { ip: 1, port: 443, flowinfo: 0, scope_id: 0 };
    assert_eq!(v4.port(), 80);
    assert_eq!(v6.port(), 443);
    assert!(v4.is_ipv4());
    assert!(!v6.is_ipv4());
}

#[test]
fn search_starts_where_it_is_told() {
    let mut table = SessionTable::with_start(5);
    assert!(table.is_empty());
    assert!(!table.is_stopped());
    assert_eq!(table.allocate_free_identifier(), Some(5));
    assert_eq!(table.allocate_free_identifier(), Some(6));
    let mut from_zero = SessionTable::with_start(0);
    assert_eq!(from_zero.allocate_free_identifier(), Some(1));
}

#[test]
fn allocation_wraps_round_from_the_largest_identifier_to_one() {
    let mut table = SessionTable::with_start(u32::MAX - 1);
    assert_eq!(table.allocate_free_identifier(), Some(u32::MAX - 1));
    assert_eq!(table.register(u32::MAX - 1, Session::new(peer(1))), Ok(()));
    assert_eq!(table.allocate_free_identifier(), Some(u32::MAX));
    assert_eq!(table.register(u32::MAX, Session::new(peer(2))), Ok(()));
    // Round to 1: never 0.
    assert_eq!(table.allocate_free_identifier(), Some(1));
    assert_eq!(table.register(1, Session::new(peer(3))), Ok(()));
    assert_eq!(table.allocate_free_identifier(), Some(2));
}

#[test]
fn allocation_after_wrapping_skips_live_connections() {
    let mut table = SessionTable::with_start(u32::MAX);
    assert_eq!(table.register(u32::MAX, Session::new(peer(1))), Ok(()));
    assert_eq!(table.register(1, Session::new(peer(2))), Ok(()));
    assert_eq!(table.register(2, Session::new(peer(3))), Ok(()));
    assert_eq!(table.allocate_free_identifier(), Some(3));
    assert_eq!(table.len(), 3);
    assert_eq!(table.peer_of(u32::MAX), Some(peer(1)));
    assert_eq!(table.peer_of(1), Some(peer(2)));
    assert_eq!(table.peer_of(2), Some(peer(3)));
}

#[test]
fn allocation_goes_on_while_any_identifier_is_unused() {
    let mut table = SessionTable::new();
    for conv in 1u32..=200 {
        assert_eq!(table.allocate_free_identifier(), Some(conv));
        assert_eq!(table.register(conv, Session::new(peer(1))), Ok(()));
    }
    assert_eq!(table.len(), 200);
    assert_eq!(table.allocate_free_identifier(), Some(201));
}
