use netcanv_core::matchmaker::connection::{broadcast_outcome, Reader, Received};
use netcanv_core::matchmaker::peers::Peers;
use netcanv_core::matchmaker::rooms::{Rooms, ID_CHARSET};
use netcanv_core::matchmaker::search::ID_ATTEMPTS;
use netcanv_core::matchmaker::server::{Action, Failure, State};
use netcanv_core::protocol::{Address, Error, Packet, PeerId, RoomId};

fn address(n: u16) -> Address {
    Address { ip: 0x7f00_0001, port: n }
}

fn room(text: &str) -> RoomId {
    let mut id = [0; 6];
    id.copy_from_slice(text.as_bytes());
    RoomId(id)
}

/// Opens a room for the address, and returns the room and the host.
fn open_room(state: &mut State<u16>, n: u16) -> (RoomId, PeerId) {
    match state.handle_packet(n, address(n), Packet::Host) {
        Action::Answer { packet: Packet::RoomCreated(room_id, peer_id), then: Ok(()) } => {
            (room_id, peer_id)
        }
        action => panic!("unexpected {:?}", action),
    }
}

/// Lets the address into the room, and returns the host that it is told.
fn enter_room(state: &mut State<u16>, n: u16, room_id: RoomId) -> PeerId {
    match state.handle_packet(n, address(n), Packet::Join(room_id)) {
        Action::Answer { packet: Packet::HostId(host), then: Ok(()) } => host,
        action => panic!("unexpected {:?}", action),
    }
}

/// Has the address broadcast data, and returns who sent it and the streams it goes out to.
fn broadcast(state: &mut State<u16>, n: u16) -> (PeerId, Vec<u16>) {
    let packet = Packet::Relay(PeerId(PeerId::BROADCAST), vec![1, 2, 3]);
    match state.handle_packet(n, address(n), packet) {
        Action::Broadcast { packet: Packet::Relayed(sender, data), targets } => {
            assert_eq!(data, vec![1, 2, 3]);
            (sender, targets.iter().map(|id| *state.stream(*id).unwrap()).collect())
        }
        action => panic!("unexpected {:?}", action),
    }
}

#[test]
fn broadcast_id_is_recognized() {
    assert!(PeerId(PeerId::BROADCAST).is_broadcast());
    assert!(!PeerId(PeerId::FIRST_PEER).is_broadcast());
    assert!(!PeerId(PeerId::LAST_PEER).is_broadcast());
}

#[test]
fn charset_is_almost_base32() {
    assert_eq!(ID_CHARSET.len(), 33);
    for c in ['I', 'O', '0'] {
        assert!(!ID_CHARSET.contains(c));
    }
}

#[test]
fn room_ids_are_composed_of_the_charset() {
    assert_eq!(Rooms::compose_room_id([0, 8, 9, 16, 17, 32]), room("19AHJZ"));
}

#[test]
fn generated_room_ids_differ() {
    let ids: Vec<RoomId> = (0..32).map(|_| Rooms::generate_room_id()).collect();
    for id in &ids {
        assert!(id.0.iter().all(|byte| ID_CHARSET.as_bytes().contains(byte)));
    }
    assert!(ids.iter().any(|id| *id != ids[0]));
    assert!(ids.iter().any(|id| id.0.iter().any(|byte| *byte != b'1')));
}

#[test]
fn taken_room_ids_cannot_be_claimed() {
    let mut rooms = Rooms::new();
    assert!(rooms.claim_room_id(room("ABCDEF")));
    rooms.join_room(PeerId(7), room("ABCDEF"));
    assert!(!rooms.claim_room_id(room("ABCDEF")));
    assert!(rooms.claim_room_id(room("ABCDEG")));
    assert_eq!(rooms.peers_in_room(room("ABCDEF")), Some(&vec![PeerId(7)]));
    assert_eq!(rooms.peers_in_room(room("ABCDEG")), Some(&vec![]));
    assert_eq!(rooms.peers_in_room(room("ABCDEH")), None);
}

#[test]
fn found_rooms_are_open_and_empty() {
    let mut rooms = Rooms::new();
    let id = rooms.find_room_id().unwrap();
    assert_eq!(rooms.peers_in_room(id), Some(&vec![]));
    assert_eq!(rooms.host_id(id), None);
    assert!(!rooms.claim_room_id(id));
}

#[test]
fn hosts_are_remembered() {
    let mut rooms = Rooms::new();
    let id = room("ABCDEF");
    assert_eq!(rooms.host_id(id), None);
    rooms.claim_room_id(id);
    rooms.make_host(id, PeerId(3));
    assert_eq!(rooms.host_id(id), Some(PeerId(3)));
}

#[test]
fn closed_rooms_cannot_be_joined() {
    let mut rooms = Rooms::new();
    rooms.join_room(PeerId(3), room("ABCDEF"));
    assert_eq!(rooms.room_id(PeerId(3)), None);
    assert_eq!(rooms.peers_in_room(room("ABCDEF")), None);
}

#[test]
fn last_peer_takes_the_place_of_the_one_that_quits() {
    let mut rooms = Rooms::new();
    let id = room("ABCDEF");
    rooms.claim_room_id(id);
    for n in 1..=4 {
        rooms.join_room(PeerId(n), id);
    }
    rooms.quit_room(PeerId(2));
    assert_eq!(rooms.peers_in_room(id), Some(&vec![PeerId(1), PeerId(4), PeerId(3)]));
    assert_eq!(rooms.room_id(PeerId(2)), None);
    assert_eq!(rooms.room_id(PeerId(3)), Some(id));
}

#[test]
fn quitting_undoes_joining() {
    let mut rooms = Rooms::new();
    let id = room("ABCDEF");
    rooms.claim_room_id(id);
    rooms.join_room(PeerId(1), id);
    rooms.join_room(PeerId(2), id);
    rooms.quit_room(PeerId(2));
    assert_eq!(rooms.peers_in_room(id), Some(&vec![PeerId(1)]));
    assert_eq!(rooms.room_id(PeerId(2)), None);
}

#[test]
fn quitting_without_a_room_does_nothing() {
    let mut rooms = Rooms::new();
    rooms.claim_room_id(room("ABCDEF"));
    rooms.join_room(PeerId(1), room("ABCDEF"));
    rooms.quit_room(PeerId(2));
    assert_eq!(rooms.peers_in_room(room("ABCDEF")), Some(&vec![PeerId(1)]));
}

#[test]
fn rooms_that_differ_in_one_character_are_apart() {
    let mut rooms = Rooms::new();
    let ids = ["AAAAAA", "BAAAAA", "ABAAAA", "AABAAA", "AAABAA", "AAAABA", "AAAAAB"];
    for (n, id) in ids.iter().enumerate() {
        assert!(rooms.claim_room_id(room(id)));
        rooms.make_host(room(id), PeerId(n as u64));
    }
    for (n, id) in ids.iter().enumerate() {
        assert_eq!(rooms.host_id(room(id)), Some(PeerId(n as u64)));
    }
}

#[test]
fn taken_peer_ids_cannot_be_claimed() {
    let mut peers: Peers<&str> = Peers::new();
    assert_eq!(peers.claim_peer_id(PeerId(5), "first", address(1)), Ok(()));
    assert_eq!(peers.claim_peer_id(PeerId(5), "second", address(2)), Err("second"));
    assert_eq!(peers.peer_id(address(1)), Some(PeerId(5)));
    assert_eq!(peers.peer_id(address(2)), None);
    assert_eq!(peers.stream(PeerId(5)), Some(&"first"));
}

#[test]
fn allocated_peer_ids_differ() {
    let mut peers: Peers<u16> = Peers::new();
    let mut ids = Vec::new();
    for n in 0..40 {
        let id = peers.allocate_peer_id(n, address(n)).unwrap();
        assert!(!id.is_broadcast());
        assert!(!ids.contains(&id));
        assert_eq!(peers.peer_id(address(n)), Some(id));
        assert_eq!(peers.stream(id), Some(&n));
        ids.push(id);
    }
}

#[test]
fn freed_peer_ids_can_be_claimed_again() {
    let mut peers: Peers<u16> = Peers::new();
    peers.claim_peer_id(PeerId(5), 1, address(1)).unwrap();
    peers.free_peer_id(address(2));
    assert_eq!(peers.peer_id(address(1)), Some(PeerId(5)));
    peers.free_peer_id(address(1));
    assert_eq!(peers.peer_id(address(1)), None);
    assert_eq!(peers.claim_peer_id(PeerId(5), 2, address(2)), Ok(()));
    assert_eq!(peers.stream(PeerId(5)), Some(&2));
}

#[test]
fn streams_outlive_their_ids() {
    let mut peers: Peers<u16> = Peers::new();
    peers.claim_peer_id(PeerId(5), 1, address(1)).unwrap();
    peers.free_peer_id(address(1));
    assert_eq!(peers.stream(PeerId(5)), Some(&1));
}

#[test]
fn addresses_are_told_apart() {
    let mut peers: Peers<u16> = Peers::new();
    let a = Address { ip: 1, port: 0 };
    let b = Address { ip: 0, port: 1 };
    let c = Address { ip: u32::MAX, port: u16::MAX };
    peers.claim_peer_id(PeerId(1), 1, a).unwrap();
    peers.claim_peer_id(PeerId(2), 2, b).unwrap();
    peers.claim_peer_id(PeerId(3), 3, c).unwrap();
    assert_eq!(peers.peer_id(a), Some(PeerId(1)));
    assert_eq!(peers.peer_id(b), Some(PeerId(2)));
    assert_eq!(peers.peer_id(c), Some(PeerId(3)));
}

#[test]
fn first_room_is_granted() {
    let mut state = State::new();
    let (_, host) = open_room(&mut state, 1);
    assert_eq!(state.stream(host), Some(&1));
}

#[test]
fn joining_peers_are_told_the_host() {
    let mut state = State::new();
    let (room_id, host) = open_room(&mut state, 1);
    assert_eq!(enter_room(&mut state, 2, room_id), host);
    assert_eq!(enter_room(&mut state, 3, room_id), host);
    // The host is still announced after it has left.
    assert_eq!(state.disconnect(address(1)), Ok(host));
    assert_eq!(enter_room(&mut state, 4, room_id), host);
}

#[test]
fn unknown_rooms_are_refused() {
    let mut state = State::new();
    let action = state.handle_packet(1, address(1), Packet::Join(room("ABCDEF")));
    assert_eq!(
        action,
        Action::Answer {
            packet: Packet::Error(Error::RoomDoesNotExist),
            then: Err(Failure::NoSuchRoom),
        }
    );
    // The peer has an ID by then, but no room.
    let action = state.handle_packet(1, address(1), Packet::Relay(PeerId(9), vec![]));
    assert_eq!(action, Action::Close(Failure::NotInRoom));
    assert!(state.disconnect(address(1)).is_ok());
}

#[test]
fn requests_without_free_ids_are_refused() {
    let mut state: State<u16> = State::new();
    let no_peer_ids = Action::Answer {
        packet: Packet::Error(Error::NoFreePeerIDs),
        then: Err(Failure::NoFreePeerIds),
    };
    let no_room_ids = Action::Answer {
        packet: Packet::Error(Error::NoFreeRooms),
        then: Err(Failure::NoFreeRoomIds),
    };
    assert_eq!(state.answer_host(None, None), no_peer_ids);
    assert_eq!(state.answer_host(Some(PeerId(1)), None), no_room_ids);
    assert_eq!(state.answer_join(None, room("ABCDEF")), no_peer_ids);
}

#[test]
fn granted_requests_are_answered() {
    let mut state: State<u16> = State::new();
    assert_eq!(
        state.answer_host(Some(PeerId(1)), Some(room("ABCDEF"))),
        Action::Answer { packet: Packet::RoomCreated(room("ABCDEF"), PeerId(1)), then: Ok(()) }
    );
    assert_eq!(
        state.answer_join(Some(PeerId(2)), room("ABCDEF")),
        Action::Answer { packet: Packet::HostId(PeerId(1)), then: Ok(()) }
    );
}

#[test]
fn broadcasts_reach_the_room() {
    let mut state = State::new();
    let (room_id, host) = open_room(&mut state, 1);
    enter_room(&mut state, 2, room_id);
    enter_room(&mut state, 3, room_id);
    let (other_room, _) = open_room(&mut state, 4);
    enter_room(&mut state, 5, other_room);
    assert_eq!(broadcast(&mut state, 1), (host, vec![2, 3]));
    assert_eq!(broadcast(&mut state, 2).1, vec![1, 3]);
    assert_eq!(broadcast(&mut state, 4).1, vec![5]);
    assert_eq!(broadcast(&mut state, 5).1, vec![4]);
}

#[test]
fn disconnected_peers_hear_no_broadcasts() {
    let mut state = State::new();
    let (room_id, _) = open_room(&mut state, 1);
    enter_room(&mut state, 2, room_id);
    enter_room(&mut state, 3, room_id);
    state.disconnect(address(2)).unwrap();
    assert_eq!(broadcast(&mut state, 1).1, vec![3]);
    let action = state.handle_packet(2, address(2), Packet::Relay(PeerId(0), vec![]));
    assert_eq!(action, Action::Close(Failure::NoPeerId));
}

#[test]
fn relayed_packets_are_forwarded() {
    let mut state = State::new();
    let (room_id, host) = open_room(&mut state, 1);
    enter_room(&mut state, 2, room_id);
    match state.handle_packet(2, address(2), Packet::Relay(host, vec![4])) {
        Action::Forward { packet: Packet::Relayed(sender, data), target } => {
            assert_ne!(sender, host);
            assert_eq!(data, vec![4]);
            assert_eq!(target, host);
        }
        action => panic!("unexpected {:?}", action),
    }
}

#[test]
fn unknown_targets_are_answered() {
    let mut state = State::new();
    let (_, host) = open_room(&mut state, 1);
    let nobody = PeerId(if host.0 == 1 { 2 } else { 1 });
    assert_eq!(
        state.handle_packet(1, address(1), Packet::Relay(nobody, vec![])),
        Action::Answer { packet: Packet::Error(Error::NoSuchPeer), then: Ok(()) }
    );
}

#[test]
fn strangers_cannot_relay() {
    let state: State<u16> = State::new();
    assert_eq!(state.relay(address(1), PeerId(1), vec![]), Action::Close(Failure::NoPeerId));
}

#[test]
fn packets_meant_for_peers_are_ignored() {
    let mut state = State::new();
    let packets = vec![
        Packet::RoomCreated(room("ABCDEF"), PeerId(1)),
        Packet::HostId(PeerId(1)),
        Packet::Relayed(PeerId(1), vec![1]),
        Packet::Disconnected(PeerId(1)),
        Packet::Error(Error::NoSuchPeer),
    ];
    for packet in packets {
        assert_eq!(state.handle_packet(1, address(1), packet), Action::Ignore);
    }
    assert_eq!(state.disconnect(address(1)), Err(Failure::HadNoPeerId));
}

#[test]
fn disconnecting_twice_fails() {
    let mut state = State::new();
    let (_, host) = open_room(&mut state, 1);
    assert_eq!(state.disconnect(address(1)), Ok(host));
    assert_eq!(state.disconnect(address(1)), Err(Failure::HadNoPeerId));
}

#[test]
fn failures_have_messages() {
    assert_eq!(Failure::NoFreePeerIds.message(), "no more free peer IDs");
    assert_eq!(Failure::NoFreeRoomIds.message(), "no more free room IDs");
    assert_eq!(Failure::NoSuchRoom.message(), "no room with the given ID");
    assert_eq!(Failure::NoPeerId.message(), "peer does not have an ID");
    assert_eq!(Failure::NotInRoom.message(), "peer is not in a room");
    assert_eq!(Failure::HadNoPeerId.message(), "peer had no ID");
}

#[test]
fn packets_are_preceded_by_their_length() {
    let mut reader = Reader::Length;
    assert_eq!(reader.bytes_wanted(), 4);
    assert_eq!(reader.receive(vec![0, 0, 1, 2]), Received::Announcement);
    assert_eq!(reader, Reader::Body(258));
    assert_eq!(reader.bytes_wanted(), 258);
    let body = vec![9; 258];
    assert_eq!(reader.receive(body.clone()), Received::Encoded(body));
    assert_eq!(reader, Reader::Length);
}

#[test]
fn packets_can_be_empty_or_large() {
    let mut reader = Reader::Length;
    reader.receive(vec![0, 0, 0, 0]);
    assert_eq!(reader.bytes_wanted(), 0);
    assert_eq!(reader.receive(vec![]), Received::Encoded(vec![]));
    reader.receive(vec![255, 255, 255, 255]);
    assert_eq!(reader.bytes_wanted(), 4294967295);
}

#[test]
fn last_failure_of_a_broadcast_counts() {
    assert_eq!(broadcast_outcome::<u8>(vec![]), Ok(()));
    assert_eq!(broadcast_outcome::<u8>(vec![Ok(()), Ok(())]), Ok(()));
    assert_eq!(broadcast_outcome(vec![Err(1), Ok(()), Err(2), Ok(())]), Err(2));
}

#[test]
fn searches_give_up_after_fifty_attempts() {
    assert_eq!(ID_ATTEMPTS, 50);
    assert_eq!(Rooms::draw_candidates().len(), 50);
    assert_eq!(Peers::<u16>::draw_candidates().len(), 50);
    let mut rooms = Rooms::new();
    let taken = room("ABCDEF");
    rooms.claim_room_id(taken);
    assert_eq!(rooms.claim_first_free(&vec![taken; 50]), None);
    let mut candidates = vec![taken; 49];
    candidates.push(room("ABCDEG"));
    assert_eq!(rooms.claim_first_free(&candidates), Some(room("ABCDEG")));
    assert_eq!(rooms.claim_first_free(&candidates), None);
}

#[test]
fn searches_end_with_the_first_free_id() {
    let mut peers = Peers::new();
    peers.claim_peer_id(PeerId(5), "first", address(1)).unwrap();
    assert_eq!(
        peers.claim_first_free(&vec![PeerId(5), PeerId(5)], "second", address(2)),
        None
    );
    assert_eq!(peers.peer_id(address(2)), None);
    assert_eq!(
        peers.claim_first_free(&vec![PeerId(5), PeerId(6), PeerId(7)], "second", address(2)),
        Some(PeerId(6))
    );
    assert_eq!(peers.peer_id(address(2)), Some(PeerId(6)));
    assert_eq!(peers.stream(PeerId(6)), Some(&"second"));
    assert_eq!(peers.stream(PeerId(7)), None);
}

#[test]
fn ids_are_drawn_from_their_whole_range() {
    assert_eq!(Rooms::index_bounds(), (0, 32));
    assert_eq!(Peers::<u16>::id_bounds(), (1, u64::MAX));
    let rooms = Rooms::draw_candidates();
    assert!(rooms.iter().any(|id| *id != rooms[0]));
    let peers = Peers::<u16>::draw_candidates();
    assert!(peers.iter().any(|id| *id != peers[0]));
    assert!(peers.iter().any(|id| id.0 > u64::MAX / 2));
    assert!(peers.iter().any(|id| id.0 <= u64::MAX / 2));
}

#[test]
fn disconnected_peers_cannot_relay() {
    let mut state = State::new();
    let (room_id, host) = open_room(&mut state, 1);
    enter_room(&mut state, 2, room_id);
    state.disconnect(address(2)).unwrap();
    assert_eq!(
        state.handle_packet(2, address(2), Packet::Relay(host, vec![1])),
        Action::Close(Failure::NoPeerId)
    );
}
