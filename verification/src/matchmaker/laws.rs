//! What the matchmaker can be relied on for.

use vstd::prelude::*;

use crate::matchmaker::connection::{big_endian, Reader};
use crate::matchmaker::peers::PeersModel;
use crate::matchmaker::rooms::{
    in_charset, is_room_id, swap_removed, without, RoomsModel, ID_CHARSET,
};
use crate::matchmaker::search::first_free;
use crate::matchmaker::server::{
    host_answer, join_answer, no_free_peer_ids, Action, Failure, StateModel,
};
use crate::protocol::{Address, Error, Packet, PeerId, RoomId};

verus! {

/// The invariant survives that a free ID is given to an address.
proof fn lemma_allocated_inv<S>(state: StateModel<S>, id: PeerId, stream: S, address: Address)
    requires
        state.inv(),
        state.free_peer_id(id),
    ensures
        state.allocated(id, stream, address).inv(),
        !state.allocated(id, stream, address).rooms.client_rooms.contains_key(id),
{
}

/// The invariant survives that a peer opens a room.
proof fn lemma_hosting_inv<S>(state: StateModel<S>, id: PeerId, room_id: RoomId)
    requires
        state.inv(),
        state.free_room_id(room_id),
        state.peers.occupied.contains(id),
        !state.rooms.client_rooms.contains_key(id),
    ensures
        state.hosting(id, room_id).inv(),
{
    let after = state.hosting(id, room_id);
    assert(after.rooms.room_clients[room_id][0] == id);
    assert forall|r: RoomId, i: int|
        #![trigger after.rooms.room_clients[r][i]]
        after.rooms.room_clients.contains_key(r) && 0 <= i
            < after.rooms.room_clients[r].len() implies {
        &&& after.rooms.client_rooms.contains_key(after.rooms.room_clients[r][i])
        &&& after.rooms.client_rooms[after.rooms.room_clients[r][i]] == r
    } by {
        if r != room_id {
            assert(state.rooms.room_clients[r][i] == after.rooms.room_clients[r][i]);
        }
    }
    assert forall|p: PeerId| #[trigger] after.rooms.client_rooms.contains_key(p) implies {
        &&& after.rooms.room_clients.contains_key(after.rooms.client_rooms[p])
        &&& after.rooms.room_clients[after.rooms.client_rooms[p]].contains(p)
    } by {
        if p != id {
            assert(state.rooms.client_rooms.contains_key(p));
        }
    }
}

/// The invariant survives that a peer enters a room.
proof fn lemma_joining_inv<S>(state: StateModel<S>, id: PeerId, room_id: RoomId)
    requires
        state.inv(),
        state.peers.occupied.contains(id),
        !state.rooms.client_rooms.contains_key(id),
    ensures
        state.joining(id, room_id).inv(),
{
    let after = state.joining(id, room_id);
    if state.rooms.host_id(room_id) is Some {
        let before_clients = state.rooms.room_clients[room_id];
        let clients = after.rooms.room_clients[room_id];
        assert(clients == before_clients.push(id));
        assert forall|r: RoomId, i: int|
            #![trigger after.rooms.room_clients[r][i]]
            after.rooms.room_clients.contains_key(r) && 0 <= i
                < after.rooms.room_clients[r].len() implies {
            &&& after.rooms.client_rooms.contains_key(after.rooms.room_clients[r][i])
            &&& after.rooms.client_rooms[after.rooms.room_clients[r][i]] == r
        } by {
            if r != room_id || i < before_clients.len() {
                assert(state.rooms.room_clients[r][i] == after.rooms.room_clients[r][i]);
            }
        }
        assert forall|p: PeerId| #[trigger] after.rooms.client_rooms.contains_key(p) implies {
            &&& after.peers.occupied.contains(p)
            &&& after.rooms.room_clients.contains_key(after.rooms.client_rooms[p])
            &&& after.rooms.room_clients[after.rooms.client_rooms[p]].contains(p)
        } by {
            if p == id {
                assert(clients.last() == id);
            } else {
                assert(state.rooms.client_rooms.contains_key(p));
                let r = state.rooms.client_rooms[p];
                let i = choose|i: int|
                    0 <= i < state.rooms.room_clients[r].len() && state.rooms.room_clients[r][i]
                        == p;
                assert(after.rooms.room_clients[r][i] == p);
            }
        }
        assert(clients.no_duplicates()) by {
            assert forall|i: int, j: int|
                0 <= i < clients.len() && 0 <= j < clients.len() && i != j implies clients[i]
                != clients[j] by {
                if i < before_clients.len() {
                    assert(state.rooms.room_clients[room_id][i] == clients[i]);
                }
                if j < before_clients.len() {
                    assert(state.rooms.room_clients[room_id][j] == clients[j]);
                }
            }
        }
    }
}

/// The invariant survives that a peer disconnects.
pub proof fn law_disconnect_keeps_invariant<S>(state: StateModel<S>, address: Address)
    requires
        state.inv(),
    ensures
        state.disconnected(address).inv(),
{
    let after = state.disconnected(address);
    if let Some(id) = state.peers.peer_id(address) {
        if state.rooms.client_rooms.contains_key(id) {
            let room_id = state.rooms.client_rooms[id];
            let before_clients = state.rooms.room_clients[room_id];
            let clients = after.rooms.room_clients[room_id];
            before_clients.index_of_first_ensures(id);
            let index = before_clients.index_of_first(id).unwrap();
            assert(clients == swap_removed(before_clients, index));
            assert(before_clients[index] == id);
            assert forall|i: int| 0 <= i < clients.len() implies #[trigger] clients[i]
                == before_clients[if i == index {
                before_clients.len() - 1
            } else {
                i
            }] by {}
            assert forall|r: RoomId, i: int|
                #![trigger after.rooms.room_clients[r][i]]
                after.rooms.room_clients.contains_key(r) && 0 <= i
                    < after.rooms.room_clients[r].len() implies {
                &&& after.rooms.client_rooms.contains_key(after.rooms.room_clients[r][i])
                &&& after.rooms.client_rooms[after.rooms.room_clients[r][i]] == r
            } by {
                if r == room_id {
                    let source = if i == index {
                        before_clients.len() - 1
                    } else {
                        i
                    };
                    assert(state.rooms.room_clients[r][source] == clients[i]);
                    assert(source != index);
                } else {
                    assert(state.rooms.room_clients[r][i] == after.rooms.room_clients[r][i]);
                }
            }
            assert forall|p: PeerId| #[trigger] after.rooms.client_rooms.contains_key(p) implies {
                &&& after.peers.occupied.contains(p)
                &&& after.rooms.room_clients.contains_key(after.rooms.client_rooms[p])
                &&& after.rooms.room_clients[after.rooms.client_rooms[p]].contains(p)
            } by {
                assert(state.rooms.client_rooms.contains_key(p));
                let r = state.rooms.client_rooms[p];
                let i = choose|i: int|
                    0 <= i < state.rooms.room_clients[r].len() && state.rooms.room_clients[r][i]
                        == p;
                if r == room_id {
                    if i == before_clients.len() - 1 {
                        assert(clients[index] == p);
                    } else {
                        assert(clients[i] == p);
                    }
                } else {
                    assert(after.rooms.room_clients[r][i] == p);
                }
            }
            assert(clients.no_duplicates());
        } else {
            assert(after.rooms == state.rooms);
        }
        assert forall|a: Address| #[trigger]
            after.peers.ids.contains_key(a) implies after.peers.occupied.contains(
            after.peers.ids[a],
        ) by {
            assert(state.peers.ids.contains_key(a));
            assert(state.peers.ids[a] == after.peers.ids[a]);
            assert(state.peers.ids[address] == id);
        }
    }
}

/// The invariant survives a request to open a room, however it is answered.
pub proof fn law_host_keeps_invariant<S>(
    state: StateModel<S>,
    stream: S,
    address: Address,
    action: Action,
    after: StateModel<S>,
)
    requires
        state.inv(),
        state.host_result(stream, address, action, after),
    ensures
        after.inv(),
{
    assert forall|id: PeerId| state.free_peer_id(id) implies #[trigger] state.allocated(
        id,
        stream,
        address,
    ).inv() by {
        lemma_allocated_inv(state, id, stream, address);
    }
    assert forall|room_id: RoomId, id: PeerId|
        state.free_peer_id(id) && state.free_room_id(room_id) implies #[trigger] state.allocated(
        id,
        stream,
        address,
    ).hosting(id, room_id).inv() by {
        lemma_allocated_inv(state, id, stream, address);
        lemma_hosting_inv(state.allocated(id, stream, address), id, room_id);
    }
}

/// The invariant survives a request to enter a room, however it is answered.
pub proof fn law_join_keeps_invariant<S>(
    state: StateModel<S>,
    stream: S,
    address: Address,
    room_id: RoomId,
    action: Action,
    after: StateModel<S>,
)
    requires
        state.inv(),
        state.join_result(stream, address, room_id, action, after),
    ensures
        after.inv(),
{
    assert forall|id: PeerId| state.free_peer_id(id) implies #[trigger] state.allocated(
        id,
        stream,
        address,
    ).joining(id, room_id).inv() by {
        lemma_allocated_inv(state, id, stream, address);
        lemma_joining_inv(state.allocated(id, stream, address), id, room_id);
    }
}

/// The characters that are easily confused do not occur in room IDs.
pub proof fn law_room_ids_are_unambiguous(id: RoomId)
    requires
        is_room_id(id),
    ensures
        forall|i: int|
            0 <= i < 6 ==> #[trigger] id.0[i] != 'I' as u8 && id.0[i] != 'O' as u8 && id.0[i]
                != '0' as u8,
{
    reveal_strlit("123456789ABCDEFGHJKLMNPQRSTUVWXYZ");
    assert forall|i: int| 0 <= i < 6 implies #[trigger] id.0[i] != 'I' as u8 && id.0[i]
        != 'O' as u8 && id.0[i] != '0' as u8 by {
        assert(in_charset(id.0[i]));
        let k = choose|k: int|
            0 <= k < ID_CHARSET@.len() && #[trigger] ID_CHARSET@[k] as u8 == id.0[i];
    }
}

/// No peer is ever given the ID that stands for everyone.
pub proof fn law_assignable_ids_are_not_broadcast(id: PeerId)
    requires
        id.assignable(),
    ensures
        id.0 != PeerId::BROADCAST,
{
}

/// A search finds nothing if and only if all candidates are taken. Otherwise it finds the first of
/// them that is not.
pub proof fn law_first_free_id_is_found<K>(candidates: Seq<K>, taken: Set<K>)
    ensures
        first_free(candidates, taken) is None <==> (forall|i: int|
            0 <= i < candidates.len() ==> taken.contains(#[trigger] candidates[i])),
        first_free(candidates, taken) matches Some(id) ==> exists|i: int|
            0 <= i < candidates.len() && #[trigger] candidates[i] == id && !taken.contains(id) && (
            forall|j: int| 0 <= j < i ==> taken.contains(#[trigger] candidates[j])),
    decreases candidates.len(),
{
    if candidates.len() > 0 {
        let rest = candidates.drop_first();
        law_first_free_id_is_found(rest, taken);
        if taken.contains(candidates[0]) {
            assert forall|i: int| 0 < i < candidates.len() implies #[trigger] candidates[i]
                == rest[i - 1] by {}
            match first_free(rest, taken) {
                Some(id) => {
                    let i = choose|i: int|
                        0 <= i < rest.len() && #[trigger] rest[i] == id && !taken.contains(id) && (
                        forall|j: int| 0 <= j < i ==> taken.contains(#[trigger] rest[j]));
                    assert(candidates[i + 1] == id);
                    assert forall|j: int| 0 <= j < i + 1 implies taken.contains(
                        #[trigger] candidates[j],
                    ) by {
                        if j > 0 {
                            assert(taken.contains(rest[j - 1]));
                        }
                    }
                },
                None => {
                    assert forall|i: int| 0 <= i < candidates.len() implies taken.contains(
                        #[trigger] candidates[i],
                    ) by {
                        if i > 0 {
                            assert(taken.contains(rest[i - 1]));
                        }
                    }
                },
            }
        }
    }
}

/// Quitting undoes joining, for a peer that was in no room.
pub proof fn law_quit_undoes_join(rooms: RoomsModel, peer_id: PeerId, room_id: RoomId)
    requires
        rooms.room_clients.contains_key(room_id),
        !rooms.client_rooms.contains_key(peer_id),
        !rooms.room_clients[room_id].contains(peer_id),
    ensures
        rooms.joined(peer_id, room_id).quit(peer_id) == rooms,
{
    let clients = rooms.room_clients[room_id];
    let with_peer = clients.push(peer_id);
    with_peer.index_of_first_ensures(peer_id);
    assert(with_peer.last() == peer_id);
    assert(with_peer.contains(peer_id));
    let index = with_peer.index_of_first(peer_id).unwrap();
    assert(index == clients.len()) by {
        if index < clients.len() {
            assert(clients[index] == peer_id);
        }
    }
    assert(without(with_peer, peer_id) =~= clients);
    assert(rooms.joined(peer_id, room_id).quit(peer_id) =~= rooms);
}

/// Freeing an address undoes giving it an ID: the same IDs are taken as before, and the same
/// addresses have one.
pub proof fn law_free_undoes_allocate<S>(
    peers: PeersModel<S>,
    id: PeerId,
    stream: S,
    address: Address,
)
    requires
        !peers.occupied.contains(id),
        !peers.ids.contains_key(address),
    ensures
        peers.allocated(id, stream, address).freed(address).occupied == peers.occupied,
        peers.allocated(id, stream, address).freed(address).ids == peers.ids,
{
    let after = peers.allocated(id, stream, address).freed(address);
    assert(after.occupied =~= peers.occupied);
    assert(after.ids =~= peers.ids);
}

/// Once a peer has disconnected, it is listed in no room, and its ID can be given to others.
pub proof fn law_disconnected_peer_is_gone<S>(
    state: StateModel<S>,
    address: Address,
    room_id: RoomId,
)
    requires
        state.inv(),
        state.peers.ids.contains_key(address),
    ensures
        state.disconnected(address).free_peer_id(state.peers.ids[address]),
        !state.disconnected(address).peers.ids.contains_key(address),
        state.disconnected(address).rooms.room_clients.contains_key(room_id)
            ==> !state.disconnected(address).rooms.room_clients[room_id].contains(
            state.peers.ids[address],
        ),
{
    let id = state.peers.ids[address];
    let after = state.disconnected(address);
    law_disconnect_keeps_invariant(state, address);
    if after.rooms.room_clients.contains_key(room_id)
        && after.rooms.room_clients[room_id].contains(id) {
        let i = choose|i: int|
            0 <= i < after.rooms.room_clients[room_id].len()
                && after.rooms.room_clients[room_id][i] == id;
        assert(after.rooms.client_rooms.contains_key(after.rooms.room_clients[room_id][i]));
        assert(after.peers.occupied.contains(id));
    }
}

/// A peer is listed in one room at most, and there once.
pub proof fn law_peer_is_listed_once<S>(
    state: StateModel<S>,
    room_a: RoomId,
    i: int,
    room_b: RoomId,
    j: int,
)
    requires
        state.inv(),
        state.rooms.room_clients.contains_key(room_a),
        state.rooms.room_clients.contains_key(room_b),
        0 <= i < state.rooms.room_clients[room_a].len(),
        0 <= j < state.rooms.room_clients[room_b].len(),
        state.rooms.room_clients[room_a][i] == state.rooms.room_clients[room_b][j],
    ensures
        room_a == room_b,
        i == j,
{
    assert(state.rooms.room_clients[room_a].no_duplicates());
}

/// No two connected addresses have the same ID.
pub proof fn law_addresses_have_distinct_ids<S>(state: StateModel<S>, a: Address, b: Address)
    requires
        state.inv(),
        state.peers.ids.contains_key(a),
        state.peers.ids.contains_key(b),
        a != b,
    ensures
        state.peers.ids[a] != state.peers.ids[b],
{
}

/// A broadcast goes out to everyone in the sender's room but the sender, once to each of them,
/// and to nobody else.
pub proof fn law_broadcast_reaches_the_room<S>(
    state: StateModel<S>,
    sender: PeerId,
    room_id: RoomId,
    peer: PeerId,
)
    requires
        state.inv(),
        state.rooms.room_id(sender) == Some(room_id),
    ensures
        state.audience(sender, room_id).contains(peer) <==> peer != sender && state.rooms.room_id(
            peer,
        ) == Some(room_id),
        state.audience(sender, room_id).no_duplicates(),
{
    let clients = state.rooms.room_clients[room_id];
    let reached = state.reached(sender);
    let audience = state.audience(sender, room_id);
    lemma_filter_no_duplicates(clients, reached);
    if audience.contains(peer) {
        let i = choose|i: int| 0 <= i < audience.len() && audience[i] == peer;
        clients.lemma_filter_pred(reached, i);
        clients.lemma_filter_contains_rev(reached, peer);
        let j = choose|j: int| 0 <= j < clients.len() && clients[j] == peer;
        assert(state.rooms.room_clients[room_id][j] == peer);
    }
    if peer != sender && state.rooms.room_id(peer) == Some(room_id) {
        assert(state.rooms.client_rooms.contains_key(peer));
        let j = choose|j: int| 0 <= j < clients.len() && clients[j] == peer;
        clients.lemma_filter_contains(reached, j);
    }
}

/// What is left of a sequence without duplicates has none either.
proof fn lemma_filter_no_duplicates<A>(items: Seq<A>, kept: spec_fn(A) -> bool)
    requires
        items.no_duplicates(),
    ensures
        items.filter(kept).no_duplicates(),
    decreases items.len(),
{
    reveal(Seq::filter);
    if items.len() > 0 {
        let earlier = items.drop_last();
        lemma_filter_no_duplicates(earlier, kept);
        let left = earlier.filter(kept);
        assert forall|i: int| 0 <= i < left.len() implies left[i] != items.last() by {
            earlier.lemma_filter_contains_rev(kept, left[i]);
        }
    }
}

/// Whoever enters a room is told the peer that opened it.
pub proof fn law_joining_peers_are_told_the_host<S>(
    state: StateModel<S>,
    host: PeerId,
    room_id: RoomId,
)
    ensures
        state.hosting(host, room_id).rooms.host_id(room_id) == Some(host),
        join_answer(state.hosting(host, room_id).rooms.host_id(room_id)) == (Action::Answer {
            packet: Packet::HostId(host),
            then: Ok(()),
        }),
{
}

/// Whoever is granted a room is in that room afterwards, under the ID that its address was given.
pub proof fn law_granted_peers_are_in_the_room<S>(
    state: StateModel<S>,
    stream: S,
    address: Address,
    id: PeerId,
    room_id: RoomId,
)
    requires
        state.inv(),
    ensures
        ({
            let hosting = state.allocated(id, stream, address).hosting(id, room_id);
            &&& hosting.peers.peer_id(address) == Some(id)
            &&& hosting.rooms.room_id(id) == Some(room_id)
        }),
        state.rooms.host_id(room_id) is Some ==> {
            let joining = state.allocated(id, stream, address).joining(id, room_id);
            &&& joining.peers.peer_id(address) == Some(id)
            &&& joining.rooms.room_id(id) == Some(room_id)
        },
{
}

/// Data that one peer in a room sends to another peer in a room is passed on to that peer.
pub proof fn law_peers_in_rooms_are_reached<S>(
    state: StateModel<S>,
    address: Address,
    sender: PeerId,
    target: PeerId,
    data: Vec<u8>,
    action: Action,
)
    requires
        state.inv(),
        state.peers.peer_id(address) == Some(sender),
        state.rooms.room_id(sender) is Some,
        state.rooms.room_id(target) is Some,
        state.relay_result(address, target, data, action),
    ensures
        action == (Action::Forward { packet: Packet::Relayed(sender, data), target }),
{
    assert(state.rooms.client_rooms.contains_key(target));
    assert(state.peers.occupied.contains(target));
}

/// Once a peer has disconnected, nothing is passed on for its address.
pub proof fn law_disconnected_peers_cannot_relay<S>(
    state: StateModel<S>,
    address: Address,
    target: PeerId,
    data: Vec<u8>,
    action: Action,
)
    requires
        state.disconnected(address).relay_result(address, target, data, action),
    ensures
        action == Action::Close(Failure::NoPeerId),
{
}

/// An open room keeps its ID and its host, whatever packets arrive.
pub proof fn law_packets_keep_rooms<S>(
    state: StateModel<S>,
    stream: S,
    address: Address,
    packet: Packet,
    action: Action,
    after: StateModel<S>,
    room_id: RoomId,
)
    requires
        state.inv(),
        state.packet_result(stream, address, packet, action, after),
        state.rooms.occupied.contains(room_id),
    ensures
        after.rooms.occupied.contains(room_id),
        after.rooms.host_id(room_id) == state.rooms.host_id(room_id),
{
}

/// An open room keeps its ID and its host when somebody disconnects, be it the host.
pub proof fn law_disconnects_keep_rooms<S>(state: StateModel<S>, address: Address)
    ensures
        state.disconnected(address).rooms.occupied == state.rooms.occupied,
        state.disconnected(address).rooms.room_hosts == state.rooms.room_hosts,
{
}

/// A request to open or enter a room is always answered. The answer is an error if and only if the
/// request was refused, and then the connection is closed.
pub proof fn law_refused_requests_are_answered<S>(
    state: StateModel<S>,
    stream: S,
    address: Address,
    packet: Packet,
    action: Action,
    after: StateModel<S>,
)
    requires
        packet is Host || packet is Join,
        state.packet_result(stream, address, packet, action, after),
    ensures
        action is Answer,
        action->Answer_packet is Error <==> action->then is Err,
{
}

/// A request that is refused leaves the rooms as they are.
pub proof fn law_refused_requests_leave_rooms<S>(
    state: StateModel<S>,
    stream: S,
    address: Address,
    packet: Packet,
    action: Action,
    after: StateModel<S>,
)
    requires
        packet is Host || packet is Join,
        state.packet_result(stream, address, packet, action, after),
        action->Answer_packet is Error,
    ensures
        after.rooms == state.rooms,
{
}

/// While nobody is connected and no rooms are open, a request to open a room is granted.
pub proof fn law_first_room_is_granted<S>(
    stream: S,
    address: Address,
    action: Action,
    after: StateModel<S>,
)
    requires
        StateModel::<S>::empty().host_result(stream, address, action, after),
    ensures
        action is Answer,
        action->Answer_packet is RoomCreated,
        action->then is Ok,
{
}

/// A broadcast carries the ID of the address that it came from, and goes out to exactly the other
/// peers in the room of that ID, once to each of them.
pub proof fn law_broadcasts_carry_their_sender<S>(
    state: StateModel<S>,
    address: Address,
    room_id: RoomId,
    target: PeerId,
    data: Vec<u8>,
    action: Action,
)
    requires
        state.inv(),
        state.peers.ids.contains_key(address),
        state.rooms.client_rooms.contains_key(state.peers.ids[address]),
        state.rooms.client_rooms[state.peers.ids[address]] == room_id,
        target.0 == PeerId::BROADCAST,
        state.relay_result(address, target, data, action),
    ensures
        action matches Action::Broadcast { packet, targets } && {
            &&& packet == Packet::Relayed(state.peers.ids[address], data)
            &&& targets@.no_duplicates()
            &&& forall|peer: PeerId| #[trigger]
                targets@.contains(peer) <==> peer != state.peers.ids[address]
                    && state.rooms.client_rooms.contains_key(peer)
                    && state.rooms.client_rooms[peer] == room_id
        },
{
    let sender = state.peers.ids[address];
    assert forall|peer: PeerId| #[trigger]
        state.audience(sender, room_id).contains(peer) <==> peer != sender
            && state.rooms.client_rooms.contains_key(peer) && state.rooms.client_rooms[peer]
            == room_id by {
        law_broadcast_reaches_the_room(state, sender, room_id, peer);
    }
    law_broadcast_reaches_the_room(state, sender, room_id, sender);
}

/// The peers of a room hear a broadcast in the order in which the room lists them.
pub proof fn law_broadcasts_go_out_in_order<S>(
    state: StateModel<S>,
    address: Address,
    room_id: RoomId,
    target: PeerId,
    data: Vec<u8>,
    action: Action,
)
    requires
        state.inv(),
        state.peers.ids.contains_key(address),
        state.rooms.client_rooms.contains_key(state.peers.ids[address]),
        state.rooms.client_rooms[state.peers.ids[address]] == room_id,
        target.0 == PeerId::BROADCAST,
        state.relay_result(address, target, data, action),
    ensures
        action matches Action::Broadcast { packet, targets } && targets@
            == state.rooms.room_clients[room_id].filter(
            |peer: PeerId| peer != state.peers.ids[address],
        ),
{
    let sender = state.peers.ids[address];
    let clients = state.rooms.room_clients[room_id];
    let others = |peer: PeerId| peer != state.peers.ids[address];
    assert(state.rooms.room_clients.contains_key(room_id));
    assert forall|i: int| 0 <= i < clients.len() implies state.reached(sender)(
        #[trigger] clients[i],
    ) == others(clients[i]) by {
        assert(state.rooms.client_rooms.contains_key(state.rooms.room_clients[room_id][i]));
        assert(state.peers.occupied.contains(clients[i]));
    }
    lemma_filter_agrees(clients, state.reached(sender), others);
}

/// Two tests that agree on all items of a sequence leave the same of it.
proof fn lemma_filter_agrees<A>(
    items: Seq<A>,
    first: spec_fn(A) -> bool,
    second: spec_fn(A) -> bool,
)
    requires
        forall|i: int| 0 <= i < items.len() ==> first(#[trigger] items[i]) == second(items[i]),
    ensures
        items.filter(first) == items.filter(second),
    decreases items.len(),
{
    reveal(Seq::filter);
    if items.len() > 0 {
        let earlier = items.drop_last();
        assert forall|i: int| 0 <= i < earlier.len() implies first(#[trigger] earlier[i])
            == second(earlier[i]) by {
            assert(items[i] == earlier[i]);
        }
        lemma_filter_agrees(earlier, first, second);
        assert(items[items.len() - 1] == items.last());
    }
}

/// Data for a single peer is passed on to that peer under the ID of the address that it came from,
/// provided that the peer can be reached. Otherwise the sender is told that there is no such peer,
/// and stays connected.
pub proof fn law_data_for_a_peer_reaches_it<S>(
    state: StateModel<S>,
    address: Address,
    target: PeerId,
    data: Vec<u8>,
    action: Action,
)
    requires
        state.peers.ids.contains_key(address),
        state.rooms.client_rooms.contains_key(state.peers.ids[address]),
        target.0 != PeerId::BROADCAST,
        state.relay_result(address, target, data, action),
    ensures
        state.peers.streams.contains_key(target) ==> action == (Action::Forward {
            packet: Packet::Relayed(state.peers.ids[address], data),
            target,
        }),
        !state.peers.streams.contains_key(target) ==> action == (Action::Answer {
            packet: Packet::Error(Error::NoSuchPeer),
            then: Ok(()),
        }),
{
}

/// Nothing is passed on for an address without an ID, nor for a peer that is in no room. The
/// connection is closed instead.
pub proof fn law_strangers_cannot_relay<S>(
    state: StateModel<S>,
    address: Address,
    target: PeerId,
    data: Vec<u8>,
    action: Action,
)
    requires
        state.relay_result(address, target, data, action),
    ensures
        !state.peers.ids.contains_key(address) <==> action == Action::Close(Failure::NoPeerId),
        state.peers.ids.contains_key(address) && !state.rooms.client_rooms.contains_key(
            state.peers.ids[address],
        ) <==> action == Action::Close(Failure::NotInRoom),
{
}

/// Passing data on changes nothing, and depends on nothing but the request. Packets that only a
/// matchmaker sends are ignored.
pub proof fn law_other_packets_change_nothing<S>(
    state: StateModel<S>,
    stream: S,
    address: Address,
    packet: Packet,
    action: Action,
    after: StateModel<S>,
)
    requires
        !(packet is Host),
        !(packet is Join),
        state.packet_result(stream, address, packet, action, after),
    ensures
        after == state,
        packet matches Packet::Relay(target, data) ==> state.relay_result(
            address,
            target,
            data,
            action,
        ),
        !(packet is Relay) ==> action == Action::Ignore,
{
}

/// A request to open a room leads to one of three things. If it is granted, the peer is told the ID
/// of a room that did not exist before and its own ID that nobody had before. The peer is then
/// alone in that room as its host, it is reached through its stream, and all else is as it was. If
/// there is no room to be had, only the peer's ID is given out. If there is no ID to be had for
/// the peer, nothing changes.
pub proof fn law_hosts_get_a_new_room<S>(
    state: StateModel<S>,
    stream: S,
    address: Address,
    action: Action,
    after: StateModel<S>,
)
    requires
        state.packet_result(stream, address, Packet::Host, action, after),
    ensures
        action matches Action::Answer { packet, then } && match packet {
            Packet::RoomCreated(room_id, id) => {
                &&& then is Ok
                &&& is_room_id(room_id)
                &&& !state.rooms.occupied.contains(room_id)
                &&& id.assignable()
                &&& !state.peers.occupied.contains(id)
                &&& after.rooms.occupied == state.rooms.occupied.insert(room_id)
                &&& after.rooms.client_rooms == state.rooms.client_rooms.insert(id, room_id)
                &&& after.rooms.room_clients == state.rooms.room_clients.insert(room_id, seq![id])
                &&& after.rooms.room_hosts == state.rooms.room_hosts.insert(room_id, id)
                &&& after.peers.occupied == state.peers.occupied.insert(id)
                &&& after.peers.ids == state.peers.ids.insert(address, id)
                &&& after.peers.streams == state.peers.streams.insert(id, stream)
            },
            Packet::Error(Error::NoFreeRooms) => {
                let id = after.peers.ids[address];
                &&& then == Err::<(), Failure>(Failure::NoFreeRoomIds)
                &&& exists|taken: RoomId|
                    is_room_id(taken) && #[trigger] state.rooms.occupied.contains(taken)
                &&& id.assignable()
                &&& !state.peers.occupied.contains(id)
                &&& after.rooms == state.rooms
                &&& after.peers.occupied == state.peers.occupied.insert(id)
                &&& after.peers.ids == state.peers.ids.insert(address, id)
                &&& after.peers.streams == state.peers.streams.insert(id, stream)
            },
            Packet::Error(Error::NoFreePeerIDs) => {
                &&& then == Err::<(), Failure>(Failure::NoFreePeerIds)
                &&& exists|taken: PeerId|
                    taken.assignable() && #[trigger] state.peers.occupied.contains(taken)
                &&& after == state
            },
            _ => false,
        },
{
    if let Action::Answer { packet, .. } = action {
        if let Packet::RoomCreated(room_id, id) = packet {
            assert(Seq::<PeerId>::empty().push(id) =~= seq![id]);
            assert(after.rooms.room_clients =~= state.rooms.room_clients.insert(
                room_id,
                seq![id],
            ));
        }
    }
}

/// A request to enter a room leads to one of three things. If there is such a room, the peer is
/// told the room's host. The peer is then the last one that the room lists, under an ID that nobody
/// had before, it is reached through its stream, and all else is as it was. If there is no such
/// room, only the peer's ID is given out. If there is no ID to be had for the peer, nothing
/// changes.
pub proof fn law_guests_enter_the_room<S>(
    state: StateModel<S>,
    stream: S,
    address: Address,
    room_id: RoomId,
    action: Action,
    after: StateModel<S>,
)
    requires
        state.inv(),
        state.packet_result(stream, address, Packet::Join(room_id), action, after),
    ensures
        action matches Action::Answer { packet, then } && match packet {
            Packet::HostId(host) => {
                let id = after.peers.ids[address];
                &&& then is Ok
                &&& state.rooms.room_hosts.contains_key(room_id)
                &&& host == state.rooms.room_hosts[room_id]
                &&& id.assignable()
                &&& !state.peers.occupied.contains(id)
                &&& after.rooms.occupied == state.rooms.occupied
                &&& after.rooms.client_rooms == state.rooms.client_rooms.insert(id, room_id)
                &&& after.rooms.room_clients == state.rooms.room_clients.insert(
                    room_id,
                    state.rooms.room_clients[room_id].push(id),
                )
                &&& after.rooms.room_hosts == state.rooms.room_hosts
                &&& after.peers.occupied == state.peers.occupied.insert(id)
                &&& after.peers.ids == state.peers.ids.insert(address, id)
                &&& after.peers.streams == state.peers.streams.insert(id, stream)
            },
            Packet::Error(Error::RoomDoesNotExist) => {
                let id = after.peers.ids[address];
                &&& then == Err::<(), Failure>(Failure::NoSuchRoom)
                &&& !state.rooms.room_hosts.contains_key(room_id)
                &&& id.assignable()
                &&& !state.peers.occupied.contains(id)
                &&& after.rooms == state.rooms
                &&& after.peers.occupied == state.peers.occupied.insert(id)
                &&& after.peers.ids == state.peers.ids.insert(address, id)
                &&& after.peers.streams == state.peers.streams.insert(id, stream)
            },
            Packet::Error(Error::NoFreePeerIDs) => {
                &&& then == Err::<(), Failure>(Failure::NoFreePeerIds)
                &&& exists|taken: PeerId|
                    taken.assignable() && #[trigger] state.peers.occupied.contains(taken)
                &&& after == state
            },
            _ => false,
        },
{
}

/// The answers to requests, given the IDs that were found: a granted request is answered with just
/// those IDs, and a refused one with the reason.
pub proof fn law_answers_name_what_was_found(peer_id: PeerId, room_id: RoomId, host: PeerId)
    ensures
        host_answer(Some(peer_id), Some(room_id)) == (Action::Answer {
            packet: Packet::RoomCreated(room_id, peer_id),
            then: Ok(()),
        }),
        host_answer(Some(peer_id), None) == (Action::Answer {
            packet: Packet::Error(Error::NoFreeRooms),
            then: Err(Failure::NoFreeRoomIds),
        }),
        host_answer(None, Some(room_id)) == host_answer(None, None),
        host_answer(None, None) == (Action::Answer {
            packet: Packet::Error(Error::NoFreePeerIDs),
            then: Err(Failure::NoFreePeerIds),
        }),
        join_answer(Some(host)) == (Action::Answer { packet: Packet::HostId(host), then: Ok(()) }),
        join_answer(None) == (Action::Answer {
            packet: Packet::Error(Error::RoomDoesNotExist),
            then: Err(Failure::NoSuchRoom),
        }),
        no_free_peer_ids() == host_answer(None, None),
{
}

/// A room that is opened exists and lists nobody. No other room is affected, and nobody moves.
pub proof fn law_opened_rooms_are_empty(rooms: RoomsModel, id: RoomId, other: RoomId)
    requires
        other != id,
    ensures
        rooms.opened(id).occupied.contains(id),
        rooms.opened(id).room_clients.contains_key(id),
        rooms.opened(id).room_clients[id].len() == 0,
        rooms.opened(id).occupied.contains(other) <==> rooms.occupied.contains(other),
        rooms.opened(id).room_clients.contains_key(other) <==> rooms.room_clients.contains_key(
            other,
        ),
        rooms.room_clients.contains_key(other) ==> rooms.opened(id).room_clients[other]
            == rooms.room_clients[other],
        rooms.opened(id).client_rooms == rooms.client_rooms,
        rooms.opened(id).room_hosts == rooms.room_hosts,
{
}

/// The host of a room is the peer that was last made its host. No other room is affected, and
/// nobody moves.
pub proof fn law_last_host_counts(
    rooms: RoomsModel,
    room_id: RoomId,
    peer_id: PeerId,
    other: RoomId,
)
    requires
        other != room_id,
    ensures
        rooms.hosted(room_id, peer_id).host_id(room_id) == Some(peer_id),
        rooms.hosted(room_id, peer_id).host_id(other) == rooms.host_id(other),
        rooms.hosted(room_id, peer_id).occupied == rooms.occupied,
        rooms.hosted(room_id, peer_id).client_rooms == rooms.client_rooms,
        rooms.hosted(room_id, peer_id).room_clients == rooms.room_clients,
{
}

/// What a lookup finds is the entry of just that room, peer or address, and there is always
/// something to be found where there is an entry.
pub proof fn law_lookups_find_entries<S>(
    rooms: RoomsModel,
    peers: PeersModel<S>,
    room_id: RoomId,
    peer_id: PeerId,
    address: Address,
)
    ensures
        rooms.host_id(room_id) is Some <==> rooms.room_hosts.contains_key(room_id),
        rooms.room_hosts.contains_key(room_id) ==> rooms.host_id(room_id)->0
            == rooms.room_hosts[room_id],
        rooms.room_id(peer_id) is Some <==> rooms.client_rooms.contains_key(peer_id),
        rooms.client_rooms.contains_key(peer_id) ==> rooms.room_id(peer_id)->0
            == rooms.client_rooms[peer_id],
        peers.peer_id(address) is Some <==> peers.ids.contains_key(address),
        peers.ids.contains_key(address) ==> peers.peer_id(address)->0 == peers.ids[address],
{
}

/// A peer that enters an open room is the last one that the room lists, and is in that room. All
/// others in the room keep their places, and nobody else moves. Rooms that are not open cannot be
/// entered.
pub proof fn law_joining_affects_nobody_else(
    rooms: RoomsModel,
    peer_id: PeerId,
    room_id: RoomId,
    other_peer: PeerId,
    other_room: RoomId,
)
    requires
        other_peer != peer_id,
        other_room != room_id,
    ensures
        ({
            let after = rooms.joined(peer_id, room_id);
            &&& !rooms.room_clients.contains_key(room_id) ==> after == rooms
            &&& rooms.room_clients.contains_key(room_id) ==> {
                &&& after.client_rooms.contains_key(peer_id)
                &&& after.client_rooms[peer_id] == room_id
                &&& after.room_clients.contains_key(room_id)
                &&& after.room_clients[room_id].len() == rooms.room_clients[room_id].len() + 1
                &&& after.room_clients[room_id].last() == peer_id
                &&& after.room_clients[room_id].drop_last() == rooms.room_clients[room_id]
            }
            &&& after.client_rooms.contains_key(other_peer)
                <==> rooms.client_rooms.contains_key(other_peer)
            &&& rooms.client_rooms.contains_key(other_peer) ==> after.client_rooms[other_peer]
                == rooms.client_rooms[other_peer]
            &&& after.room_clients.contains_key(other_room)
                <==> rooms.room_clients.contains_key(other_room)
            &&& rooms.room_clients.contains_key(other_room) ==> after.room_clients[other_room]
                == rooms.room_clients[other_room]
            &&& after.occupied == rooms.occupied
            &&& after.room_hosts == rooms.room_hosts
        }),
{
    if rooms.room_clients.contains_key(room_id) {
        assert(rooms.room_clients[room_id].push(peer_id).drop_last()
            =~= rooms.room_clients[room_id]);
    }
}

/// When a peer quits, nobody else is affected: everyone else is in the same room as before, and
/// every room lists everyone else as often as before. The peer itself is in no room, and is listed
/// once less by the room that it was in.
pub proof fn law_quitting_affects_nobody_else(
    rooms: RoomsModel,
    peer_id: PeerId,
    other: PeerId,
    room_id: RoomId,
)
    requires
        other != peer_id,
    ensures
        ({
            let after = rooms.quit(peer_id);
            &&& !after.client_rooms.contains_key(peer_id)
            &&& after.client_rooms.contains_key(other) <==> rooms.client_rooms.contains_key(other)
            &&& rooms.client_rooms.contains_key(other) ==> after.client_rooms[other]
                == rooms.client_rooms[other]
            &&& after.room_clients.contains_key(room_id)
                <==> rooms.room_clients.contains_key(room_id)
            &&& rooms.room_clients.contains_key(room_id) ==> {
                let before_listed = rooms.room_clients[room_id].to_multiset();
                let listed = after.room_clients[room_id].to_multiset();
                &&& listed.count(other) == before_listed.count(other)
                &&& after.room_clients[room_id].contains(other)
                    <==> rooms.room_clients[room_id].contains(other)
                &&& listed.count(peer_id) == (if rooms.client_rooms.contains_key(peer_id)
                    && rooms.client_rooms[peer_id] == room_id && before_listed.count(peer_id)
                    > 0 {
                    before_listed.count(peer_id) - 1
                } else {
                    before_listed.count(peer_id) as int
                })
            }
            &&& after.occupied == rooms.occupied
            &&& after.room_hosts == rooms.room_hosts
        }),
{
    let after = rooms.quit(peer_id);
    if rooms.room_clients.contains_key(room_id) {
        let clients = rooms.room_clients[room_id];
        let left = after.room_clients[room_id];
        lemma_without_multiset(clients, peer_id);
        vstd::seq_lib::to_multiset_contains(clients, other);
        vstd::seq_lib::to_multiset_contains(left, other);
        if rooms.client_rooms.contains_key(peer_id) && rooms.client_rooms[peer_id] == room_id {
            assert(left == without(clients, peer_id));
            assert(left.to_multiset().count(other) == clients.to_multiset().count(other));
        } else {
            assert(left == clients);
        }
    }
}

/// What is left of a sequence without the first occurrence of an item.
proof fn lemma_without_multiset<A>(items: Seq<A>, item: A)
    ensures
        without(items, item).to_multiset() == items.to_multiset().remove(item),
{
    broadcast use vstd::seq_lib::group_to_multiset_ensures;

    items.index_of_first_ensures(item);
    items.to_multiset_ensures();
    match items.index_of_first(item) {
        Some(index) => {
            let last = items.last();
            let kept = swap_removed(items, index);
            if index == items.len() - 1 {
                assert(kept =~= items.drop_last());
                assert(items =~= kept.push(item));
            } else {
                let middle = items.drop_last();
                assert(items =~= middle.push(last));
                assert(kept =~= middle.update(index, last));
                vstd::seq_lib::to_multiset_update(middle, index, last);
                assert(middle[index] == item);
            }
            assert(kept.to_multiset() =~= items.to_multiset().remove(item));
        },
        None => {
            assert(items.to_multiset() =~= items.to_multiset().remove(item));
        },
    }
}

/// The place of a peer that quits is taken by the last one that the room lists. All others keep
/// their places.
pub proof fn law_last_peer_takes_the_free_place(
    rooms: RoomsModel,
    peer_id: PeerId,
    room_id: RoomId,
    place: int,
)
    requires
        rooms.client_rooms.contains_key(peer_id),
        rooms.client_rooms[peer_id] == room_id,
        rooms.room_clients.contains_key(room_id),
        0 <= place < rooms.room_clients[room_id].len(),
        rooms.room_clients[room_id][place] == peer_id,
        forall|i: int| 0 <= i < place ==> rooms.room_clients[room_id][i] != peer_id,
    ensures
        ({
            let before = rooms.room_clients[room_id];
            let after = rooms.quit(peer_id).room_clients[room_id];
            &&& after.len() == before.len() - 1
            &&& forall|i: int|
                0 <= i < after.len() ==> #[trigger] after[i] == (if i == place {
                    before[before.len() - 1]
                } else {
                    before[i]
                })
        }),
{
    let before = rooms.room_clients[room_id];
    before.index_of_first_ensures(peer_id);
    assert(before.contains(peer_id));
    assert(before.index_of_first(peer_id) == Some(place));
}

/// When a peer disconnects, its address loses its ID, which can be given to others, and the peer
/// leaves its room. Everyone else keeps their ID, their stream and their room, and is listed where
/// they were. An address without an ID changes nothing by disconnecting.
pub proof fn law_disconnecting_affects_nobody_else<S>(
    state: StateModel<S>,
    address: Address,
    other: PeerId,
    room_id: RoomId,
)
    requires
        state.peers.ids.contains_key(address) ==> other != state.peers.ids[address],
    ensures
        ({
            let after = state.disconnected(address);
            &&& after.rooms.client_rooms.contains_key(other)
                <==> state.rooms.client_rooms.contains_key(other)
            &&& state.rooms.client_rooms.contains_key(other) ==> after.rooms.client_rooms[other]
                == state.rooms.client_rooms[other]
            &&& after.rooms.room_clients.contains_key(room_id)
                <==> state.rooms.room_clients.contains_key(room_id)
            &&& state.rooms.room_clients.contains_key(room_id) ==> (
            after.rooms.room_clients[room_id].contains(other)
                <==> state.rooms.room_clients[room_id].contains(other))
            &&& after.peers.ids == state.peers.ids.remove(address)
            &&& after.peers.occupied.contains(other) <==> state.peers.occupied.contains(other)
            &&& after.peers.streams == state.peers.streams
            &&& state.peers.ids.contains_key(address) ==> {
                let id = state.peers.ids[address];
                &&& !after.peers.occupied.contains(id)
                &&& !after.rooms.client_rooms.contains_key(id)
            }
            &&& !state.peers.ids.contains_key(address) ==> after == state
        }),
{
    if state.peers.ids.contains_key(address) {
        law_quitting_affects_nobody_else(
            state.rooms,
            state.peers.ids[address],
            other,
            room_id,
        );
    } else {
        assert(state.peers.ids.remove(address) =~= state.peers.ids);
    }
}

/// An ID that is given out belongs to just that address, and is reached through just that stream.
/// No other ID or address is affected.
pub proof fn law_allocating_affects_nobody_else<S>(
    peers: PeersModel<S>,
    id: PeerId,
    stream: S,
    address: Address,
    other: PeerId,
    other_address: Address,
)
    requires
        other != id,
        other_address != address,
    ensures
        ({
            let after = peers.allocated(id, stream, address);
            &&& after.occupied.contains(id)
            &&& after.ids.contains_key(address)
            &&& after.ids[address] == id
            &&& after.streams.contains_key(id)
            &&& after.streams[id] == stream
            &&& after.occupied.contains(other) <==> peers.occupied.contains(other)
            &&& after.ids.contains_key(other_address) <==> peers.ids.contains_key(other_address)
            &&& peers.ids.contains_key(other_address) ==> after.ids[other_address]
                == peers.ids[other_address]
            &&& after.streams.contains_key(other) <==> peers.streams.contains_key(other)
            &&& peers.streams.contains_key(other) ==> after.streams[other]
                == peers.streams[other]
        }),
{
}

/// Freeing an address frees its ID, and no other. Streams stay, and so do all other addresses.
pub proof fn law_freeing_affects_nobody_else<S>(
    peers: PeersModel<S>,
    address: Address,
    other: PeerId,
    other_address: Address,
)
    requires
        peers.ids.contains_key(address) ==> other != peers.ids[address],
        other_address != address,
    ensures
        ({
            let after = peers.freed(address);
            &&& !after.ids.contains_key(address)
            &&& peers.ids.contains_key(address) ==> !after.occupied.contains(peers.ids[address])
            &&& after.occupied.contains(other) <==> peers.occupied.contains(other)
            &&& after.ids.contains_key(other_address) <==> peers.ids.contains_key(other_address)
            &&& peers.ids.contains_key(other_address) ==> after.ids[other_address]
                == peers.ids[other_address]
            &&& after.streams == peers.streams
        }),
{
}

/// Room IDs are made of all digits and capital letters, except those that are easily confused.
pub proof fn law_room_ids_are_digits_and_letters(id: RoomId)
    ensures
        is_room_id(id) <==> forall|i: int|
            0 <= i < 6 ==> {
                let byte = #[trigger] id.0[i];
                ||| '1' as u8 <= byte <= '9' as u8
                ||| 'A' as u8 <= byte <= 'Z' as u8 && byte != 'I' as u8 && byte != 'O' as u8
            },
{
    assert forall|i: int| 0 <= i < 6 implies (in_charset(#[trigger] id.0[i]) <==> {
        let byte = id.0[i];
        ||| '1' as u8 <= byte <= '9' as u8
        ||| 'A' as u8 <= byte <= 'Z' as u8 && byte != 'I' as u8 && byte != 'O' as u8
    }) by {
        lemma_in_charset(id.0[i]);
    }
}

/// The character set is made of all digits and capital letters, except those that are easily
/// confused.
proof fn lemma_in_charset(byte: u8)
    ensures
        in_charset(byte) <==> {
            ||| '1' as u8 <= byte <= '9' as u8
            ||| 'A' as u8 <= byte <= 'Z' as u8 && byte != 'I' as u8 && byte != 'O' as u8
        },
{
    reveal_strlit("123456789ABCDEFGHJKLMNPQRSTUVWXYZ");
    if '1' as u8 <= byte <= '9' as u8 {
        assert(ID_CHARSET@[byte - '1' as u8] as u8 == byte);
    } else if 'A' as u8 <= byte <= 'H' as u8 {
        assert(ID_CHARSET@[9 + (byte - 'A' as u8)] as u8 == byte);
    } else if 'J' as u8 <= byte <= 'N' as u8 {
        assert(ID_CHARSET@[17 + (byte - 'J' as u8)] as u8 == byte);
    } else if 'P' as u8 <= byte <= 'Z' as u8 {
        assert(ID_CHARSET@[22 + (byte - 'P' as u8)] as u8 == byte);
    }
}

/// Different numbers stand for different characters of room IDs, in the order of the characters.
pub proof fn law_characters_are_in_order(i: int, j: int)
    requires
        0 <= i < j < ID_CHARSET@.len(),
    ensures
        (ID_CHARSET@[i] as u8) < (ID_CHARSET@[j] as u8),
{
    reveal_strlit("123456789ABCDEFGHJKLMNPQRSTUVWXYZ");
}

/// Every ID but the one that stands for everyone may be given to a peer.
pub proof fn law_all_other_ids_are_assignable(id: PeerId)
    ensures
        id.assignable() <==> id.0 != PeerId::BROADCAST,
        id.assignable() <==> PeerId::FIRST_PEER <= id.0 <= PeerId::LAST_PEER,
{
}

/// The length of a packet can be told from the four bytes that announce it: the bytes of any number
/// are read back as that number, the most significant byte first.
pub proof fn law_lengths_are_read_back(length: u32)
    ensures
        big_endian(
            seq![
                (length / 0x100_0000) as u8,
                (length / 0x1_0000 % 0x100) as u8,
                (length / 0x100 % 0x100) as u8,
                (length % 0x100) as u8,
            ],
        ) == length,
{
    assert(length / 0x1_0000 == length / 0x100 / 0x100) by (nonlinear_arith);
    assert(length / 0x100_0000 == length / 0x100 / 0x100 / 0x100) by (nonlinear_arith);
}

/// Each of the four bytes that announce a packet counts 256 times as much as the next one.
pub proof fn law_lengths_are_big_endian(bytes: Seq<u8>)
    requires
        bytes.len() == 4,
    ensures
        big_endian(bytes) == bytes[0] * 16_777_216 + bytes[1] * 65_536 + bytes[2] * 256 + bytes[3],
{
}

/// Once the length of a packet is announced, just as many bytes are waited for, and once they have
/// arrived, the four bytes that announce the next packet.
pub proof fn law_packets_follow_their_lengths(announcement: Seq<u8>, encoded: Seq<u8>)
    requires
        announcement.len() == 4,
        encoded.len() == announcement[0] * 16_777_216 + announcement[1] * 65_536 + announcement[2]
            * 256 + announcement[3],
    ensures
        Reader::Length.wanted() == 4,
        Reader::Length.next(announcement).wanted() == encoded.len(),
        Reader::Length.next(announcement).next(encoded) == Reader::Length,
{
}

} // verus!
