//! What the matchmaker does with the packets that it receives.

use vstd::prelude::*;

use crate::matchmaker::laws::{
    law_disconnect_keeps_invariant, law_host_keeps_invariant, law_join_keeps_invariant,
};
use crate::matchmaker::peers::{Peers, PeersModel};
use crate::matchmaker::rooms::{is_room_id, Rooms, RoomsModel};
use crate::protocol::{Address, Error, Packet, PeerId, RoomId};

verus! {

/// A reason for which a connection is closed.
#[derive(Clone, Copy, Debug, PartialEq, Eq, Structural)]
pub enum Failure {
    NoFreePeerIds,
    NoFreeRoomIds,
    NoSuchRoom,
    NoPeerId,
    NotInRoom,
    HadNoPeerId,
}

impl Failure {
    /// The words that the failure is reported in.
    pub open spec fn words(self) -> Seq<char> {
        match self {
            Failure::NoFreePeerIds => "no more free peer IDs"@,
            Failure::NoFreeRoomIds => "no more free room IDs"@,
            Failure::NoSuchRoom => "no room with the given ID"@,
            Failure::NoPeerId => "peer does not have an ID"@,
            Failure::NotInRoom => "peer is not in a room"@,
            Failure::HadNoPeerId => "peer had no ID"@,
        }
    }

    /// Returns the words that the failure is reported in.
    pub fn message(self) -> (message: &'static str)
        ensures
            message@ == self.words(),
    {
        match self {
            Failure::NoFreePeerIds => "no more free peer IDs",
            Failure::NoFreeRoomIds => "no more free room IDs",
            Failure::NoSuchRoom => "no room with the given ID",
            Failure::NoPeerId => "peer does not have an ID",
            Failure::NotInRoom => "peer is not in a room",
            Failure::HadNoPeerId => "peer had no ID",
        }
    }
}

/// What there is to do about a packet.
#[derive(Debug, PartialEq, Eq)]
pub enum Action {
    /// Nothing.
    Ignore,
    /// Close the connection.
    Close(Failure),
    /// Send the packet to the peer that made the request. If `then` is a failure, close the
    /// connection afterwards.
    Answer { packet: Packet, then: Result<(), Failure> },
    /// Send the packet to the target.
    Forward { packet: Packet, target: PeerId },
    /// Send the packet to each of the targets, in order, no matter what becomes of the others.
    Broadcast { packet: Packet, targets: Vec<PeerId> },
}

/// The answer to a peer that no ID can be found for.
pub open spec fn no_free_peer_ids() -> Action {
    Action::Answer {
        packet: Packet::Error(Error::NoFreePeerIDs),
        then: Err(Failure::NoFreePeerIds),
    }
}

/// The answer to a request to open a room, given the IDs that were found.
pub open spec fn host_answer(peer_id: Option<PeerId>, room_id: Option<RoomId>) -> Action {
    match (peer_id, room_id) {
        (None, _) => no_free_peer_ids(),
        (Some(_), None) => Action::Answer {
            packet: Packet::Error(Error::NoFreeRooms),
            then: Err(Failure::NoFreeRoomIds),
        },
        (Some(peer_id), Some(room_id)) => Action::Answer {
            packet: Packet::RoomCreated(room_id, peer_id),
            then: Ok(()),
        },
    }
}

/// The answer to a request to enter a room with the given host. There is no host where there is
/// no room.
pub open spec fn join_answer(host: Option<PeerId>) -> Action {
    match host {
        Some(host) => Action::Answer { packet: Packet::HostId(host), then: Ok(()) },
        None => Action::Answer {
            packet: Packet::Error(Error::RoomDoesNotExist),
            then: Err(Failure::NoSuchRoom),
        },
    }
}

/// What the matchmaker knows.
#[verifier::ext_equal]
#[verifier::reject_recursive_types(S)]
pub struct StateModel<S> {
    pub rooms: RoomsModel,
    pub peers: PeersModel<S>,
}

impl<S> StateModel<S> {
    /// No rooms are open, and nobody is connected.
    pub open spec fn empty() -> Self {
        StateModel { rooms: RoomsModel::empty(), peers: PeersModel::empty() }
    }

    /// What holds at all times.
    pub open spec fn inv(self) -> bool {
        &&& self.rooms_inv()
        &&& self.clients_inv()
        &&& self.peers_inv()
    }

    /// Every open room has a proper ID, a host, and a list of peers.
    pub open spec fn rooms_inv(self) -> bool {
        &&& forall|r: RoomId| #[trigger]
            self.rooms.occupied.contains(r) ==> {
                &&& is_room_id(r)
                &&& self.rooms.room_clients.contains_key(r)
                &&& self.rooms.room_hosts.contains_key(r)
            }
        &&& forall|r: RoomId| #[trigger]
            self.rooms.room_clients.contains_key(r) ==> self.rooms.occupied.contains(r)
        &&& forall|r: RoomId| #[trigger]
            self.rooms.room_hosts.contains_key(r) ==> self.rooms.occupied.contains(r)
    }

    /// A peer that is in a room is listed in that room once, and in no other room.
    pub open spec fn clients_inv(self) -> bool {
        &&& forall|p: PeerId| #[trigger]
            self.rooms.client_rooms.contains_key(p) ==> {
                &&& self.peers.occupied.contains(p)
                &&& self.rooms.room_clients.contains_key(self.rooms.client_rooms[p])
                &&& self.rooms.room_clients[self.rooms.client_rooms[p]].contains(p)
            }
        &&& forall|r: RoomId, i: int|
            #![trigger self.rooms.room_clients[r][i]]
            self.rooms.room_clients.contains_key(r) && 0 <= i < self.rooms.room_clients[r].len()
                ==> {
                &&& self.rooms.client_rooms.contains_key(self.rooms.room_clients[r][i])
                &&& self.rooms.client_rooms[self.rooms.room_clients[r][i]] == r
            }
        &&& forall|r: RoomId|
            #![trigger self.rooms.room_clients[r]]
            self.rooms.room_clients.contains_key(r) ==> self.rooms.room_clients[r].no_duplicates()
    }

    /// Taken IDs are assignable and can be reached, and no two addresses share one.
    pub open spec fn peers_inv(self) -> bool {
        &&& forall|p: PeerId| #[trigger]
            self.peers.occupied.contains(p) ==> p.assignable() && self.peers.streams.contains_key(p)
        &&& forall|a: Address| #[trigger]
            self.peers.ids.contains_key(a) ==> self.peers.occupied.contains(self.peers.ids[a])
        &&& forall|a: Address, b: Address|
            #![trigger self.peers.ids[a], self.peers.ids[b]]
            self.peers.ids.contains_key(a) && self.peers.ids.contains_key(b) && self.peers.ids[a]
                == self.peers.ids[b] ==> a == b
    }

    /// The address is given an ID.
    pub open spec fn allocated(self, id: PeerId, stream: S, address: Address) -> Self {
        StateModel { peers: self.peers.allocated(id, stream, address), ..self }
    }

    /// The peer opens a room and enters it as its host.
    pub open spec fn hosting(self, peer_id: PeerId, room_id: RoomId) -> Self {
        StateModel {
            rooms: self.rooms.opened(room_id).hosted(room_id, peer_id).joined(peer_id, room_id),
            ..self
        }
    }

    /// The peer asks to enter the room.
    pub open spec fn joining(self, peer_id: PeerId, room_id: RoomId) -> Self {
        if self.rooms.host_id(room_id) is Some {
            StateModel { rooms: self.rooms.joined(peer_id, room_id), ..self }
        } else {
            self
        }
    }

    /// The peer with the given address disconnects.
    pub open spec fn disconnected(self, address: Address) -> Self {
        match self.peers.peer_id(address) {
            Some(id) => StateModel {
                rooms: self.rooms.quit(id),
                peers: self.peers.freed(address),
            },
            None => self,
        }
    }

    /// Whether the ID can be given to a peer that connects.
    pub open spec fn free_peer_id(self, id: PeerId) -> bool {
        id.assignable() && !self.peers.occupied.contains(id)
    }

    /// Whether the ID can be given to a room that is opened.
    pub open spec fn free_room_id(self, id: RoomId) -> bool {
        is_room_id(id) && !self.rooms.occupied.contains(id)
    }

    /// Tells the peers that a broadcast of the sender can reach.
    pub open spec fn reached(self, sender: PeerId) -> spec_fn(PeerId) -> bool {
        |peer: PeerId| peer != sender && self.peers.streams.contains_key(peer)
    }

    /// The peers that a broadcast of the sender to its room goes out to.
    pub open spec fn audience(self, sender: PeerId, room_id: RoomId) -> Seq<PeerId> {
        if self.rooms.room_clients.contains_key(room_id) {
            self.rooms.room_clients[room_id].filter(self.reached(sender))
        } else {
            Seq::empty()
        }
    }

    /// Whether `action` and `after` are what a request to open a room can lead to.
    pub open spec fn host_result(
        self,
        stream: S,
        address: Address,
        action: Action,
        after: Self,
    ) -> bool {
        ||| {
            &&& action == host_answer(None, None)
            &&& self.peers.any_taken()
            &&& after == self
        }
        ||| exists|id: PeerId|
            {
                &&& self.free_peer_id(id)
                &&& after == #[trigger] self.allocated(id, stream, address)
                &&& self.rooms.any_taken()
                &&& action == host_answer(Some(id), None)
            }
        ||| exists|room_id: RoomId, id: PeerId|
            {
                &&& self.free_room_id(room_id)
                &&& self.free_peer_id(id)
                &&& after == #[trigger] self.allocated(id, stream, address).hosting(id, room_id)
                &&& action == host_answer(Some(id), Some(room_id))
            }
    }

    /// Whether `action` and `after` are what a request to enter a room can lead to.
    pub open spec fn join_result(
        self,
        stream: S,
        address: Address,
        room_id: RoomId,
        action: Action,
        after: Self,
    ) -> bool {
        ||| {
            &&& action == no_free_peer_ids()
            &&& self.peers.any_taken()
            &&& after == self
        }
        ||| exists|id: PeerId|
            {
                &&& self.free_peer_id(id)
                &&& after == #[trigger] self.allocated(id, stream, address).joining(id, room_id)
                &&& action == join_answer(self.rooms.host_id(room_id))
            }
    }

    /// Whether `action` is what a request to pass data on leads to.
    pub open spec fn relay_result(
        self,
        address: Address,
        target_id: PeerId,
        data: Vec<u8>,
        action: Action,
    ) -> bool {
        match self.peers.peer_id(address) {
            None => action == Action::Close(Failure::NoPeerId),
            Some(sender) => match self.rooms.room_id(sender) {
                None => action == Action::Close(Failure::NotInRoom),
                Some(room_id) => {
                    let relayed = Packet::Relayed(sender, data);
                    if target_id.0 == PeerId::BROADCAST {
                        action matches Action::Broadcast { packet, targets } && packet == relayed
                            && targets@ == self.audience(sender, room_id)
                    } else if self.peers.streams.contains_key(target_id) {
                        action == (Action::Forward { packet: relayed, target: target_id })
                    } else {
                        action == (Action::Answer {
                            packet: Packet::Error(Error::NoSuchPeer),
                            then: Ok(()),
                        })
                    }
                },
            },
        }
    }

    /// Whether `action` and `after` are what a packet can lead to.
    pub open spec fn packet_result(
        self,
        stream: S,
        address: Address,
        packet: Packet,
        action: Action,
        after: Self,
    ) -> bool {
        match packet {
            Packet::Host => self.host_result(stream, address, action, after),
            Packet::Join(room_id) => self.join_result(stream, address, room_id, action, after),
            Packet::Relay(target_id, data) => after == self && self.relay_result(
                address,
                target_id,
                data,
                action,
            ),
            _ => after == self && action == Action::Ignore,
        }
    }
}

/// The matchmaker's state. A peer is reached through a stream of type `S`.
#[verifier::reject_recursive_types(S)]
pub struct State<S> {
    rooms: Rooms,
    peers: Peers<S>,
}

impl<S> View for State<S> {
    type V = StateModel<S>;

    closed spec fn view(&self) -> StateModel<S> {
        StateModel { rooms: self.rooms@, peers: self.peers@ }
    }
}

impl<S> State<S> {
    /// Creates the state of a matchmaker that nobody has connected to.
    pub fn new() -> (state: Self)
        ensures
            state@ == StateModel::<S>::empty(),
            state@.inv(),
    {
        State { rooms: Rooms::new(), peers: Peers::new() }
    }

    /// Answers a request to open a room, given the peer's ID and the room that was opened for it,
    /// if there were any to be had.
    pub fn answer_host(&mut self, peer_id: Option<PeerId>, room_id: Option<RoomId>) -> (action:
        Action)
        ensures
            action == host_answer(peer_id, room_id),
            final(self)@ == (match (peer_id, room_id) {
                (Some(peer_id), Some(room_id)) => StateModel {
                    rooms: old(self)@.rooms.hosted(room_id, peer_id).joined(peer_id, room_id),
                    ..old(self)@
                },
                _ => old(self)@,
            }),
    {
        let peer_id = match peer_id {
            Some(id) => id,
            None => {
                return Action::Answer {
                    packet: Packet::Error(Error::NoFreePeerIDs),
                    then: Err(Failure::NoFreePeerIds),
                };
            },
        };
        let room_id = match room_id {
            Some(id) => id,
            None => {
                return Action::Answer {
                    packet: Packet::Error(Error::NoFreeRooms),
                    then: Err(Failure::NoFreeRoomIds),
                };
            },
        };
        self.rooms.make_host(room_id, peer_id);
        self.rooms.join_room(peer_id, room_id);
        Action::Answer { packet: Packet::RoomCreated(room_id, peer_id), then: Ok(()) }
    }

    /// Opens a room for the peer with the given address.
    pub fn host(&mut self, stream: S, address: Address) -> (action: Action)
        ensures
            old(self)@.host_result(stream, address, action, final(self)@),
            old(self)@.inv() ==> final(self)@.inv(),
    {
        let ghost before = self@;
        let peer_id = self.peers.allocate_peer_id(stream, address);
        let room_id = match peer_id {
            Some(id) => {
                assert(self@ =~= before.allocated(id, stream, address));
                self.rooms.find_room_id()
            },
            None => {
                assert(self@ =~= before);
                None
            },
        };
        proof {
            if let Some(id) = peer_id {
                let seated = before.allocated(id, stream, address);
                match room_id {
                    Some(room_id) => {
                        assert(self@ =~= StateModel {
                            rooms: seated.rooms.opened(room_id),
                            ..seated
                        });
                    },
                    None => {
                        assert(self@ =~= seated);
                    },
                }
            }
        }
        let action = self.answer_host(peer_id, room_id);
        proof {
            if let Some(id) = peer_id {
                if let Some(room_id) = room_id {
                    assert(self@ =~= before.allocated(id, stream, address).hosting(id, room_id));
                }
            }
            if before.inv() {
                law_host_keeps_invariant(before, stream, address, action, self@);
            }
        }
        action
    }

    /// Answers a request to enter a room, given the peer's ID, if there was one to be had.
    pub fn answer_join(&mut self, peer_id: Option<PeerId>, room_id: RoomId) -> (action: Action)
        ensures
            match peer_id {
                Some(peer_id) => final(self)@ == old(self)@.joining(peer_id, room_id) && action
                    == join_answer(old(self)@.rooms.host_id(room_id)),
                None => final(self)@ == old(self)@ && action == no_free_peer_ids(),
            },
    {
        let peer_id = match peer_id {
            Some(id) => id,
            None => {
                return Action::Answer {
                    packet: Packet::Error(Error::NoFreePeerIDs),
                    then: Err(Failure::NoFreePeerIds),
                };
            },
        };
        match self.rooms.host_id(room_id) {
            Some(host_id) => {
                self.rooms.join_room(peer_id, room_id);
                Action::Answer { packet: Packet::HostId(host_id), then: Ok(()) }
            },
            None => Action::Answer {
                packet: Packet::Error(Error::RoomDoesNotExist),
                then: Err(Failure::NoSuchRoom),
            },
        }
    }

    /// Lets the peer with the given address into a room.
    pub fn join(&mut self, stream: S, address: Address, room_id: RoomId) -> (action: Action)
        ensures
            old(self)@.join_result(stream, address, room_id, action, final(self)@),
            old(self)@.inv() ==> final(self)@.inv(),
    {
        let ghost before = self@;
        let peer_id = self.peers.allocate_peer_id(stream, address);
        proof {
            match peer_id {
                Some(id) => {
                    assert(self@ =~= before.allocated(id, stream, address));
                },
                None => {
                    assert(self@ =~= before);
                },
            }
        }
        let action = self.answer_join(peer_id, room_id);
        proof {
            if before.inv() {
                law_join_keeps_invariant(before, stream, address, room_id, action, self@);
            }
        }
        action
    }

    /// Returns the peers that a broadcast of the sender to its room goes out to.
    fn audience(&self, sender: PeerId, room_id: RoomId) -> (targets: Vec<PeerId>)
        ensures
            targets@ == self@.audience(sender, room_id),
    {
        let mut targets: Vec<PeerId> = Vec::new();
        let ghost reached = self@.reached(sender);
        if let Some(clients) = self.rooms.peers_in_room(room_id) {
            let mut index: usize = 0;
            assert(clients@.take(0).filter(reached) =~= Seq::empty()) by {
                reveal(Seq::filter);
            }
            while index < clients.len()
                invariant
                    index <= clients.len(),
                    reached == self@.reached(sender),
                    targets@ == clients@.take(index as int).filter(reached),
                decreases clients.len() - index,
            {
                let peer_id = clients[index];
                proof {
                    clients@.take(index as int).lemma_filter_push(peer_id, reached);
                    assert(clients@.take(index as int).push(peer_id) =~= clients@.take(
                        index as int + 1,
                    ));
                }
                if peer_id != sender {
                    if self.peers.stream(peer_id).is_some() {
                        targets.push(peer_id);
                    }
                }
                index += 1;
            }
            assert(clients@.take(clients@.len() as int) =~= clients@);
        }
        targets
    }

    /// Decides who data is passed on to.
    pub fn relay(&self, address: Address, target_id: PeerId, data: Vec<u8>) -> (action: Action)
        ensures
            self@.relay_result(address, target_id, data, action),
    {
        let sender_id = match self.peers.peer_id(address) {
            Some(id) => id,
            None => {
                return Action::Close(Failure::NoPeerId);
            },
        };
        let room_id = match self.rooms.room_id(sender_id) {
            Some(id) => id,
            None => {
                return Action::Close(Failure::NotInRoom);
            },
        };
        let packet = Packet::Relayed(sender_id, data);
        if target_id.is_broadcast() {
            Action::Broadcast { packet, targets: self.audience(sender_id, room_id) }
        } else if self.peers.stream(target_id).is_some() {
            Action::Forward { packet, target: target_id }
        } else {
            Action::Answer { packet: Packet::Error(Error::NoSuchPeer), then: Ok(()) }
        }
    }

    /// Decides what there is to do about a packet from the given address.
    pub fn handle_packet(&mut self, stream: S, address: Address, packet: Packet) -> (action: Action)
        ensures
            old(self)@.packet_result(stream, address, packet, action, final(self)@),
            old(self)@.inv() ==> final(self)@.inv(),
    {
        match packet {
            Packet::Host => self.host(stream, address),
            Packet::Join(room_id) => self.join(stream, address, room_id),
            Packet::Relay(target_id, data) => self.relay(address, target_id, data),
            // These ones shouldn't happen, ignore.
            Packet::RoomCreated(_, _) => Action::Ignore,
            Packet::HostId(_) => Action::Ignore,
            Packet::Relayed(_, _) => Action::Ignore,
            Packet::Disconnected(_) => Action::Ignore,
            Packet::Error(_) => Action::Ignore,
        }
    }

    /// Tears down what is known of the peer with the given address.
    pub fn disconnect(&mut self, address: Address) -> (disconnected: Result<PeerId, Failure>)
        ensures
            final(self)@ == old(self)@.disconnected(address),
            disconnected == (match old(self)@.peers.peer_id(address) {
                Some(id) => Ok::<PeerId, Failure>(id),
                None => Err(Failure::HadNoPeerId),
            }),
            old(self)@.inv() ==> final(self)@.inv(),
    {
        proof {
            if old(self)@.inv() {
                law_disconnect_keeps_invariant(old(self)@, address);
            }
        }
        match self.peers.peer_id(address) {
            Some(peer_id) => {
                self.rooms.quit_room(peer_id);
                self.peers.free_peer_id(address);
                Ok(peer_id)
            },
            None => Err(Failure::HadNoPeerId),
        }
    }

    /// Returns the stream that the peer with the given ID is reached through.
    pub fn stream(&self, id: PeerId) -> (stream: Option<&S>)
        ensures
            stream == (if self@.peers.streams.contains_key(id) {
                Some(&self@.peers.streams[id])
            } else {
                None
            }),
    {
        self.peers.stream(id)
    }
}

} // verus!
