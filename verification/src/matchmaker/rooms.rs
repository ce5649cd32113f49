//! The rooms that are open, and who is in them.

use vstd::prelude::*;
use vstd::string::StrSliceExecFns;

use crate::matchmaker::laws::law_first_free_id_is_found;
use crate::matchmaker::search::{first_free, ID_ATTEMPTS};
use crate::protocol::{PeerId, RoomId};
use crate::random::random_between;
use crate::table::{KeySet, Table};

verus! {

/// The characters that room IDs are composed of.
///
/// This is _almost_ base32, with `I`, `0`, and `O` omitted to avoid confusion.
/// Some fonts render `0` and `O` in a very similar way, and people often confuse the capital
/// `I` for the lowercase `l`, even if it's not a part of a code.
pub const ID_CHARSET: &'static str = "123456789ABCDEFGHJKLMNPQRSTUVWXYZ";

/// Whether the byte is one of the characters of [`ID_CHARSET`].
pub open spec fn in_charset(byte: u8) -> bool {
    exists|i: int| 0 <= i < ID_CHARSET@.len() && #[trigger] ID_CHARSET@[i] as u8 == byte
}

/// Whether the ID is composed of the characters of [`ID_CHARSET`].
pub open spec fn is_room_id(id: RoomId) -> bool {
    forall|i: int| 0 <= i < 6 ==> in_charset(#[trigger] id.0[i])
}

/// The sequence without the element at `index`, which the last element takes the place of.
pub open spec fn swap_removed<A>(items: Seq<A>, index: int) -> Seq<A> {
    items.update(index, items.last()).drop_last()
}

/// The sequence without the first occurrence of `item`, which the last element takes the place of.
pub open spec fn without<A>(items: Seq<A>, item: A) -> Seq<A> {
    match items.index_of_first(item) {
        Some(index) => swap_removed(items, index),
        None => items,
    }
}

/// What is known of the open rooms.
#[verifier::ext_equal]
pub struct RoomsModel {
    /// The IDs that are taken.
    pub occupied: Set<RoomId>,
    /// The room that each peer is in.
    pub client_rooms: Map<PeerId, RoomId>,
    /// The peers in each room, in the order in which packets go out to them.
    pub room_clients: Map<RoomId, Seq<PeerId>>,
    /// The host of each room.
    pub room_hosts: Map<RoomId, PeerId>,
}

impl RoomsModel {
    /// No rooms are open.
    pub open spec fn empty() -> Self {
        RoomsModel {
            occupied: Set::empty(),
            client_rooms: Map::empty(),
            room_clients: Map::empty(),
            room_hosts: Map::empty(),
        }
    }

    /// Whether any of the proper IDs is taken.
    pub open spec fn any_taken(self) -> bool {
        exists|id: RoomId| is_room_id(id) && #[trigger] self.occupied.contains(id)
    }

    /// A room without peers is opened.
    pub open spec fn opened(self, id: RoomId) -> Self {
        RoomsModel {
            occupied: self.occupied.insert(id),
            room_clients: self.room_clients.insert(id, Seq::empty()),
            ..self
        }
    }

    /// The peer is made the host of the room.
    pub open spec fn hosted(self, room_id: RoomId, peer_id: PeerId) -> Self {
        RoomsModel { room_hosts: self.room_hosts.insert(room_id, peer_id), ..self }
    }

    /// The peer enters the room, provided that the room is open.
    pub open spec fn joined(self, peer_id: PeerId, room_id: RoomId) -> Self {
        if self.room_clients.contains_key(room_id) {
            RoomsModel {
                client_rooms: self.client_rooms.insert(peer_id, room_id),
                room_clients: self.room_clients.insert(
                    room_id,
                    self.room_clients[room_id].push(peer_id),
                ),
                ..self
            }
        } else {
            self
        }
    }

    /// The peer leaves the room that it is in.
    pub open spec fn quit(self, peer_id: PeerId) -> Self {
        if self.client_rooms.contains_key(peer_id) {
            let room_id = self.client_rooms[peer_id];
            let client_rooms = self.client_rooms.remove(peer_id);
            if self.room_clients.contains_key(room_id) {
                RoomsModel {
                    client_rooms,
                    room_clients: self.room_clients.insert(
                        room_id,
                        without(self.room_clients[room_id], peer_id),
                    ),
                    ..self
                }
            } else {
                RoomsModel { client_rooms, ..self }
            }
        } else {
            self
        }
    }

    /// The host of the room.
    pub open spec fn host_id(self, room_id: RoomId) -> Option<PeerId> {
        if self.room_hosts.contains_key(room_id) {
            Some(self.room_hosts[room_id])
        } else {
            None
        }
    }

    /// The room that the peer is in.
    pub open spec fn room_id(self, peer_id: PeerId) -> Option<RoomId> {
        if self.client_rooms.contains_key(peer_id) {
            Some(self.client_rooms[peer_id])
        } else {
            None
        }
    }
}

/// The open rooms.
pub struct Rooms {
    occupied_room_ids: KeySet<RoomId>,
    client_rooms: Table<PeerId, RoomId>,
    room_clients: Table<RoomId, Vec<PeerId>>,
    room_hosts: Table<RoomId, PeerId>,
}

impl View for Rooms {
    type V = RoomsModel;

    closed spec fn view(&self) -> RoomsModel {
        RoomsModel {
            occupied: self.occupied_room_ids@,
            client_rooms: self.client_rooms@,
            room_clients: self.room_clients@.map_values(|clients: Vec<PeerId>| clients@),
            room_hosts: self.room_hosts@,
        }
    }
}

impl Rooms {
    /// Creates the registry, with no rooms open.
    pub fn new() -> (rooms: Self)
        ensures
            rooms@ == RoomsModel::empty(),
    {
        let rooms = Rooms {
            occupied_room_ids: KeySet::new(),
            client_rooms: Table::new(),
            room_clients: Table::new(),
            room_hosts: Table::new(),
        };
        assert(rooms@ =~= RoomsModel::empty());
        rooms
    }

    /// Returns the lowest and the highest number that a character of [`ID_CHARSET`] has.
    pub fn index_bounds() -> (bounds: (u64, u64))
        ensures
            bounds.0 == 0,
            bounds.1 == ID_CHARSET@.len() - 1,
    {
        proof {
            reveal_strlit("123456789ABCDEFGHJKLMNPQRSTUVWXYZ");
        }
        let length: usize = ID_CHARSET.len();
        assert(length == ID_CHARSET@.len()) by {
            vstd::string::is_ascii_spec_bytes(ID_CHARSET);
        }
        (0, length as u64 - 1)
    }

    /// Picks the number of a character of [`ID_CHARSET`] at random.
    fn random_index() -> (index: usize)
        ensures
            index < ID_CHARSET@.len(),
    {
        proof {
            reveal_strlit("123456789ABCDEFGHJKLMNPQRSTUVWXYZ");
        }
        let (first, last) = Self::index_bounds();
        random_between(first, last) as usize
    }

    /// Returns a character of [`ID_CHARSET`].
    fn character(index: usize) -> (character: u8)
        requires
            index < ID_CHARSET@.len(),
        ensures
            character == ID_CHARSET@[index as int] as u8,
    {
        proof {
            reveal_strlit("123456789ABCDEFGHJKLMNPQRSTUVWXYZ");
        }
        ID_CHARSET.get_ascii(index)
    }

    /// Composes a room ID of the characters with the given numbers.
    pub fn compose_room_id(indices: [usize; 6]) -> (id: RoomId)
        requires
            forall|i: int| 0 <= i < 6 ==> #[trigger] indices[i] < ID_CHARSET@.len(),
        ensures
            forall|i: int|
                0 <= i < 6 ==> #[trigger] id.0[i] == ID_CHARSET@[indices[i] as int] as u8,
            is_room_id(id),
    {
        RoomId(
            [
                Self::character(indices[0]),
                Self::character(indices[1]),
                Self::character(indices[2]),
                Self::character(indices[3]),
                Self::character(indices[4]),
                Self::character(indices[5]),
            ],
        )
    }

    /// Generates a pseudo-random room ID.
    pub fn generate_room_id() -> (id: RoomId)
        ensures
            is_room_id(id),
    {
        Self::compose_room_id(
            [
                Self::random_index(),
                Self::random_index(),
                Self::random_index(),
                Self::random_index(),
                Self::random_index(),
                Self::random_index(),
            ],
        )
    }

    /// Opens a room under the given ID, and returns whether the ID was free.
    pub fn claim_room_id(&mut self, id: RoomId) -> (claimed: bool)
        ensures
            claimed == !old(self)@.occupied.contains(id),
            final(self)@ == (if claimed {
                old(self)@.opened(id)
            } else {
                old(self)@
            }),
    {
        let claimed = self.occupied_room_ids.insert(id);
        if claimed {
            self.room_clients.insert(id, Vec::new());
        }
        assert(self@ =~= if claimed {
            old(self)@.opened(id)
        } else {
            old(self)@
        });
        claimed
    }

    /// Opens a room under the first of the candidates that is free.
    ///
    /// Returns `None` if none of them are.
    pub fn claim_first_free(&mut self, candidates: &Vec<RoomId>) -> (found: Option<RoomId>)
        ensures
            found == first_free(candidates@, old(self)@.occupied),
            final(self)@ == (match found {
                Some(id) => old(self)@.opened(id),
                None => old(self)@,
            }),
    {
        let mut index: usize = 0;
        assert(candidates@.skip(0) =~= candidates@);
        while index < candidates.len()
            invariant
                index <= candidates.len(),
                self@ == old(self)@,
                first_free(candidates@, old(self)@.occupied) == first_free(
                    candidates@.skip(index as int),
                    old(self)@.occupied,
                ),
            decreases candidates.len() - index,
        {
            let id = candidates[index];
            assert(candidates@.skip(index as int).drop_first() =~= candidates@.skip(
                index as int + 1,
            ));
            if self.claim_room_id(id) {
                return Some(id);
            }
            index += 1;
        }
        None
    }

    /// Draws as many room IDs as are tried before a search gives up.
    pub fn draw_candidates() -> (candidates: Vec<RoomId>)
        ensures
            candidates@.len() == ID_ATTEMPTS,
            forall|i: int| 0 <= i < candidates@.len() ==> is_room_id(#[trigger] candidates@[i]),
    {
        let mut candidates: Vec<RoomId> = Vec::new();
        while candidates.len() < ID_ATTEMPTS
            invariant
                candidates@.len() <= ID_ATTEMPTS,
                forall|i: int| 0 <= i < candidates@.len() ==> is_room_id(#[trigger] candidates@[i]),
            decreases ID_ATTEMPTS - candidates@.len(),
        {
            candidates.push(Self::generate_room_id());
        }
        candidates
    }

    /// Allocates a new, free room ID.
    ///
    /// Returns `None` if all attempts to find a free ID have failed.
    pub fn find_room_id(&mut self) -> (found: Option<RoomId>)
        ensures
            match found {
                Some(id) => {
                    &&& is_room_id(id)
                    &&& !old(self)@.occupied.contains(id)
                    &&& final(self)@ == old(self)@.opened(id)
                },
                None => {
                    &&& final(self)@ == old(self)@
                    &&& old(self)@.any_taken()
                },
            },
    {
        let candidates = Self::draw_candidates();
        proof {
            law_first_free_id_is_found(candidates@, self@.occupied);
        }
        self.claim_first_free(&candidates)
    }

    /// Makes the peer with the given ID the host of this room.
    pub fn make_host(&mut self, room_id: RoomId, peer_id: PeerId)
        ensures
            final(self)@ == old(self)@.hosted(room_id, peer_id),
    {
        self.room_hosts.insert(room_id, peer_id);
    }

    /// Makes the peer join the room with the given ID.
    pub fn join_room(&mut self, peer_id: PeerId, room_id: RoomId)
        ensures
            final(self)@ == old(self)@.joined(peer_id, room_id),
    {
        if let Some(mut clients) = self.room_clients.remove(room_id) {
            self.client_rooms.insert(peer_id, room_id);
            clients.push(peer_id);
            self.room_clients.insert(room_id, clients);
        }
        assert(self@ =~= old(self)@.joined(peer_id, room_id));
    }

    /// Returns where the peer stands among the clients of its room.
    fn position(clients: &Vec<PeerId>, peer_id: PeerId) -> (position: Option<usize>)
        ensures
            match position {
                Some(index) => clients@.index_of_first(peer_id) == Some(index as int),
                None => clients@.index_of_first(peer_id) is None,
            },
    {
        proof {
            clients@.index_of_first_ensures(peer_id);
        }
        let mut index: usize = 0;
        while index < clients.len()
            invariant
                index <= clients.len(),
                forall|i: int| 0 <= i < index ==> clients@[i] != peer_id,
            decreases clients.len() - index,
        {
            if clients[index] == peer_id {
                proof {
                    clients@.index_of_first_ensures(peer_id);
                    assert(clients@.contains(peer_id));
                }
                return Some(index);
            }
            index += 1;
        }
        None
    }

    /// Makes the peer quit the room that it is in.
    pub fn quit_room(&mut self, peer_id: PeerId)
        ensures
            final(self)@ == old(self)@.quit(peer_id),
    {
        if let Some(room_id) = self.client_rooms.remove(peer_id) {
            if let Some(mut clients) = self.room_clients.remove(room_id) {
                proof {
                    clients@.index_of_first_ensures(peer_id);
                }
                if let Some(index) = Self::position(&clients, peer_id) {
                    clients.swap_remove(index);
                }
                self.room_clients.insert(room_id, clients);
            }
        }
        assert(self@ =~= old(self)@.quit(peer_id));
    }

    /// Returns the ID of the given room's host, or `None` if the room doesn't exist.
    pub fn host_id(&self, room_id: RoomId) -> (host: Option<PeerId>)
        ensures
            host == self@.host_id(room_id),
    {
        match self.room_hosts.get(room_id) {
            Some(host) => Some(*host),
            None => None,
        }
    }

    /// Returns the ID of the given peer's room, or `None` if they haven't joined a room yet.
    pub fn room_id(&self, peer_id: PeerId) -> (room: Option<RoomId>)
        ensures
            room == self@.room_id(peer_id),
    {
        match self.client_rooms.get(peer_id) {
            Some(room) => Some(*room),
            None => None,
        }
    }

    /// Returns all the peers in a given room, or `None` if the room doesn't exist.
    pub fn peers_in_room(&self, room_id: RoomId) -> (peers: Option<&Vec<PeerId>>)
        ensures
            match peers {
                Some(clients) => self@.room_clients.contains_key(room_id)
                    && self@.room_clients[room_id] == clients@,
                None => !self@.room_clients.contains_key(room_id),
            },
    {
        self.room_clients.get(room_id)
    }
}

} // verus!
