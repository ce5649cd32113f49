//! The peers that are connected.

use vstd::prelude::*;

use crate::matchmaker::laws::law_first_free_id_is_found;
use crate::matchmaker::search::{first_free, ID_ATTEMPTS};
use crate::protocol::{Address, PeerId};
use crate::random::random_between;
use crate::table::{KeySet, Table};

verus! {

/// What is known of the connected peers.
#[verifier::ext_equal]
#[verifier::reject_recursive_types(S)]
pub struct PeersModel<S> {
    /// The IDs that are taken.
    pub occupied: Set<PeerId>,
    /// The ID that was last given to each address.
    pub ids: Map<Address, PeerId>,
    /// The stream that each peer is reached through. It stays when the ID is freed.
    pub streams: Map<PeerId, S>,
}

impl<S> PeersModel<S> {
    /// Nobody is connected.
    pub open spec fn empty() -> Self {
        PeersModel { occupied: Set::empty(), ids: Map::empty(), streams: Map::empty() }
    }

    /// Whether any of the assignable IDs is taken.
    pub open spec fn any_taken(self) -> bool {
        exists|id: PeerId| id.assignable() && #[trigger] self.occupied.contains(id)
    }

    /// The address is given the ID, which packets reach through the stream.
    pub open spec fn allocated(self, id: PeerId, stream: S, address: Address) -> Self {
        PeersModel {
            occupied: self.occupied.insert(id),
            ids: self.ids.insert(address, id),
            streams: self.streams.insert(id, stream),
        }
    }

    /// The ID of the address can be given to others again.
    pub open spec fn freed(self, address: Address) -> Self {
        if self.ids.contains_key(address) {
            PeersModel {
                occupied: self.occupied.remove(self.ids[address]),
                ids: self.ids.remove(address),
                ..self
            }
        } else {
            self
        }
    }

    /// The ID of the address.
    pub open spec fn peer_id(self, address: Address) -> Option<PeerId> {
        if self.ids.contains_key(address) {
            Some(self.ids[address])
        } else {
            None
        }
    }
}

/// The connected peers. A peer is reached through a stream of type `S`.
#[verifier::reject_recursive_types(S)]
pub struct Peers<S> {
    occupied_peer_ids: KeySet<PeerId>,
    peer_ids: Table<Address, PeerId>,
    peer_streams: Table<PeerId, S>,
}

impl<S> View for Peers<S> {
    type V = PeersModel<S>;

    closed spec fn view(&self) -> PeersModel<S> {
        PeersModel {
            occupied: self.occupied_peer_ids@,
            ids: self.peer_ids@,
            streams: self.peer_streams@,
        }
    }
}

impl<S> Peers<S> {
    /// Creates the registry, with nobody connected.
    pub fn new() -> (peers: Self)
        ensures
            peers@ == PeersModel::<S>::empty(),
    {
        Peers {
            occupied_peer_ids: KeySet::new(),
            peer_ids: Table::new(),
            peer_streams: Table::new(),
        }
    }

    /// Gives the address the ID if it is free. Otherwise hands the stream back.
    pub fn claim_peer_id(&mut self, id: PeerId, stream: S, address: Address) -> (claimed: Result<
        (),
        S,
    >)
        ensures
            old(self)@.occupied.contains(id) ==> claimed == Err::<(), S>(stream) && final(self)@
                == old(self)@,
            !old(self)@.occupied.contains(id) ==> claimed == Ok::<(), S>(()) && final(self)@
                == old(self)@.allocated(id, stream, address),
    {
        if self.occupied_peer_ids.insert(id) {
            self.peer_ids.insert(address, id);
            self.peer_streams.insert(id, stream);
            Ok(())
        } else {
            assert(self@ =~= old(self)@);
            Err(stream)
        }
    }

    /// Gives the address the first of the candidates that is free.
    ///
    /// Returns `None` if none of them are.
    pub fn claim_first_free(
        &mut self,
        candidates: &Vec<PeerId>,
        stream: S,
        address: Address,
    ) -> (found: Option<PeerId>)
        ensures
            found == first_free(candidates@, old(self)@.occupied),
            final(self)@ == (match found {
                Some(id) => old(self)@.allocated(id, stream, address),
                None => old(self)@,
            }),
    {
        let mut unplaced = stream;
        let mut index: usize = 0;
        assert(candidates@.skip(0) =~= candidates@);
        while index < candidates.len()
            invariant
                index <= candidates.len(),
                self@ == old(self)@,
                unplaced == stream,
                first_free(candidates@, old(self)@.occupied) == first_free(
                    candidates@.skip(index as int),
                    old(self)@.occupied,
                ),
            decreases candidates.len() - index,
        {
            let id = candidates[index];
            assert(candidates@.skip(index as int).drop_first() =~= candidates@.skip(
                index as int + 1,
            ));
            match self.claim_peer_id(id, unplaced, address) {
                Ok(()) => {
                    return Some(id);
                },
                Err(unused) => {
                    unplaced = unused;
                },
            }
            index += 1;
        }
        None
    }

    /// Returns the lowest and the highest ID that may be given to a peer.
    pub fn id_bounds() -> (bounds: (u64, u64))
        ensures
            bounds.0 == PeerId::FIRST_PEER,
            bounds.1 == PeerId::LAST_PEER,
    {
        (PeerId::FIRST_PEER, PeerId::LAST_PEER)
    }

    /// Draws as many peer IDs as are tried before a search gives up.
    pub fn draw_candidates() -> (candidates: Vec<PeerId>)
        ensures
            candidates@.len() == ID_ATTEMPTS,
            forall|i: int| 0 <= i < candidates@.len() ==> (#[trigger] candidates@[i]).assignable(),
    {
        let mut candidates: Vec<PeerId> = Vec::new();
        while candidates.len() < ID_ATTEMPTS
            invariant
                candidates@.len() <= ID_ATTEMPTS,
                forall|i: int|
                    0 <= i < candidates@.len() ==> (#[trigger] candidates@[i]).assignable(),
            decreases ID_ATTEMPTS - candidates@.len(),
        {
            let (first, last) = Self::id_bounds();
            candidates.push(PeerId(random_between(first, last)));
        }
        candidates
    }

    /// Allocates a new peer ID for the given socket address.
    ///
    /// Returns `None` if all attempts to find a free ID have failed.
    pub fn allocate_peer_id(&mut self, stream: S, address: Address) -> (allocated: Option<PeerId>)
        ensures
            match allocated {
                Some(id) => {
                    &&& id.assignable()
                    &&& !old(self)@.occupied.contains(id)
                    &&& final(self)@ == old(self)@.allocated(id, stream, address)
                },
                None => {
                    &&& final(self)@ == old(self)@
                    &&& old(self)@.any_taken()
                },
            },
    {
        let candidates = Self::draw_candidates();
        proof {
            law_first_free_id_is_found(candidates@, self@.occupied);
        }
        self.claim_first_free(&candidates, stream, address)
    }

    /// Deallocates the ID of the given address. New peers will be able to join with the same ID.
    pub fn free_peer_id(&mut self, address: Address)
        ensures
            final(self)@ == old(self)@.freed(address),
    {
        if let Some(id) = self.peer_ids.remove(address) {
            self.occupied_peer_ids.remove(id);
        }
        assert(self@ =~= old(self)@.freed(address));
    }

    /// Returns the ID of the peer with the given socket address.
    pub fn peer_id(&self, address: Address) -> (id: Option<PeerId>)
        ensures
            id == self@.peer_id(address),
    {
        match self.peer_ids.get(address) {
            Some(id) => Some(*id),
            None => None,
        }
    }

    /// Returns the stream that the peer with the given ID is reached through.
    pub fn stream(&self, id: PeerId) -> (stream: Option<&S>)
        ensures
            stream == (if self@.streams.contains_key(id) {
                Some(&self@.streams[id])
            } else {
                None
            }),
    {
        self.peer_streams.get(id)
    }
}

} // verus!
