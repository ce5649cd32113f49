//! Requests for chunk downloads, on their way over a message bus.

use vstd::prelude::*;

use crate::paint::downloads::ChunkPosition;

verus! {

/// `nysa::Bus`, a store of messages. It keeps them in slots, which are used again once the message
/// is gone. What it holds is told by [`messages`] and [`packed`].
#[verifier::external_type_specification]
#[verifier::external_body]
pub struct ExBus(nysa::Bus);

/// A bus message requesting a chunk download.
pub struct RequestChunkDownload(pub ChunkPosition);

/// The chunks that there are download requests for on a bus, in the order of the slots.
pub uninterp spec fn messages(bus: nysa::Bus) -> Seq<ChunkPosition>;

/// Whether no download request on a bus is in a slot behind one that is free.
pub uninterp spec fn packed(bus: nysa::Bus) -> bool;

/// Creates a bus.
///
/// Calls `nysa::Bus::new`, which makes a bus without slots.
#[verifier::external_body]
fn new_bus() -> (bus: nysa::Bus)
    ensures
        messages(bus) == Seq::<ChunkPosition>::empty(),
        packed(bus),
{
    nysa::Bus::new()
}

/// Puts a request on a bus.
///
/// Calls `nysa::Bus::push`, which puts the message in the first free slot among those for messages
/// of its type, or in a new last one if none are free. Where the slots in use come first, that is
/// the slot right behind them.
#[verifier::external_body]
fn push_request(bus: &mut nysa::Bus, request: RequestChunkDownload)
    requires
        packed(*old(bus)),
    ensures
        messages(*final(bus)) == messages(*old(bus)).push(request.0),
        packed(*final(bus)),
{
    bus.push(request);
}

/// Takes all requests off a bus, and returns the positions that they are for.
///
/// Calls `nysa::Bus::retrieve_all`, which hands out the messages of one type in the order of their
/// slots, and consumes each of them, which frees the slot.
#[verifier::external_body]
fn retrieve_requests(bus: &mut nysa::Bus) -> (positions: Vec<ChunkPosition>)
    ensures
        positions@ == messages(*old(bus)),
        messages(*final(bus)) == Seq::<ChunkPosition>::empty(),
        packed(*final(bus)),
{
    bus.retrieve_all::<RequestChunkDownload>()
        .into_iter()
        .map(|message| message.consume().0)
        .collect()
}

/// The requests for chunk downloads that nobody has acted upon yet, the oldest first.
pub struct Requests {
    bus: nysa::Bus,
}

impl View for Requests {
    type V = Seq<ChunkPosition>;

    closed spec fn view(&self) -> Seq<ChunkPosition> {
        messages(self.bus)
    }
}

impl Requests {
    /// Whether the requests are stored in the order in which they were made.
    pub closed spec fn wf(self) -> bool {
        packed(self.bus)
    }

    /// Creates the state in which nothing is requested.
    pub fn new() -> (requests: Self)
        ensures
            requests.wf(),
            requests@ == Seq::<ChunkPosition>::empty(),
    {
        Requests { bus: new_bus() }
    }

    /// Requests a chunk download.
    pub fn push(&mut self, position: ChunkPosition)
        requires
            old(self).wf(),
        ensures
            final(self).wf(),
            final(self)@ == old(self)@.push(position),
    {
        push_request(&mut self.bus, RequestChunkDownload(position));
    }

    /// Takes out all requests, and returns the positions that they are for, in the order in which
    /// the requests were made.
    pub fn retrieve_all(&mut self) -> (positions: Vec<ChunkPosition>)
        requires
            old(self).wf(),
        ensures
            final(self).wf(),
            positions@ == old(self)@,
            final(self)@ == Seq::<ChunkPosition>::empty(),
    {
        retrieve_requests(&mut self.bus)
    }
}

} // verus!
