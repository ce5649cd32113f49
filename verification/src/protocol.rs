//! The values that the matchmaker and its peers exchange.

use vstd::prelude::*;

use crate::table::Key;

verus! {

/// The port that a matchmaker listens on.
pub const DEFAULT_PORT: u16 = 62137;

/// An ID unique to a single room.
#[derive(Clone, Copy, Debug, PartialEq, Eq, Hash)]
pub struct RoomId(pub [u8; 6]);

/// An ID unique to a single peer.
#[derive(Clone, Copy, Debug, PartialEq, Eq, Hash, Structural)]
pub struct PeerId(pub u64);

impl PeerId {
    /// The target ID that stands for everyone in the sender's room.
    pub const BROADCAST: u64 = 0;

    /// The lowest ID that is ever given to a peer.
    pub const FIRST_PEER: u64 = 1;

    /// The highest ID that is ever given to a peer.
    pub const LAST_PEER: u64 = u64::MAX;

    /// Whether the ID may be given to a peer.
    pub open spec fn assignable(self) -> bool {
        Self::FIRST_PEER <= self.0 <= Self::LAST_PEER
    }

    /// Returns whether packets with this target go to everyone in the room.
    pub fn is_broadcast(self) -> (broadcast: bool)
        ensures
            broadcast == (self.0 == Self::BROADCAST),
    {
        self.0 == Self::BROADCAST
    }
}

/// The IPv4 socket address that a peer has connected from.
#[derive(Clone, Copy, Debug, PartialEq, Eq, Hash, Structural)]
pub struct Address {
    pub ip: u32,
    pub port: u16,
}

/// An error that the matchmaker answers a request with.
#[derive(Clone, Copy, Debug, PartialEq, Eq, Structural)]
pub enum Error {
    NoFreeRooms,
    NoFreePeerIDs,
    RoomDoesNotExist,
    NoSuchPeer,
}

/// A packet between the matchmaker and a peer.
#[derive(Debug, PartialEq, Eq)]
pub enum Packet {
    /// A request to open a room.
    Host,
    /// The answer to `Host`: the new room, and the ID of the peer that hosts it.
    RoomCreated(RoomId, PeerId),
    /// A request to enter a room.
    Join(RoomId),
    /// The answer to `Join`: the ID of the room's host.
    HostId(PeerId),
    /// A request to pass data on to a peer.
    Relay(PeerId, Vec<u8>),
    /// Data that a peer has sent.
    Relayed(PeerId, Vec<u8>),
    /// A peer has left.
    Disconnected(PeerId),
    /// A request was refused.
    Error(Error),
}

impl Key for PeerId {
    open spec fn spec_key(self) -> u64 {
        self.0
    }

    proof fn lemma_key_injective(a: Self, b: Self) {
    }

    fn key(&self) -> u64 {
        self.0
    }
}

impl Key for Address {
    open spec fn spec_key(self) -> u64 {
        (self.ip * 0x1_0000 + self.port) as u64
    }

    proof fn lemma_key_injective(a: Self, b: Self) {
    }

    fn key(&self) -> u64 {
        self.ip as u64 * 0x1_0000 + self.port as u64
    }
}

/// A number below 256 and a multiple of 256 are recovered from their sum.
proof fn lemma_low_byte(low_a: int, high_a: int, low_b: int, high_b: int)
    requires
        0 <= low_a < 0x100,
        0 <= low_b < 0x100,
        low_a + 0x100 * high_a == low_b + 0x100 * high_b,
    ensures
        low_a == low_b,
        high_a == high_b,
{
}

impl Key for RoomId {
    open spec fn spec_key(self) -> u64 {
        (self.0[0] + 0x100 * (self.0[1] + 0x100 * (self.0[2] + 0x100 * (self.0[3] + 0x100 * (
        self.0[4] + 0x100 * self.0[5]))))) as u64
    }

    proof fn lemma_key_injective(a: Self, b: Self) {
        let a4 = a.0[4] + 0x100 * a.0[5];
        let a3 = a.0[3] + 0x100 * a4;
        let a2 = a.0[2] + 0x100 * a3;
        let a1 = a.0[1] + 0x100 * a2;
        let b4 = b.0[4] + 0x100 * b.0[5];
        let b3 = b.0[3] + 0x100 * b4;
        let b2 = b.0[2] + 0x100 * b3;
        let b1 = b.0[1] + 0x100 * b2;
        lemma_low_byte(a.0[0] as int, a1, b.0[0] as int, b1);
        lemma_low_byte(a.0[1] as int, a2, b.0[1] as int, b2);
        lemma_low_byte(a.0[2] as int, a3, b.0[2] as int, b3);
        lemma_low_byte(a.0[3] as int, a4, b.0[3] as int, b4);
        lemma_low_byte(a.0[4] as int, a.0[5] as int, b.0[4] as int, b.0[5] as int);
        assert(a.0 =~= b.0);
    }

    fn key(&self) -> u64 {
        self.0[0] as u64 + 0x100 * (self.0[1] as u64 + 0x100 * (self.0[2] as u64 + 0x100 * (
        self.0[3] as u64 + 0x100 * (self.0[4] as u64 + 0x100 * self.0[5] as u64))))
    }
}

} // verus!
