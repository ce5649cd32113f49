//! How packets arrive on a connection, and what becomes of the ones that leave.

use vstd::prelude::*;

verus! {

/// The number of bytes that announce how long a packet is.
pub const LENGTH_BYTES: usize = 4;

/// The number that four bytes stand for, the most significant byte first.
pub open spec fn big_endian(bytes: Seq<u8>) -> int {
    ((bytes[0] * 0x100 + bytes[1]) * 0x100 + bytes[2]) * 0x100 + bytes[3]
}

/// What a connection waits for. Every packet is preceded by its length.
#[derive(Clone, Copy, Debug, PartialEq, Eq, Structural)]
pub enum Reader {
    /// The length of the next packet.
    Length,
    /// A packet of the given length.
    Body(usize),
}

/// What the bytes that arrived on a connection amount to.
#[derive(Debug, PartialEq, Eq)]
pub enum Received {
    /// The packet is yet to follow.
    Announcement,
    /// An encoded packet.
    Encoded(Vec<u8>),
}

impl Reader {
    /// The number of bytes that have to arrive before the connection can go on.
    pub open spec fn wanted(self) -> nat {
        match self {
            Reader::Length => LENGTH_BYTES as nat,
            Reader::Body(length) => length as nat,
        }
    }

    /// What is waited for once the bytes that were waited for have arrived.
    pub open spec fn next(self, bytes: Seq<u8>) -> Self {
        match self {
            Reader::Length => Reader::Body(big_endian(bytes) as usize),
            Reader::Body(_) => Reader::Length,
        }
    }

    /// Returns the number of bytes that have to arrive before the connection can go on.
    pub fn bytes_wanted(self) -> (bytes: usize)
        ensures
            bytes == self.wanted(),
    {
        match self {
            Reader::Length => LENGTH_BYTES,
            Reader::Body(length) => length,
        }
    }

    /// Takes the bytes that were waited for, and decides what to wait for next.
    pub fn receive(&mut self, bytes: Vec<u8>) -> (received: Received)
        requires
            bytes@.len() == old(self).wanted(),
        ensures
            *final(self) == old(self).next(bytes@),
            match *old(self) {
                Reader::Length => received is Announcement && *final(self) == Reader::Body(
                    big_endian(bytes@) as usize,
                ) && final(self).wanted() == big_endian(bytes@),
                Reader::Body(_) => received == Received::Encoded(bytes) && *final(self)
                    == Reader::Length,
            },
    {
        match *self {
            Reader::Length => {
                let length: u32 = ((bytes[0] as u32 * 0x100 + bytes[1] as u32) * 0x100
                    + bytes[2] as u32) * 0x100 + bytes[3] as u32;
                *self = Reader::Body(length as usize);
                Received::Announcement
            },
            Reader::Body(_) => {
                *self = Reader::Length;
                Received::Encoded(bytes)
            },
        }
    }
}

/// Returns the outcome of sending a packet to several peers, given the outcome for each of them.
/// It is the last failure, where there was any.
pub fn broadcast_outcome<E>(outcomes: Vec<Result<(), E>>) -> (outcome: Result<(), E>)
    ensures
        match outcome {
            Ok(()) => forall|i: int| 0 <= i < outcomes@.len() ==> outcomes@[i] is Ok,
            Err(error) => exists|i: int|
                0 <= i < outcomes@.len() && #[trigger] outcomes@[i] == Err::<(), E>(error) && (
                forall|j: int| i < j < outcomes@.len() ==> outcomes@[j] is Ok),
        },
{
    let mut earlier = outcomes;
    while earlier.len() > 0
        invariant
            earlier@.len() <= outcomes@.len(),
            earlier@ == outcomes@.take(earlier@.len() as int),
            forall|j: int| earlier@.len() <= j < outcomes@.len() ==> outcomes@[j] is Ok,
        decreases earlier@.len(),
    {
        if let Some(Err(error)) = earlier.pop() {
            assert(outcomes@[earlier@.len() as int] == Err::<(), E>(error));
            return Err(error);
        }
    }
    Ok(())
}

} // verus!
