//! What is heard from the others in the room.

use vstd::prelude::*;

use crate::paint::chunks::Chunk;
use crate::paint::downloads::ChunkPosition;
use crate::protocol::PeerId;

verus! {

/// A message from the network.
#[derive(Debug, PartialEq, Eq)]
pub struct Message {
    /// Tells who the message is meant for.
    pub token: u64,
    pub kind: MessageKind,
}

/// What a message is about.
#[derive(Debug, PartialEq, Eq)]
pub enum MessageKind {
    /// A peer of the given nickname has joined.
    Joined(String, PeerId),
    /// A peer has left.
    Left { peer_id: PeerId, nickname: String, last_tool: Option<String> },
    /// The peer of the given nickname is the host now.
    NewHost(String),
    /// We are the host now.
    NowHosting,
    /// There are chunks at these positions.
    ChunkPositions(Vec<ChunkPosition>),
    /// The image data of chunks.
    Chunks(Vec<Chunk>),
    /// A peer asks for chunks.
    GetChunks(PeerId, Vec<ChunkPosition>),
    /// A peer has sent data for the tool of the given name.
    Tool(PeerId, String, Vec<u8>),
    /// A peer has switched to another tool.
    SelectTool { peer_id: PeerId, previous_tool: Option<String>, tool: String },
}

impl Message {
    /// Returns whether the message is meant for the owner of the token.
    pub fn is_for(&self, token: u64) -> (meant: bool)
        ensures
            meant == (self.token == token),
    {
        self.token == token
    }
}

/// Returns which of the messages are meant for the owner of the token, by their numbers, in order.
pub fn handled(messages: &Vec<&Message>, token: u64) -> (indices: Vec<usize>)
    ensures
        forall|i: int, j: int| 0 <= i < j < indices@.len() ==> indices@[i] < indices@[j],
        forall|index: usize| #[trigger]
            indices@.contains(index) <==> index < messages@.len() && messages@[index as int].token
                == token,
{
    let mut indices: Vec<usize> = Vec::new();
    let mut next: usize = 0;
    while next < messages.len()
        invariant
            next <= messages.len(),
            forall|i: int| 0 <= i < indices@.len() ==> indices@[i] < next,
            forall|i: int, j: int| 0 <= i < j < indices@.len() ==> indices@[i] < indices@[j],
            forall|index: usize| #[trigger]
                indices@.contains(index) <==> index < next && messages@[index as int].token
                    == token,
        decreases messages.len() - next,
    {
        let ghost earlier = indices@;
        if messages[next].is_for(token) {
            indices.push(next);
            assert forall|index: usize| #[trigger]
                indices@.contains(index) <==> earlier.contains(index) || index == next by {
                if earlier.contains(index) {
                    let i = choose|i: int| 0 <= i < earlier.len() && earlier[i] == index;
                    assert(indices@[i] == index);
                }
                if index == next {
                    assert(indices@[earlier.len() as int] == index);
                }
            }
        }
        next += 1;
    }
    indices
}

} // verus!
