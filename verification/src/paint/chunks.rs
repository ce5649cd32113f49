//! How chunks of the canvas are sent to a peer that asks for them.

use vstd::prelude::*;

use crate::paint::downloads::ChunkPosition;

verus! {

/// The amount of image data above which a packet takes no more chunks.
pub const MAX_BYTES_PER_PACKET: usize = 131072;

/// A chunk, and its image data.
pub type Chunk = (ChunkPosition, Vec<u8>);

/// The amount of image data in a packet.
pub open spec fn image_bytes(packet: Seq<Chunk>) -> nat
    decreases packet.len(),
{
    if packet.len() == 0 {
        0
    } else {
        image_bytes(packet.drop_last()) + packet.last().1@.len()
    }
}

/// The chunks that there is image data for.
pub open spec fn available(
    positions: Seq<ChunkPosition>,
    images: Seq<Option<Vec<u8>>>,
) -> Seq<Chunk>
    decreases positions.len(),
{
    if positions.len() == 0 {
        Seq::empty()
    } else {
        let rest = available(positions.drop_first(), images.drop_first());
        match images[0] {
            Some(image) => seq![(positions[0], image)] + rest,
            None => rest,
        }
    }
}

/// All chunks of several packets, one after the other.
pub open spec fn contents(packets: Seq<Seq<Chunk>>) -> Seq<Chunk>
    decreases packets.len(),
{
    if packets.len() == 0 {
        Seq::empty()
    } else {
        packets[0] + contents(packets.drop_first())
    }
}

/// How far the chunks that a peer asked for have been sent.
#[verifier::ext_equal]
pub struct SenderModel {
    /// The positions whose image data was not looked up yet.
    pub pending: Seq<ChunkPosition>,
    /// The packet that is being filled.
    pub packet: Seq<Chunk>,
    /// Whether the last packet has been sent.
    pub finished: bool,
}

impl SenderModel {
    /// Nothing has been sent.
    pub open spec fn start(positions: Seq<ChunkPosition>) -> Self {
        SenderModel { pending: positions, packet: Seq::empty(), finished: false }
    }

    /// Whether the packet takes no more chunks.
    pub open spec fn full(self) -> bool {
        image_bytes(self.packet) > MAX_BYTES_PER_PACKET
    }

    /// Whether the packet has to be sent before anything else.
    pub open spec fn due(self) -> bool {
        !self.finished && (self.pending.len() == 0 || self.full())
    }

    /// The packet is sent.
    pub open spec fn sent(self) -> Self {
        SenderModel {
            packet: Seq::empty(),
            finished: self.pending.len() == 0,
            ..self
        }
    }

    /// The image data of the next chunk is looked up. There may be none.
    pub open spec fn fetched(self, image: Option<Vec<u8>>) -> Self {
        SenderModel {
            pending: self.pending.drop_first(),
            packet: match image {
                Some(image) => self.packet.push((self.pending[0], image)),
                None => self.packet,
            },
            ..self
        }
    }

    /// The packets that are going to be sent, given the image data of the pending chunks.
    pub open spec fn packets(self, images: Seq<Option<Vec<u8>>>) -> Seq<Seq<Chunk>>
        decreases self.pending.len(),
    {
        if self.finished {
            Seq::empty()
        } else if self.pending.len() == 0 {
            seq![self.packet]
        } else if self.full() {
            seq![self.packet] + self.sent().fetched(images[0]).packets(images.drop_first())
        } else {
            self.fetched(images[0]).packets(images.drop_first())
        }
    }
}

/// What there is to do next about chunks that a peer asked for.
#[derive(Debug, PartialEq, Eq)]
pub enum SendStep {
    /// Send a packet to the peer.
    Send(Vec<Chunk>),
    /// Look up the image data of a chunk.
    Fetch(ChunkPosition),
    /// Nothing: everything has been sent.
    Done,
}

/// Sends the chunks that a peer asked for.
pub struct ChunkSender {
    positions: Vec<ChunkPosition>,
    next: usize,
    packet: Vec<Chunk>,
    bytes_of_image_data: usize,
    finished: bool,
}

impl View for ChunkSender {
    type V = SenderModel;

    closed spec fn view(&self) -> SenderModel {
        SenderModel {
            pending: self.positions@.skip(self.next as int),
            packet: self.packet@,
            finished: self.finished,
        }
    }
}

impl ChunkSender {
    /// Whether the counters agree with the packet. The byte counter stops at its highest value.
    pub closed spec fn wf(self) -> bool {
        &&& self.next <= self.positions@.len()
        &&& self.bytes_of_image_data == if image_bytes(self.packet@) <= usize::MAX {
            image_bytes(self.packet@) as int
        } else {
            usize::MAX as int
        }
    }

    /// Starts sending the chunks at the given positions.
    pub fn new(positions: Vec<ChunkPosition>) -> (sender: Self)
        ensures
            sender.wf(),
            sender@ == SenderModel::start(positions@),
    {
        let sender = ChunkSender {
            positions,
            next: 0,
            packet: Vec::new(),
            bytes_of_image_data: 0,
            finished: false,
        };
        assert(sender@ =~= SenderModel::start(positions@));
        sender
    }

    /// Decides what to do next.
    pub fn step(&mut self) -> (step: SendStep)
        requires
            old(self).wf(),
        ensures
            final(self).wf(),
            match step {
                SendStep::Send(packet) => {
                    &&& old(self)@.due()
                    &&& packet@ == old(self)@.packet
                    &&& final(self)@ == old(self)@.sent()
                },
                SendStep::Fetch(position) => {
                    &&& !old(self)@.due()
                    &&& !old(self)@.finished
                    &&& old(self)@.pending.len() > 0
                    &&& position == old(self)@.pending[0]
                    &&& final(self)@ == old(self)@
                },
                SendStep::Done => old(self)@.finished && final(self)@ == old(self)@,
            },
    {
        if self.finished {
            return SendStep::Done;
        }
        let last = self.next >= self.positions.len();
        if last || self.bytes_of_image_data > MAX_BYTES_PER_PACKET {
            let mut packet: Vec<Chunk> = Vec::new();
            std::mem::swap(&mut packet, &mut self.packet);
            self.bytes_of_image_data = 0;
            self.finished = last;
            assert(self@ =~= old(self)@.sent());
            SendStep::Send(packet)
        } else {
            SendStep::Fetch(self.positions[self.next])
        }
    }

    /// Takes the image data of the chunk that had to be looked up.
    pub fn fetched(&mut self, image: Option<Vec<u8>>)
        requires
            old(self).wf(),
            !old(self)@.finished,
            !old(self)@.due(),
        ensures
            final(self).wf(),
            final(self)@ == old(self)@.fetched(image),
    {
        assert(self.next < self.positions.len());
        let position = self.positions[self.next];
        if let Some(image) = image {
            self.bytes_of_image_data = self.bytes_of_image_data.saturating_add(image.len());
            self.packet.push((position, image));
            assert(self.packet@.drop_last() =~= old(self).packet@);
        }
        self.next = self.next + 1;
        assert(self@ =~= old(self)@.fetched(image));
    }
}

} // verus!
