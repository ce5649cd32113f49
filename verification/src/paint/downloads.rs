//! Which chunks of the canvas have been downloaded.

use vstd::prelude::*;

use crate::table::{Key, Table};

verus! {

/// Where a chunk is on the canvas, counted in chunks.
pub type ChunkPosition = (i32, i32);

impl Key for ChunkPosition {
    open spec fn spec_key(self) -> u64 {
        ((self.0 + 0x8000_0000) * 0x1_0000_0000 + (self.1 + 0x8000_0000)) as u64
    }

    proof fn lemma_key_injective(a: Self, b: Self) {
    }

    fn key(&self) -> u64 {
        let high: u64 = (self.0 as i64 + 0x8000_0000) as u64;
        let low: u64 = (self.1 as i64 + 0x8000_0000) as u64;
        high * 0x1_0000_0000 + low
    }
}

/// The state of a chunk download.
#[derive(Clone, Copy, Debug, PartialEq, Eq, Structural)]
pub enum ChunkDownload {
    NotDownloaded,
    Queued,
    Requested,
    Downloaded,
}

/// Whether the chunk exists and nothing has been done about downloading it.
pub open spec fn wanted(
    downloads: Map<ChunkPosition, ChunkDownload>,
    position: ChunkPosition,
) -> bool {
    downloads.contains_key(position) && downloads[position] == ChunkDownload::NotDownloaded
}

/// The downloads of the chunks at the given positions have reached a state.
pub open spec fn marked(
    downloads: Map<ChunkPosition, ChunkDownload>,
    positions: Seq<ChunkPosition>,
    state: ChunkDownload,
) -> Map<ChunkPosition, ChunkDownload> {
    Map::new(
        |position: ChunkPosition|
            downloads.contains_key(position) || positions.contains(position),
        |position: ChunkPosition|
            if positions.contains(position) {
                state
            } else {
                downloads[position]
            },
    )
}

/// The visible chunks that are to be downloaded, each of them once.
pub open spec fn to_queue(
    downloads: Map<ChunkPosition, ChunkDownload>,
    visible: Seq<ChunkPosition>,
) -> Seq<ChunkPosition>
    decreases visible.len(),
{
    if visible.len() == 0 {
        Seq::empty()
    } else {
        let earlier = to_queue(downloads, visible.drop_last());
        if wanted(downloads, visible.last()) && !earlier.contains(visible.last()) {
            earlier.push(visible.last())
        } else {
            earlier
        }
    }
}

/// A chunk is marked along with those before it.
proof fn lemma_marked_push(
    downloads: Map<ChunkPosition, ChunkDownload>,
    positions: Seq<ChunkPosition>,
    position: ChunkPosition,
    state: ChunkDownload,
)
    ensures
        marked(downloads, positions.push(position), state) == marked(
            downloads,
            positions,
            state,
        ).insert(position, state),
{
    let all = positions.push(position);
    assert forall|p: ChunkPosition| #[trigger]
        all.contains(p) <==> positions.contains(p) || p == position by {
        if positions.contains(p) {
            let i = choose|i: int| 0 <= i < positions.len() && positions[i] == p;
            assert(all[i] == p);
        }
        if p == position {
            assert(all[positions.len() as int] == p);
        }
    }
    assert(marked(downloads, all, state) =~= marked(downloads, positions, state).insert(
        position,
        state,
    ));
}

/// The state of each chunk download.
pub struct Downloads {
    states: Table<ChunkPosition, ChunkDownload>,
}

impl View for Downloads {
    type V = Map<ChunkPosition, ChunkDownload>;

    closed spec fn view(&self) -> Map<ChunkPosition, ChunkDownload> {
        self.states@
    }
}

impl Downloads {
    /// Creates the state in which no chunks are known.
    pub fn new() -> (downloads: Self)
        ensures
            downloads@ == Map::<ChunkPosition, ChunkDownload>::empty(),
    {
        Downloads { states: Table::new() }
    }

    /// Returns the state of a chunk download.
    pub fn get(&self, position: ChunkPosition) -> (state: Option<ChunkDownload>)
        ensures
            state == (if self@.contains_key(position) {
                Some(self@[position])
            } else {
                None
            }),
    {
        match self.states.get(position) {
            Some(state) => Some(*state),
            None => None,
        }
    }

    /// Notes the state that the downloads of the given chunks have reached.
    pub fn mark(&mut self, positions: &Vec<ChunkPosition>, state: ChunkDownload)
        ensures
            final(self)@ == marked(old(self)@, positions@, state),
    {
        let mut index: usize = 0;
        assert(self@ =~= marked(old(self)@, positions@.take(0), state));
        while index < positions.len()
            invariant
                index <= positions.len(),
                self@ == marked(old(self)@, positions@.take(index as int), state),
            decreases positions.len() - index,
        {
            self.states.insert(positions[index], state);
            proof {
                lemma_marked_push(
                    old(self)@,
                    positions@.take(index as int),
                    positions@[index as int],
                    state,
                );
                assert(positions@.take(index as int).push(positions@[index as int])
                    =~= positions@.take(index as int + 1));
            }
            index += 1;
        }
        assert(positions@.take(positions@.len() as int) =~= positions@);
    }

    /// Puts the visible chunks in the download queue that nothing was done about yet, and returns
    /// them.
    pub fn queue(&mut self, visible: &Vec<ChunkPosition>) -> (queued: Vec<ChunkPosition>)
        ensures
            queued@ == to_queue(old(self)@, visible@),
            final(self)@ == marked(old(self)@, queued@, ChunkDownload::Queued),
    {
        let mut queued: Vec<ChunkPosition> = Vec::new();
        let mut index: usize = 0;
        assert(self@ =~= marked(old(self)@, queued@, ChunkDownload::Queued));
        while index < visible.len()
            invariant
                index <= visible.len(),
                queued@ == to_queue(old(self)@, visible@.take(index as int)),
                self@ == marked(old(self)@, queued@, ChunkDownload::Queued),
            decreases visible.len() - index,
        {
            let position = visible[index];
            proof {
                assert(visible@.take(index as int + 1).drop_last() =~= visible@.take(index as int));
                assert(visible@.take(index as int + 1).last() == position);
                lemma_marked_push(old(self)@, queued@, position, ChunkDownload::Queued);
            }
            if let Some(state) = self.get(position) {
                if state == ChunkDownload::NotDownloaded {
                    self.states.insert(position, ChunkDownload::Queued);
                    queued.push(position);
                }
            }
            index += 1;
        }
        assert(visible@.take(visible@.len() as int) =~= visible@);
        queued
    }
}

} // verus!
