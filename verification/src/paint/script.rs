//! Work that the paint state cannot do by itself, and that is left to its surroundings.

use vstd::prelude::*;

use crate::paint::downloads::ChunkPosition;
use crate::paint::toolbar::ToolId;
use crate::protocol::PeerId;

verus! {

/// A piece of work.
#[derive(Debug, PartialEq, Eq)]
pub enum Command {
    /// Tell the tool that it is not in use anymore.
    DeactivateTool(ToolId),
    /// Tell the tool that it is in use.
    ActivateTool(ToolId),
    /// Send everyone the name of the tool that is in use.
    SendSelectTool(ToolId),
    /// Send the peer the positions of all chunks of the canvas.
    SendChunkPositions(PeerId),
    /// Tell the tool that a peer has joined.
    NetworkPeerJoin(ToolId, PeerId),
    /// Tell the tool that a peer uses it.
    NetworkPeerActivate(ToolId, PeerId),
    /// Tell the tool that a peer does not use it anymore.
    NetworkPeerDeactivate(ToolId, PeerId),
    /// Hand the tool the data that a peer has sent for it.
    NetworkReceive(ToolId, PeerId, Vec<u8>),
    /// Let the tool send what it has to say to the others.
    NetworkSend(ToolId),
    /// Decode image data to a chunk of the canvas.
    DecodeChunk(ChunkPosition, Vec<u8>),
    /// Send the peer the chunks at the given positions.
    SendChunks(PeerId, Vec<ChunkPosition>),
    /// Ask the host for the chunks at the given positions.
    DownloadChunks(Vec<ChunkPosition>),
    /// Save the canvas to a file.
    SaveCanvas(String),
    /// Open or close the overflow menu.
    ToggleOverflowMenu,
    /// Copy text to the clipboard.
    CopyToClipboard(String),
    /// Perform one of the actions of the overflow menu.
    PerformAction(usize),
}

/// What to do when a piece of work fails.
#[derive(Clone, Copy, Debug, PartialEq, Eq, Structural)]
pub enum OnError {
    /// Do nothing of what comes after it, and hand the error on.
    Stop,
    /// Report the error, and go on.
    Report,
}

/// A piece of work, and what to do when it fails.
#[derive(Debug, PartialEq, Eq)]
pub struct Step {
    pub command: Command,
    pub on_error: OnError,
}

/// The work that is left after a piece of work has failed, out of the work that comes after it.
pub open spec fn after_failure(rest: Seq<Step>, on_error: OnError) -> Seq<Step> {
    match on_error {
        OnError::Stop => Seq::empty(),
        OnError::Report => rest,
    }
}

/// The pieces of work that get done, given which of them succeed when they are done.
pub open spec fn performed(steps: Seq<Step>, succeeds: Seq<bool>) -> Seq<Step>
    decreases steps.len(),
{
    if steps.len() == 0 {
        Seq::empty()
    } else if !succeeds[0] && steps[0].on_error == OnError::Stop {
        seq![steps[0]]
    } else {
        seq![steps[0]] + performed(steps.drop_first(), succeeds.drop_first())
    }
}

/// Work to be done one piece after the other.
pub struct Script {
    steps: Vec<Step>,
}

impl View for Script {
    type V = Seq<Step>;

    closed spec fn view(&self) -> Seq<Step> {
        self.steps@
    }
}

impl Script {
    /// Creates a script without work.
    pub fn new() -> (script: Self)
        ensures
            script@ == Seq::<Step>::empty(),
    {
        Script { steps: Vec::new() }
    }

    /// Adds a piece of work that goes last.
    pub fn push(&mut self, command: Command, on_error: OnError)
        ensures
            final(self)@ == old(self)@.push(Step { command, on_error }),
    {
        self.steps.push(Step { command, on_error });
    }

    /// Takes out the piece of work that goes first.
    pub fn next(&mut self) -> (step: Option<Step>)
        ensures
            match step {
                Some(step) => old(self)@.len() > 0 && step == old(self)@[0] && final(self)@
                    == old(self)@.drop_first(),
                None => old(self)@.len() == 0 && final(self)@ == old(self)@,
            },
    {
        if self.steps.len() > 0 {
            let step = self.steps.remove(0);
            assert(self@ =~= old(self)@.drop_first());
            Some(step)
        } else {
            None
        }
    }

    /// Takes note that the piece of work that was taken out last has failed. Returns whether the
    /// error is reported and the script goes on. Otherwise there is no more work.
    pub fn failed(&mut self, on_error: OnError) -> (goes_on: bool)
        ensures
            goes_on == (on_error == OnError::Report),
            final(self)@ == after_failure(old(self)@, on_error),
    {
        match on_error {
            OnError::Stop => {
                self.steps.clear();
                false
            },
            OnError::Report => true,
        }
    }
}

} // verus!
