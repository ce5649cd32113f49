//! What happens in every frame.

use vstd::prelude::*;

verus! {

/// A part of the work that is done in every frame.
#[derive(Clone, Copy, Debug, PartialEq, Eq, Structural)]
pub enum Stage {
    /// Let the actions do what they do in the background, such as saving.
    Actions,
    /// Exchange messages with the others.
    Communicate,
    /// Act upon the messages that have arrived.
    Messages,
    /// Ask for the chunks that are needed.
    ChunkRequests,
    /// Log the errors that were reported.
    Errors,
    /// Arrange the parts of the screen.
    Layout,
    /// Process the canvas.
    Canvas,
    /// Process the toolbar.
    Toolbar,
    /// Process the windows.
    Windows,
    /// Process the bottom bar.
    BottomBar,
    /// Process the overflow menu.
    OverflowMenu,
}

/// The work of a frame, in order.
pub open spec fn frame_work() -> Seq<Stage> {
    seq![
        Stage::Actions,
        Stage::Communicate,
        Stage::Messages,
        Stage::ChunkRequests,
        Stage::Errors,
        Stage::Layout,
        Stage::Canvas,
        Stage::Toolbar,
        Stage::Windows,
        Stage::BottomBar,
        Stage::OverflowMenu,
    ]
}

/// Returns the work of a frame, in order.
pub fn frame_stages() -> (stages: Vec<Stage>)
    ensures
        stages@ == frame_work(),
{
    vec![
        Stage::Actions,
        Stage::Communicate,
        Stage::Messages,
        Stage::ChunkRequests,
        Stage::Errors,
        Stage::Layout,
        Stage::Canvas,
        Stage::Toolbar,
        // Draw windows over the toolbar, but below the bottom bar.
        Stage::Windows,
        Stage::BottomBar,
        Stage::OverflowMenu,
    ]
}

/// A part of the work of processing the canvas.
#[derive(Clone, Copy, Debug, PartialEq, Eq, Structural)]
pub enum CanvasStage {
    /// Pan with the middle mouse button.
    Pan,
    /// Zoom with the mouse wheel.
    Zoom,
    /// Act upon key shortcuts.
    KeyShortcuts,
    /// Let the current tool act upon the input.
    ToolInput,
    /// Draw the canvas.
    DrawCanvas,
    /// Draw what the others are doing with their tools.
    DrawMates,
    /// Draw what the current tool shows on top of the canvas.
    DrawOverlays,
    /// Draw the tip.
    DrawTip,
    /// Draw the log.
    DrawLog,
    /// Do what is due on network ticks.
    Network,
}

/// The work of processing the canvas, in order.
pub open spec fn canvas_work() -> Seq<CanvasStage> {
    seq![
        CanvasStage::Pan,
        CanvasStage::Zoom,
        CanvasStage::KeyShortcuts,
        CanvasStage::ToolInput,
        CanvasStage::DrawCanvas,
        CanvasStage::DrawMates,
        CanvasStage::DrawOverlays,
        CanvasStage::DrawTip,
        CanvasStage::DrawLog,
        CanvasStage::Network,
    ]
}

/// Returns the work of processing the canvas, in order.
pub fn canvas_stages() -> (stages: Vec<CanvasStage>)
    ensures
        stages@ == canvas_work(),
{
    vec![
        // Input
        CanvasStage::Pan,
        CanvasStage::Zoom,
        CanvasStage::KeyShortcuts,
        CanvasStage::ToolInput,
        // Rendering
        CanvasStage::DrawCanvas,
        CanvasStage::DrawMates,
        CanvasStage::DrawOverlays,
        CanvasStage::DrawTip,
        CanvasStage::DrawLog,
        // Networking
        CanvasStage::Network,
    ]
}

} // verus!
