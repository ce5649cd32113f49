//! The state of the paint screen, and what changes it.

use vstd::prelude::*;
use vstd::string::StringExecFns;

use crate::paint::bus::Requests;
use crate::paint::chunks::Chunk;
use crate::paint::downloads::{marked, to_queue, ChunkDownload, ChunkPosition, Downloads};
use crate::paint::log::{line_position, shown, EntryModel, LinePosition, Log, Tip, TipModel};
use crate::paint::message::MessageKind;
use crate::paint::script::{Command, OnError, Script, Step};
use crate::paint::toolbar::{ToolId, Toolbar, ToolbarModel};
use crate::paint::ui::{
    area_size, menu_height, overflow_menu_height, Area, Button, Caption, Dimension, Texts,
    TextsModel, BOTTOM_BAR_SIZE, OVERFLOW_MENU_WIDTH,
};
use crate::protocol::PeerId;

verus! {

/// How long the tip is visible after the canvas was panned.
pub const PAN_TIP_DURATION: u64 = 100_000_000;

/// How long the tip is visible after the canvas was zoomed.
pub const ZOOM_TIP_DURATION: u64 = 3_000_000_000;

/// What has happened to a mouse button.
#[derive(Clone, Copy, Debug, PartialEq, Eq, Structural)]
pub enum ButtonState {
    Pressed,
    Released,
    /// Nothing has.
    Unchanged,
}

/// The screen that is shown next.
#[derive(Clone, Copy, Debug, PartialEq, Eq, Structural)]
pub enum NextState {
    Paint,
    Lobby,
}

/// What is left to do on a network tick, and the chunks that were put in the download queue.
pub struct NetworkUpdate {
    pub script: Script,
    pub queued: Vec<ChunkPosition>,
}

/// Something that changes the paint state.
pub enum Event {
    /// The tools of these names are registered.
    ToolsRegistered(Seq<char>, Seq<char>),
    /// An action of this name is registered.
    ActionRegistered(Seq<char>),
    /// A tool is put to use.
    ToolUsed(ToolId),
    /// The canvas is to be saved to a file.
    SaveRequested(Seq<char>),
    /// The canvas is saved.
    Saved(u64),
    /// A tip is shown for a duration.
    TipShown(Seq<char>, u64, u64),
    /// Text is logged.
    Logged(Seq<char>, u64),
    /// The messages that are not shown anymore are dropped.
    LogProcessed(u64),
    /// The mouse pans the canvas, or does not.
    PanningChanged(bool),
    /// The downloads of chunks have reached a state.
    ChunksMarked(Seq<ChunkPosition>, ChunkDownload),
    /// A message has arrived from the network.
    MessageArrived(MessageKind, u64),
    /// An error has occurred that painting cannot go on after.
    FatalErrorReported,
}

/// What the paint state consists of.
#[verifier::ext_equal]
pub struct StateModel {
    /// The tools, and the one that is in use.
    pub toolbar: ToolbarModel,
    /// The names of the actions in the overflow menu.
    pub actions: Seq<Seq<char>>,
    /// The height of the overflow menu.
    pub menu_height: int,
    /// The file that the canvas is to be saved to, if any.
    pub save_to_file: Option<Seq<char>>,
    /// When the canvas was last saved.
    pub last_autosave: u64,
    /// The state of each chunk download.
    pub downloads: Map<ChunkPosition, ChunkDownload>,
    /// Whether the screen has to be left.
    pub fatal_error: bool,
    /// The messages in the lower left corner.
    pub log: Seq<EntryModel>,
    /// The tip in the upper left corner.
    pub tip: TipModel,
    /// Whether the mouse pans the canvas.
    pub panning: bool,
}

impl StateModel {
    /// Whether the current tool is one of the tools.
    pub open spec fn wf(self) -> bool {
        self.toolbar.has(self.toolbar.current)
    }

    /// The state before tools and actions are registered.
    pub open spec fn blank(now: u64) -> Self {
        StateModel {
            toolbar: ToolbarModel { names: Seq::empty(), current: ToolId(0) },
            actions: Seq::empty(),
            menu_height: 0,
            save_to_file: None,
            last_autosave: now,
            downloads: Map::empty(),
            fatal_error: false,
            log: Seq::empty(),
            tip: TipModel { text: Seq::empty(), created: now, visible_duration: 0 },
            panning: false,
        }
    }

    /// The tools are registered, and the brush is in use.
    pub open spec fn with_tools(self, selection: Seq<char>, brush: Seq<char>) -> Self {
        StateModel {
            toolbar: ToolbarModel {
                names: self.toolbar.names.push(selection).push(brush),
                current: ToolId((self.toolbar.names.len() + 1) as usize),
            },
            ..self
        }
    }

    /// An action is registered.
    pub open spec fn with_action(self, action: Seq<char>) -> Self {
        StateModel {
            actions: self.actions.push(action),
            menu_height: menu_height(self.actions.len() as int + 1),
            ..self
        }
    }

    /// A message is logged.
    pub open spec fn logged(self, text: Seq<char>, now: u64) -> Self {
        StateModel { log: self.log.push(EntryModel { text, created: now }), ..self }
    }

    /// The host of a new room is welcomed.
    pub open spec fn welcomed(self, is_host: bool, now: u64) -> Self {
        if is_host {
            self.logged("Welcome to your room!"@, now).logged(
                "To invite friends, send them the room ID shown in the bottom right corner of your screen."@,
                now,
            )
        } else {
            self
        }
    }

    /// The state that painting starts from.
    pub open spec fn initial(
        selection: Seq<char>,
        brush: Seq<char>,
        save_action: Seq<char>,
        is_host: bool,
        now: u64,
    ) -> Self {
        Self::blank(now).with_tools(selection, brush).with_action(save_action).welcomed(
            is_host,
            now,
        )
    }

    /// A tip is shown.
    pub open spec fn tipped(self, text: Seq<char>, duration: u64, now: u64) -> Self {
        StateModel {
            tip: TipModel { text, created: now, visible_duration: duration },
            ..self
        }
    }

    /// A tool is put to use.
    pub open spec fn using(self, tool: ToolId) -> Self {
        StateModel { toolbar: ToolbarModel { current: tool, ..self.toolbar }, ..self }
    }

    /// The downloads of chunks have reached a state.
    pub open spec fn marked(self, positions: Seq<ChunkPosition>, state: ChunkDownload) -> Self {
        StateModel { downloads: marked(self.downloads, positions, state), ..self }
    }

    /// The canvas is to be saved to a file.
    pub open spec fn saving_to(self, path: Seq<char>) -> Self {
        StateModel { save_to_file: Some(path), ..self }
    }

    /// The canvas is saved.
    pub open spec fn saved(self, now: u64) -> Self {
        StateModel { save_to_file: None, last_autosave: now, ..self }
    }

    /// The messages that are not shown anymore are dropped.
    pub open spec fn log_processed(self, now: u64) -> Self {
        StateModel { log: self.log.filter(shown(now)), ..self }
    }

    /// The mouse pans the canvas, or does not.
    pub open spec fn with_panning(self, panning: bool) -> Self {
        StateModel { panning, ..self }
    }

    /// An error occurs that painting cannot go on after.
    pub open spec fn doomed(self) -> Self {
        StateModel { fatal_error: true, ..self }
    }

    /// The screen that is shown next.
    pub open spec fn next_state(self) -> NextState {
        if self.fatal_error {
            NextState::Lobby
        } else {
            NextState::Paint
        }
    }

    /// Whether `command` and `after` are what a click on a button leads to, given the texts that are
    /// shown along with it.
    pub open spec fn click_result(
        self,
        button: Button,
        texts: TextsModel,
        now: u64,
        command: Command,
        after: Self,
    ) -> bool {
        match button {
            Button::Menu => command == Command::ToggleOverflowMenu && after == self,
            Button::CopyRoomId => {
                &&& command is CopyToClipboard
                &&& command->CopyToClipboard_0@ == Caption::RoomId.says(texts)
                &&& after == self.logged("Room ID copied to clipboard"@, now)
            },
            Button::Action(action) => command == Command::PerformAction(action) && after == self,
        }
    }

    /// Whether `script`, `queued`, `requests_after` and `after` are what a network tick leads to.
    pub open spec fn tick_result(
        self,
        requests: Seq<ChunkPosition>,
        visible: Seq<ChunkPosition>,
        now: u64,
        script: Seq<Step>,
        queued: Seq<ChunkPosition>,
        requests_after: Seq<ChunkPosition>,
        after: Self,
    ) -> bool {
        match self.save_to_file {
            Some(path) => {
                &&& script.len() == 2
                &&& script[0] == report(Command::NetworkSend(self.toolbar.current))
                &&& script[1].on_error == OnError::Report
                &&& script[1].command is SaveCanvas
                &&& script[1].command->SaveCanvas_0@ == path
                &&& queued == Seq::<ChunkPosition>::empty()
                &&& requests_after == requests
                &&& after == self.saved(now)
            },
            None => {
                &&& script == seq![report(Command::NetworkSend(self.toolbar.current))]
                &&& queued == to_queue(self.downloads, visible)
                &&& requests_after == requests + queued
                &&& after == self.marked(queued, ChunkDownload::Queued)
            },
        }
    }

    /// Whether `script` and `after` are what acting upon requests leads to.
    pub open spec fn request_result(
        self,
        requests: Seq<ChunkPosition>,
        script: Seq<Step>,
        after: Self,
    ) -> bool {
        &&& after == self.marked(requests, ChunkDownload::Requested)
        &&& if requests.len() > 0 {
            &&& script.len() == 1
            &&& script[0].on_error == OnError::Report
            &&& script[0].command is DownloadChunks
            &&& script[0].command->DownloadChunks_0@ == requests
        } else {
            script == Seq::<Step>::empty()
        }
    }

    /// An action was performed.
    pub open spec fn after_action(self, outcome: Result<(), String>, now: u64) -> Self {
        match outcome {
            Ok(()) => self,
            Err(error) => self.logged("error while performing action: "@ + error@, now),
        }
    }

    /// An action did what it does in the background.
    pub open spec fn after_background_action(
        self,
        outcome: Result<(), String>,
        now: u64,
    ) -> Self {
        match outcome {
            Ok(()) => self,
            Err(error) => self.logged("error while processing action: "@ + error@, now),
        }
    }

    /// An error was reported.
    pub open spec fn after_error(self, error: Seq<char>, now: u64) -> Self {
        self.logged("error: "@ + error, now)
    }

    /// The state that an event leads to.
    pub open spec fn after(self, event: Event) -> Self {
        match event {
            Event::ToolsRegistered(selection, brush) => self.with_tools(selection, brush),
            Event::ActionRegistered(action) => self.with_action(action),
            Event::ToolUsed(tool) => self.using(tool),
            Event::SaveRequested(path) => self.saving_to(path),
            Event::Saved(now) => self.saved(now),
            Event::TipShown(text, duration, now) => self.tipped(text, duration, now),
            Event::Logged(text, now) => self.logged(text, now),
            Event::LogProcessed(now) => self.log_processed(now),
            Event::PanningChanged(panning) => self.with_panning(panning),
            Event::ChunksMarked(positions, state) => self.marked(positions, state),
            Event::MessageArrived(kind, now) => self.after_message(kind, now),
            Event::FatalErrorReported => self.doomed(),
        }
    }

    /// The state that events lead to, one after the other.
    pub open spec fn after_all(self, events: Seq<Event>) -> Self
        decreases events.len(),
    {
        if events.len() == 0 {
            self
        } else {
            self.after_all(events.drop_last()).after(events.last())
        }
    }

    /// The work that switching to a tool takes.
    pub open spec fn switch_steps(self, tool: ToolId) -> Seq<Step> {
        if tool == self.toolbar.current {
            Seq::empty()
        } else {
            seq![
                report(Command::DeactivateTool(self.toolbar.current)),
                report(Command::SendSelectTool(tool)),
                report(Command::ActivateTool(tool)),
            ]
        }
    }

    /// The state that a message leads to.
    pub open spec fn after_message(self, kind: MessageKind, now: u64) -> Self {
        match kind {
            MessageKind::Joined(nickname, _) => self.logged(
                nickname@ + " joined the room"@,
                now,
            ),
            MessageKind::Left { nickname, .. } => self.logged(nickname@ + " has left"@, now),
            MessageKind::NewHost(name) => self.logged(name@ + " is now hosting the room"@, now),
            MessageKind::NowHosting => self.logged("You are now hosting the room"@, now),
            MessageKind::ChunkPositions(positions) => self.marked(
                positions@,
                ChunkDownload::NotDownloaded,
            ),
            MessageKind::Chunks(chunks) => self.marked(
                chunk_positions(chunks@),
                ChunkDownload::Downloaded,
            ),
            _ => self,
        }
    }

    /// The work of telling a tool that a peer does not use it anymore. There is none unless the
    /// peer has used a tool, and the tool is known.
    pub open spec fn deactivation_steps(self, tool: Option<String>, peer_id: PeerId) -> Seq<Step> {
        match tool {
            Some(name) => match self.toolbar.tool_by_name(name@) {
                Some(tool) => seq![stop(Command::NetworkPeerDeactivate(tool, peer_id))],
                None => Seq::empty(),
            },
            None => Seq::empty(),
        }
    }

    /// The work that a message takes.
    pub open spec fn message_steps(self, kind: MessageKind, is_host: bool) -> Seq<Step> {
        match kind {
            MessageKind::Joined(_, peer_id) => {
                let greeting = seq![
                    stop(Command::SendSelectTool(self.toolbar.current)),
                    stop(Command::NetworkPeerJoin(self.toolbar.current, peer_id)),
                ];
                if is_host {
                    seq![stop(Command::SendChunkPositions(peer_id))] + greeting
                } else {
                    greeting
                }
            },
            MessageKind::Left { peer_id, last_tool, .. } => self.deactivation_steps(
                last_tool,
                peer_id,
            ),
            MessageKind::NewHost(_) => Seq::empty(),
            MessageKind::NowHosting => Seq::empty(),
            MessageKind::ChunkPositions(_) => seq![
                stop(Command::SendSelectTool(self.toolbar.current)),
            ],
            MessageKind::Chunks(chunks) => decoding_steps(chunks@),
            MessageKind::GetChunks(requester, positions) => seq![
                stop(Command::SendChunks(requester, positions)),
            ],
            MessageKind::Tool(sender, name, payload) => match self.toolbar.tool_by_name(name@) {
                Some(tool) => seq![stop(Command::NetworkReceive(tool, sender, payload))],
                None => Seq::empty(),
            },
            MessageKind::SelectTool { peer_id, previous_tool, tool } => {
                let deactivation = self.deactivation_steps(previous_tool, peer_id);
                match self.toolbar.tool_by_name(tool@) {
                    Some(tool) => deactivation.push(
                        stop(Command::NetworkPeerActivate(tool, peer_id)),
                    ),
                    None => deactivation,
                }
            },
        }
    }

    /// The tool that a peer uses is drawn along with the peer, provided that it is known.
    pub open spec fn drawn_mate(self) -> spec_fn((PeerId, Option<String>)) -> Option<
        (ToolId, PeerId),
    > {
        |mate: (PeerId, Option<String>)|
            match mate.1 {
                Some(name) => match self.toolbar.tool_by_name(name@) {
                    Some(tool) => Some((tool, mate.0)),
                    None => None,
                },
                None => None,
            }
    }
}

/// A piece of work that everything after it depends on.
pub open spec fn stop(command: Command) -> Step {
    Step { command, on_error: OnError::Stop }
}

/// A piece of work that nothing after it depends on.
pub open spec fn report(command: Command) -> Step {
    Step { command, on_error: OnError::Report }
}

/// The positions of chunks.
pub open spec fn chunk_positions(chunks: Seq<Chunk>) -> Seq<ChunkPosition> {
    chunks.map_values(|chunk: Chunk| chunk.0)
}

/// The work of decoding chunks.
pub open spec fn decoding_steps(chunks: Seq<Chunk>) -> Seq<Step> {
    chunks.map_values(|chunk: Chunk| report(Command::DecodeChunk(chunk.0, chunk.1)))
}

/// Whether the mouse pans the canvas, given whether it did before, what has happened to the middle
/// mouse button and whether nothing else took that, and whether the mouse is above the canvas.
pub open spec fn panning_after(
    panning: bool,
    middle_button: (bool, ButtonState),
    hover: bool,
) -> bool {
    match middle_button {
        (true, ButtonState::Pressed) => hover || panning,
        (_, ButtonState::Released) => false,
        _ => panning,
    }
}

/// Returns what is left of a scroll action: the amount, unless something else took the action.
pub fn effective_scroll<T>(action: (bool, Option<T>)) -> (scroll: Option<T>)
    ensures
        scroll == (if action.0 {
            action.1
        } else {
            None
        }),
{
    match action {
        (true, Some(scroll)) => Some(scroll),
        _ => None,
    }
}

/// The paint app state.
pub struct State {
    toolbar: Toolbar,
    actions: Vec<String>,
    overflow_menu_height: u128,
    save_to_file: Option<String>,
    last_autosave: u64,
    chunk_downloads: Downloads,
    fatal_error: bool,
    log: Log,
    tip: Tip,
    panning: bool,
}

impl View for State {
    type V = StateModel;

    closed spec fn view(&self) -> StateModel {
        StateModel {
            toolbar: self.toolbar@,
            actions: self.actions@.map_values(|action: String| action@),
            menu_height: self.overflow_menu_height as int,
            save_to_file: match self.save_to_file {
                Some(path) => Some(path@),
                None => None,
            },
            last_autosave: self.last_autosave,
            downloads: self.chunk_downloads@,
            fatal_error: self.fatal_error,
            log: self.log@,
            tip: self.tip@,
            panning: self.panning,
        }
    }
}

impl State {
    /// The network communication tick interval, in nanoseconds.
    pub const TIME_PER_UPDATE: u64 = 50_000_000;

    /// Creates a new paint state.
    ///
    /// `image` is the outcome of loading the image that the canvas starts from, if there is one.
    pub fn new<E>(
        selection_tool: String,
        brush_tool: String,
        save_action: String,
        image: Option<Result<(), E>>,
        is_host: bool,
        now: u64,
    ) -> (state: Result<Self, E>)
        ensures
            match image {
                Some(Err(error)) => state == Err::<Self, E>(error),
                _ => {
                    &&& state is Ok
                    &&& state->Ok_0@.wf()
                    &&& state->Ok_0@ == StateModel::initial(
                        selection_tool@,
                        brush_tool@,
                        save_action@,
                        is_host,
                        now,
                    )
                },
            },
    {
        let mut this = State {
            toolbar: Toolbar::new(),
            actions: Vec::new(),
            overflow_menu_height: 0,
            save_to_file: None,
            last_autosave: now,
            chunk_downloads: Downloads::new(),
            fatal_error: false,
            log: Log::new(),
            tip: Tip { text: String::new(), created: now, visible_duration: 0 },
            panning: false,
        };
        assert(this@ =~= StateModel::blank(now));
        this.register_tools(selection_tool, brush_tool);
        this.register_actions(save_action);
        if let Some(Err(error)) = image {
            return Err(error);
        }
        if is_host {
            this.log_message("Welcome to your room!".to_string(), now);
            this.log_message(
                "To invite friends, send them the room ID shown in the bottom right corner of your screen.".to_string(),
                now,
            );
        }
        Ok(this)
    }

    /// Registers all the tools.
    pub fn register_tools(&mut self, selection_tool: String, brush_tool: String)
        requires
            old(self)@.toolbar.names.len() + 1 < usize::MAX,
        ensures
            final(self)@ == old(self)@.with_tools(selection_tool@, brush_tool@),
    {
        let _selection = self.toolbar.add_tool(selection_tool);
        let brush = self.toolbar.add_tool(brush_tool);
        // Set the default tool to the brush.
        self.toolbar.set_current_tool(brush);
        assert(self@ =~= old(self)@.with_tools(selection_tool@, brush_tool@));
    }

    /// Registers all the actions and calculates the layout height of the overflow menu.
    pub fn register_actions(&mut self, save_action: String)
        ensures
            final(self)@ == old(self)@.with_action(save_action@),
    {
        self.actions.push(save_action);
        self.overflow_menu_height = overflow_menu_height(self.actions.len());
        assert(self@ =~= old(self)@.with_action(save_action@));
    }

    /// Logs a message.
    fn log_message(&mut self, text: String, now: u64)
        ensures
            final(self)@ == old(self)@.logged(text@, now),
    {
        self.log.push(text, now);
    }

    /// Returns the tools.
    pub fn toolbar(&self) -> (toolbar: &Toolbar)
        ensures
            toolbar@ == self@.toolbar,
    {
        &self.toolbar
    }

    /// Returns the number of actions in the overflow menu.
    pub fn action_count(&self) -> (actions: usize)
        ensures
            actions == self@.actions.len(),
    {
        self.actions.len()
    }

    /// Returns the name of an action in the overflow menu.
    pub fn action_name(&self, action: usize) -> (name: &String)
        requires
            action < self@.actions.len(),
        ensures
            name@ == self@.actions[action as int],
    {
        assert(self@.actions[action as int] == self.actions@[action as int]@);
        &self.actions[action]
    }

    /// Returns the texts that the overflow menu shows.
    pub fn menu_texts(&self, room_id: String, host_name: Option<String>) -> (texts: Texts)
        ensures
            texts@.room_id == room_id@,
            texts@.host_name == (match host_name {
                Some(host_name) => Some(host_name@),
                None => None,
            }),
            texts@.actions == self@.actions,
            texts@.tip == Seq::<char>::empty(),
    {
        let mut actions: Vec<String> = Vec::new();
        let mut index: usize = 0;
        while index < self.actions.len()
            invariant
                index <= self.actions.len(),
                actions@.len() == index,
                forall|i: int| 0 <= i < index ==> #[trigger] actions@[i]@ == self.actions@[i]@,
            decreases self.actions.len() - index,
        {
            actions.push(self.actions[index].clone());
            index += 1;
        }
        let texts = Texts { room_id, host_name, actions, tip: String::new() };
        assert(texts@.actions =~= self@.actions);
        texts
    }

    /// Returns the height of the overflow menu.
    pub fn menu_height(&self) -> (height: u128)
        ensures
            height == self@.menu_height,
    {
        self.overflow_menu_height
    }

    /// Returns the width and the height of a part of the screen.
    pub fn area_size(&self, area: Area) -> (size: (Dimension, Dimension))
        ensures
            size == area_size(area, self@.menu_height),
    {
        match area {
            Area::Canvas => (Dimension::Percentage(100), Dimension::Rest(1)),
            Area::BottomBar => (
                Dimension::Percentage(100),
                Dimension::Constant(BOTTOM_BAR_SIZE as u128),
            ),
            Area::OverflowMenu => (
                Dimension::Constant(OVERFLOW_MENU_WIDTH as u128),
                Dimension::Constant(self.overflow_menu_height),
            ),
        }
    }

    /// Returns when the canvas was last saved.
    pub fn last_autosave(&self) -> (moment: u64)
        ensures
            moment == self@.last_autosave,
    {
        self.last_autosave
    }

    /// Returns the state of a chunk download.
    pub fn chunk_download(&self, position: ChunkPosition) -> (state: Option<ChunkDownload>)
        ensures
            state == (if self@.downloads.contains_key(position) {
                Some(self@.downloads[position])
            } else {
                None
            }),
    {
        self.chunk_downloads.get(position)
    }

    /// Returns the log messages.
    pub fn log(&self) -> (log: &Log)
        ensures
            log@ == self@.log,
    {
        &self.log
    }

    /// Sets the current tool to the one with the provided ID, and returns the work that takes.
    pub fn set_current_tool(&mut self, tool: ToolId) -> (script: Script)
        requires
            old(self)@.toolbar.has(tool),
        ensures
            final(self)@.wf(),
            final(self)@ == old(self)@.using(tool),
            script@ == old(self)@.switch_steps(tool),
    {
        let mut script = Script::new();
        let previous_tool = self.toolbar.current_tool();
        if tool != previous_tool {
            script.push(Command::DeactivateTool(previous_tool), OnError::Report);
            script.push(Command::SendSelectTool(tool), OnError::Report);
            self.toolbar.set_current_tool(tool);
            script.push(Command::ActivateTool(tool), OnError::Report);
        }
        assert(script@ =~= old(self)@.switch_steps(tool));
        script
    }

    /// Switches to the tool that the key shortcuts ask for, if any, and returns the work that
    /// takes.
    pub fn apply_shortcut(&mut self, target: Option<ToolId>) -> (script: Script)
        requires
            target is Some ==> old(self)@.toolbar.has(target->0),
        ensures
            match target {
                Some(tool) => final(self)@ == old(self)@.using(tool) && script@
                    == old(self)@.switch_steps(tool),
                None => final(self)@ == old(self)@ && script@ == Seq::<Step>::empty(),
            },
    {
        match target {
            Some(tool) => self.set_current_tool(tool),
            None => Script::new(),
        }
    }

    /// Has the canvas saved to a file on the next network tick.
    pub fn save_to(&mut self, path: String)
        ensures
            final(self)@ == old(self)@.saving_to(path@),
    {
        self.save_to_file = Some(path);
    }

    /// Requests a chunk download from the host.
    pub fn queue_chunk_download(requests: &mut Requests, chunk_position: ChunkPosition)
        requires
            old(requests).wf(),
        ensures
            final(requests).wf(),
            final(requests)@ == old(requests)@.push(chunk_position),
    {
        requests.push(chunk_position);
    }

    /// Shows a tip in the upper left corner.
    pub fn show_tip(&mut self, text: String, duration: u64, now: u64)
        ensures
            final(self)@ == old(self)@.tipped(text@, duration, now),
    {
        self.tip = Tip { text, created: now, visible_duration: duration };
    }

    /// Returns the text of the tip, while it is visible.
    pub fn visible_tip(&self, now: u64) -> (text: Option<&String>)
        ensures
            match text {
                Some(text) => self@.tip.visible(now) && text@ == self@.tip.text,
                None => !self@.tip.visible(now),
            },
    {
        self.tip.visible_text(now)
    }

    /// Processes the message log: drops the messages that are not shown anymore, and returns where
    /// the others are drawn.
    pub fn process_log(&mut self, now: u64) -> (positions: Vec<LinePosition>)
        ensures
            final(self)@ == old(self)@.log_processed(now),
            positions@ == Seq::new(
                final(self)@.log.len(),
                |line: int| line_position(line, final(self)@.log.len() as int),
            ),
    {
        self.log.drop_expired(now);
        self.log.line_positions()
    }

    /// Starts or stops panning, and returns whether the mouse pans the canvas.
    ///
    /// `middle_button` is what has happened to the middle mouse button, and whether nothing else
    /// took that action. `hover` is whether the mouse is above the canvas.
    pub fn update_panning(&mut self, middle_button: (bool, ButtonState), hover: bool) -> (panning:
        bool)
        ensures
            panning == panning_after(old(self)@.panning, middle_button, hover),
            final(self)@ == old(self)@.with_panning(panning),
    {
        match middle_button {
            (true, ButtonState::Pressed) => {
                if hover {
                    self.panning = true;
                }
            },
            (_, ButtonState::Released) => {
                self.panning = false;
            },
            _ => (),
        }
        self.panning
    }

    /// Takes note that the canvas was panned to the given position.
    pub fn panned(&mut self, position: String, now: u64)
        ensures
            final(self)@ == old(self)@.tipped(position@, PAN_TIP_DURATION, now),
    {
        self.show_tip(position, PAN_TIP_DURATION, now);
    }

    /// Takes note that the canvas was zoomed to the given percentage.
    pub fn zoomed(&mut self, percentage: String, now: u64)
        ensures
            final(self)@ == old(self)@.tipped(percentage@, ZOOM_TIP_DURATION, now),
    {
        self.show_tip(percentage, ZOOM_TIP_DURATION, now);
    }

    /// Returns the tools that the others in the room use, each with the peer that uses it.
    pub fn mates_to_draw(&self, mates: &Vec<(PeerId, Option<String>)>) -> (drawn: Vec<
        (ToolId, PeerId),
    >)
        ensures
            drawn@ == mates@.filter_map(self@.drawn_mate()),
    {
        let mut drawn: Vec<(ToolId, PeerId)> = Vec::new();
        let mut index: usize = 0;
        assert(mates@.take(0).filter_map(self@.drawn_mate()) =~= Seq::empty()) by {
            reveal(Seq::filter_map);
        }
        while index < mates.len()
            invariant
                index <= mates.len(),
                drawn@ == mates@.take(index as int).filter_map(self@.drawn_mate()),
            decreases mates.len() - index,
        {
            proof {
                mates@.lemma_filter_map_take_succ(self@.drawn_mate(), index as int);
            }
            if let Some(name) = &mates[index].1 {
                if let Some(tool) = self.toolbar.tool_by_name(name) {
                    drawn.push((tool, mates[index].0));
                }
            }
            index += 1;
        }
        assert(mates@.take(mates@.len() as int) =~= mates@);
        drawn
    }

    /// Does what is due on every network tick: lets the current tool send its data, and then either
    /// saves the canvas or queues downloads of the visible chunks.
    pub fn network_update(
        &mut self,
        requests: &mut Requests,
        visible: &Vec<ChunkPosition>,
        now: u64,
    ) -> (update: NetworkUpdate)
        requires
            old(requests).wf(),
        ensures
            final(requests).wf(),
            old(self)@.tick_result(
                old(requests)@,
                visible@,
                now,
                update.script@,
                update.queued@,
                final(requests)@,
                final(self)@,
            ),
    {
        let mut script = Script::new();
        let mut queued: Vec<ChunkPosition> = Vec::new();
        // Tool updates
        script.push(Command::NetworkSend(self.toolbar.current_tool()), OnError::Report);
        // Chunk downloading
        if let Some(path) = self.save_to_file.take() {
            script.push(Command::SaveCanvas(path), OnError::Report);
            self.last_autosave = now;
        } else {
            queued = self.chunk_downloads.queue(visible);
            let mut index: usize = 0;
            let ghost before = requests@;
            assert(requests@ =~= before + queued@.take(0));
            while index < queued.len()
                invariant
                    index <= queued.len(),
                    requests.wf(),
                    requests@ == before + queued@.take(index as int),
                decreases queued.len() - index,
            {
                Self::queue_chunk_download(requests, queued[index]);
                index += 1;
                assert(requests@ =~= before + queued@.take(index as int));
            }
            assert(queued@.take(queued@.len() as int) =~= queued@);
        }
        NetworkUpdate { script, queued }
    }

    /// Acts upon a message from the network, and returns the work that takes.
    pub fn process_peer_message(&mut self, kind: MessageKind, is_host: bool, now: u64) -> (script:
        Script)
        ensures
            final(self)@ == old(self)@.after_message(kind, now),
            script@ == old(self)@.message_steps(kind, is_host),
    {
        let mut script = Script::new();
        let current_tool = self.toolbar.current_tool();
        match kind {
            MessageKind::Joined(nickname, peer_id) => {
                self.log_message(nickname.concat(" joined the room"), now);
                if is_host {
                    script.push(Command::SendChunkPositions(peer_id), OnError::Stop);
                }
                // Order matters here! The tool selection packet must arrive before the packets sent
                // from the tool's `network_peer_join` event.
                script.push(Command::SendSelectTool(current_tool), OnError::Stop);
                script.push(Command::NetworkPeerJoin(current_tool, peer_id), OnError::Stop);
            },
            MessageKind::Left { peer_id, nickname, last_tool } => {
                self.log_message(nickname.concat(" has left"), now);
                // Make sure the tool they were last using is properly deinitialized.
                self.deactivate_for_peer(&mut script, &last_tool, peer_id);
            },
            MessageKind::NewHost(name) => {
                self.log_message(name.concat(" is now hosting the room"), now);
            },
            MessageKind::NowHosting => {
                self.log_message("You are now hosting the room".to_string(), now);
            },
            MessageKind::ChunkPositions(positions) => {
                self.chunk_downloads.mark(&positions, ChunkDownload::NotDownloaded);
                // Make sure we send the tool _after_ adding the requested chunks. This way if
                // something goes wrong with it, at least there are some chunks to download.
                script.push(Command::SendSelectTool(current_tool), OnError::Stop);
            },
            MessageKind::Chunks(chunks) => {
                self.receive_chunks(&mut script, chunks);
            },
            MessageKind::GetChunks(requester, positions) => {
                script.push(Command::SendChunks(requester, positions), OnError::Stop);
            },
            MessageKind::Tool(sender, name, payload) => {
                if let Some(tool) = self.toolbar.tool_by_name(&name) {
                    script.push(Command::NetworkReceive(tool, sender, payload), OnError::Stop);
                }
            },
            MessageKind::SelectTool { peer_id, previous_tool, tool } => {
                // Deselect the old tool.
                self.deactivate_for_peer(&mut script, &previous_tool, peer_id);
                // Select the new tool.
                if let Some(tool) = self.toolbar.tool_by_name(&tool) {
                    script.push(Command::NetworkPeerActivate(tool, peer_id), OnError::Stop);
                }
            },
        }
        assert(script@ =~= old(self)@.message_steps(kind, is_host));
        script
    }

    /// Adds the work of telling a tool that a peer does not use it anymore.
    fn deactivate_for_peer(&self, script: &mut Script, tool: &Option<String>, peer_id: PeerId)
        ensures
            final(script)@ == old(script)@ + self@.deactivation_steps(*tool, peer_id),
    {
        if let Some(name) = tool {
            if let Some(tool) = self.toolbar.tool_by_name(name) {
                script.push(Command::NetworkPeerDeactivate(tool, peer_id), OnError::Stop);
            }
        }
        assert(script@ =~= old(script)@ + self@.deactivation_steps(*tool, peer_id));
    }

    /// Adds the work of decoding canvas data to the given chunk.
    pub fn canvas_data(script: &mut Script, chunk_position: ChunkPosition, image_data: Vec<u8>)
        ensures
            final(script)@ == old(script)@.push(
                report(Command::DecodeChunk(chunk_position, image_data)),
            ),
    {
        script.push(Command::DecodeChunk(chunk_position, image_data), OnError::Report);
    }

    /// Takes chunks that were downloaded, and adds the work of decoding them.
    fn receive_chunks(&mut self, script: &mut Script, chunks: Vec<Chunk>)
        ensures
            final(self)@ == old(self)@.marked(chunk_positions(chunks@), ChunkDownload::Downloaded),
            final(script)@ == old(script)@ + decoding_steps(chunks@),
    {
        let mut positions: Vec<ChunkPosition> = Vec::new();
        let ghost before = script@;
        for chunk in arrived: chunks
            invariant
                arrived.seq() == chunks@,
                positions@ == chunk_positions(chunks@.take(arrived.index() as int)),
                script@ == before + decoding_steps(chunks@.take(arrived.index() as int)),
        {
            let (chunk_position, image_data) = chunk;
            positions.push(chunk_position);
            Self::canvas_data(script, chunk_position, image_data);
        }
        assert(chunks@.take(chunks@.len() as int) =~= chunks@);
        self.chunk_downloads.mark(&positions, ChunkDownload::Downloaded);
    }

    /// Marks the needed chunks as requested, and returns the work of asking for them. There is none
    /// if no chunks are needed.
    pub fn request_chunks(&mut self, needed_chunks: Vec<ChunkPosition>) -> (script: Script)
        ensures
            final(self)@ == old(self)@.marked(needed_chunks@, ChunkDownload::Requested),
            script@ == (if needed_chunks@.len() > 0 {
                seq![report(Command::DownloadChunks(needed_chunks))]
            } else {
                Seq::empty()
            }),
    {
        let mut script = Script::new();
        self.chunk_downloads.mark(&needed_chunks, ChunkDownload::Requested);
        if needed_chunks.len() > 0 {
            script.push(Command::DownloadChunks(needed_chunks), OnError::Report);
        }
        script
    }

    /// Requests the chunks whose downloads were queued, and returns the work of asking for them.
    pub fn request_queued_chunks(&mut self, requests: &mut Requests) -> (script: Script)
        requires
            old(requests).wf(),
        ensures
            final(requests).wf(),
            final(requests)@ == Seq::<ChunkPosition>::empty(),
            old(self)@.request_result(old(requests)@, script@, final(self)@),
    {
        let needed_chunks = requests.retrieve_all();
        self.request_chunks(needed_chunks)
    }

    /// Takes a click on a button, given the texts that are shown along with it, and returns the
    /// work that takes.
    pub fn clicked(&mut self, button: Button, texts: &Texts, now: u64) -> (command: Command)
        ensures
            old(self)@.click_result(button, texts@, now, command, final(self)@),
    {
        match button {
            Button::Menu => Command::ToggleOverflowMenu,
            Button::CopyRoomId => {
                self.log_message("Room ID copied to clipboard".to_string(), now);
                Command::CopyToClipboard(Caption::RoomId.text(texts))
            },
            Button::Action(action) => Command::PerformAction(action),
        }
    }

    /// Takes the outcome of performing an action.
    pub fn action_performed(&mut self, outcome: Result<(), String>, now: u64)
        ensures
            final(self)@ == old(self)@.after_action(outcome, now),
    {
        if let Err(error) = outcome {
            self.log_message(
                "error while performing action: ".to_string().concat(error.as_str()),
                now,
            );
        }
    }

    /// Takes the outcome of what an action does in the background.
    pub fn action_processed(&mut self, outcome: Result<(), String>, now: u64)
        ensures
            final(self)@ == old(self)@.after_background_action(outcome, now),
    {
        if let Err(error) = outcome {
            self.log_message(
                "error while processing action: ".to_string().concat(error.as_str()),
                now,
            );
        }
    }

    /// Takes an error that was reported.
    pub fn error_reported(&mut self, error: String, now: u64)
        ensures
            final(self)@ == old(self)@.after_error(error@, now),
    {
        self.log_message("error: ".to_string().concat(error.as_str()), now);
    }

    /// Takes an error that painting cannot go on after.
    pub fn fatal_error_reported(&mut self)
        ensures
            final(self)@ == old(self)@.doomed(),
    {
        self.fatal_error = true;
    }

    /// Decides which screen is shown next.
    pub fn next_state(&self) -> (next: NextState)
        ensures
            next == self@.next_state(),
    {
        if self.fatal_error {
            NextState::Lobby
        } else {
            NextState::Paint
        }
    }
}

} // verus!
