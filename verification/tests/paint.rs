use netcanv_core::paint::bus::Requests;
use netcanv_core::paint::chunks::{Chunk, ChunkSender, SendStep, MAX_BYTES_PER_PACKET};
use netcanv_core::paint::downloads::{ChunkDownload, ChunkPosition, Downloads};
use netcanv_core::paint::frame::{canvas_stages, frame_stages, CanvasStage, Stage};
use netcanv_core::paint::log::{LinePosition, Log, Tip};
use netcanv_core::paint::message::{handled, Message, MessageKind};
use netcanv_core::paint::script::{Command, OnError, Script, Step};
use netcanv_core::paint::shortcuts::{KeyShortcutAction, ShortcutStep};
use netcanv_core::paint::state::{effective_scroll, ButtonState, NextState, State};
use netcanv_core::paint::toolbar::{ToolId, Toolbar};
use netcanv_core::paint::ui::{
    action_button, bottom_bar, overflow_menu, overflow_menu_height, reflow_layout, tip, AlignH, AlignV,
    Area, Button, Caption, Dimension, Element, Extent, Font, Icon, Placement, Texts,
};
use netcanv_core::protocol::PeerId;

const SECOND: u64 = 1_000_000_000;
const SELECTION: ToolId = ToolId(0);
const BRUSH: ToolId = ToolId(1);

fn text(s: &str) -> String {
    s.to_string()
}

fn new_state(is_host: bool) -> State {
    State::new::<()>(text("selection"), text("brush"), text("save"), None, is_host, 0).unwrap()
}

fn log_texts(state: &State) -> Vec<String> {
    (0..state.log().len()).map(|i| state.log().text(i).clone()).collect()
}

fn steps(mut script: Script) -> Vec<(Command, OnError)> {
    let mut steps = Vec::new();
    while let Some(Step { command, on_error }) = script.next() {
        steps.push((command, on_error));
    }
    steps
}

fn stop(command: Command) -> (Command, OnError) {
    (command, OnError::Stop)
}

fn report(command: Command) -> (Command, OnError) {
    (command, OnError::Report)
}

/// Runs a sender on the given images, and returns the packets that it sends.
fn run_sender(chunks: Vec<(ChunkPosition, Option<Vec<u8>>)>) -> Vec<Vec<Chunk>> {
    let mut sender = ChunkSender::new(chunks.iter().map(|chunk| chunk.0).collect());
    let mut packets = Vec::new();
    let mut next = 0;
    loop {
        match sender.step() {
            SendStep::Send(packet) => packets.push(packet),
            SendStep::Fetch(position) => {
                assert_eq!(position, chunks[next].0);
                sender.fetched(chunks[next].1.clone());
                next += 1;
            }
            SendStep::Done => return packets,
        }
    }
}

#[test]
fn hosts_are_welcomed() {
    assert_eq!(
        log_texts(&new_state(true)),
        vec![
            "Welcome to your room!",
            "To invite friends, send them the room ID shown in the bottom right corner of your \
             screen.",
        ]
    );
    assert!(log_texts(&new_state(false)).is_empty());
}

#[test]
fn painting_starts_with_the_brush() {
    let state = new_state(false);
    let toolbar = state.toolbar();
    assert_eq!(toolbar.len(), 2);
    assert_eq!(toolbar.clone_tool_name(toolbar.current_tool()), "brush");
    assert_eq!(state.action_count(), 1);
    assert_eq!(state.action_name(0), "save");
    assert_eq!(state.menu_height(), 160);
    assert_eq!(state.next_state(), NextState::Paint);
    assert!(state.visible_tip(0).is_none());
}

#[test]
fn images_that_cannot_be_loaded_are_fatal() {
    let image: Option<Result<(), &str>> = Some(Err("broken"));
    let state = State::new(text("selection"), text("brush"), text("save"), image, true, 0);
    assert_eq!(state.err(), Some("broken"));
    let image: Option<Result<(), &str>> = Some(Ok(()));
    let state = State::new(text("selection"), text("brush"), text("save"), image, true, 0);
    assert!(state.is_ok());
}

#[test]
fn ticks_are_a_twentieth_of_a_second_apart() {
    assert_eq!(State::TIME_PER_UPDATE * 20, SECOND);
}

#[test]
fn switching_tools_tells_everyone() {
    let mut state = new_state(false);
    assert_eq!(
        steps(state.set_current_tool(SELECTION)),
        vec![
            report(Command::DeactivateTool(BRUSH)),
            report(Command::SendSelectTool(SELECTION)),
            report(Command::ActivateTool(SELECTION)),
        ]
    );
    assert_eq!(state.toolbar().current_tool(), SELECTION);
    assert!(steps(state.set_current_tool(SELECTION)).is_empty());
    assert!(steps(state.apply_shortcut(None)).is_empty());
    assert_eq!(steps(state.apply_shortcut(Some(BRUSH))).len(), 3);
    assert_eq!(state.toolbar().current_tool(), BRUSH);
}

#[test]
fn tools_are_found_by_name() {
    let mut toolbar = Toolbar::new();
    assert_eq!(toolbar.add_tool(text("a")), ToolId(0));
    assert_eq!(toolbar.add_tool(text("b")), ToolId(1));
    assert_eq!(toolbar.tool_by_name(&text("b")), Some(ToolId(1)));
    assert_eq!(toolbar.tool_by_name(&text("c")), None);
    toolbar.set_current_tool(ToolId(1));
    assert_eq!(toolbar.current_tool(), ToolId(1));
}

#[test]
fn tips_disappear() {
    let mut state = new_state(false);
    state.panned(text("1, -2"), 10);
    assert_eq!(state.visible_tip(10).unwrap(), "1, -2");
    assert_eq!(state.visible_tip(10 + SECOND / 10 - 1).unwrap(), "1, -2");
    assert!(state.visible_tip(10 + SECOND / 10).is_none());
    state.zoomed(text("50%"), SECOND);
    assert_eq!(state.visible_tip(4 * SECOND - 1).unwrap(), "50%");
    assert!(state.visible_tip(4 * SECOND).is_none());
    state.show_tip(text("hello"), 5, 0);
    assert_eq!(state.visible_tip(4).unwrap(), "hello");
}

#[test]
fn clock_can_stand_still() {
    let visible = Tip { text: text("early"), created: 100, visible_duration: 1 };
    assert_eq!(visible.visible_text(50).unwrap(), "early");
    let invisible = Tip { text: text("never"), created: 100, visible_duration: 0 };
    assert!(invisible.visible_text(50).is_none());
}

#[test]
fn log_messages_are_shown_for_five_seconds() {
    let mut log = Log::new();
    log.push(text("a"), 0);
    log.push(text("b"), 2 * SECOND);
    log.push(text("c"), SECOND);
    log.push(text("d"), 3 * SECOND);
    log.drop_expired(6 * SECOND);
    assert_eq!(log.len(), 2);
    assert_eq!(log.text(0), "b");
    assert_eq!(log.text(1), "d");
    log.drop_expired(7 * SECOND - 1);
    assert_eq!(log.len(), 2);
    log.drop_expired(7 * SECOND);
    assert_eq!(log.len(), 1);
    log.drop_expired(8 * SECOND);
    assert_eq!(log.len(), 0);
}

#[test]
fn log_lines_end_above_the_bottom_edge() {
    let mut state = new_state(true);
    state.error_reported(text("oh no"), 0);
    let line = |above_bottom: u128| LinePosition { left: 8, above_bottom };
    assert_eq!(state.process_log(1), vec![line(40), line(24), line(8)]);
    assert_eq!(state.process_log(5 * SECOND), vec![]);
}

#[test]
fn middle_mouse_button_pans() {
    let mut state = new_state(false);
    assert!(!state.update_panning((true, ButtonState::Pressed), false));
    assert!(!state.update_panning((false, ButtonState::Pressed), true));
    assert!(state.update_panning((true, ButtonState::Pressed), true));
    assert!(state.update_panning((true, ButtonState::Unchanged), false));
    assert!(state.update_panning((true, ButtonState::Pressed), false));
    assert!(!state.update_panning((false, ButtonState::Released), true));
    assert!(!state.update_panning((true, ButtonState::Unchanged), true));
}

#[test]
fn scrolling_elsewhere_does_not_zoom() {
    assert_eq!(effective_scroll((true, Some(2))), Some(2));
    assert_eq!(effective_scroll((false, Some(2))), None);
    assert_eq!(effective_scroll::<i32>((true, None)), None);
}

#[test]
fn mates_are_drawn_with_their_tools() {
    let state = new_state(false);
    let mates = vec![
        (PeerId(1), Some(text("brush"))),
        (PeerId(2), None),
        (PeerId(3), Some(text("unheard of"))),
        (PeerId(4), Some(text("selection"))),
    ];
    assert_eq!(state.mates_to_draw(&mates), vec![(BRUSH, PeerId(1)), (SELECTION, PeerId(4))]);
}

#[test]
fn focused_windows_take_the_keys() {
    assert_eq!(ShortcutStep::start(true), ShortcutStep::Done(None));
    assert_eq!(ShortcutStep::start(false), ShortcutStep::AskCurrent);
}

/// Asks all tools, and returns the tool that is switched to.
fn ask(current: KeyShortcutAction, global: &[KeyShortcutAction]) -> Option<ToolId> {
    let mut step = ShortcutStep::start(false);
    loop {
        step = match step {
            ShortcutStep::AskCurrent => step.answered(current, global.len()),
            ShortcutStep::AskGlobal(tool) => step.answered(global[tool.0], global.len()),
            ShortcutStep::Done(tool) => return tool,
        };
    }
}

#[test]
fn first_tool_decides_about_the_keys() {
    let nothing = KeyShortcutAction::Nothing;
    let success = KeyShortcutAction::Success;
    let switch = KeyShortcutAction::SwitchToThisTool;
    assert_eq!(ask(nothing, &[nothing, switch, switch]), Some(ToolId(1)));
    assert_eq!(ask(switch, &[nothing, nothing, switch]), Some(ToolId(2)));
    assert_eq!(ask(success, &[switch]), None);
    assert_eq!(ask(nothing, &[success, switch]), None);
    assert_eq!(ask(nothing, &[nothing, nothing]), None);
    assert_eq!(ask(nothing, &[]), None);
    let done = ShortcutStep::Done(Some(ToolId(1)));
    assert_eq!(done.answered(success, 3), done);
    let last = ShortcutStep::AskGlobal(ToolId(usize::MAX));
    assert_eq!(last.answered(nothing, usize::MAX), ShortcutStep::Done(None));
}

#[test]
fn chunk_downloads_make_progress() {
    let mut requests = Requests::new();
    let mut state = new_state(false);
    let here = (0, 0);
    let there = (-1, i32::MIN);
    assert_eq!(state.chunk_download(here), None);

    let script = state.process_peer_message(
        MessageKind::ChunkPositions(vec![here, there]),
        false,
        0,
    );
    assert_eq!(steps(script), vec![stop(Command::SendSelectTool(BRUSH))]);
    assert_eq!(state.chunk_download(here), Some(ChunkDownload::NotDownloaded));

    let update = state.network_update(&mut requests, &vec![(5, 5), here, here], 1);
    assert_eq!(update.queued, vec![here]);
    assert_eq!(steps(update.script), vec![report(Command::NetworkSend(BRUSH))]);
    assert_eq!(state.chunk_download(here), Some(ChunkDownload::Queued));
    assert_eq!(state.chunk_download(there), Some(ChunkDownload::NotDownloaded));
    assert_eq!(state.chunk_download((5, 5)), None);
    assert!(state.network_update(&mut requests, &vec![here], 2).queued.is_empty());

    assert_eq!(
        steps(state.request_queued_chunks(&mut requests)),
        vec![report(Command::DownloadChunks(vec![here]))]
    );
    assert_eq!(state.chunk_download(here), Some(ChunkDownload::Requested));
    assert!(steps(state.request_queued_chunks(&mut requests)).is_empty());

    let script =
        state.process_peer_message(MessageKind::Chunks(vec![(here, vec![7, 8])]), false, 0);
    assert_eq!(steps(script), vec![report(Command::DecodeChunk(here, vec![7, 8]))]);
    assert_eq!(state.chunk_download(here), Some(ChunkDownload::Downloaded));
    assert!(state.network_update(&mut requests, &vec![here], 3).queued.is_empty());

    // Announced again, the chunk is downloaded again.
    state.process_peer_message(MessageKind::ChunkPositions(vec![here]), false, 0);
    assert_eq!(state.network_update(&mut requests, &vec![here], 4).queued, vec![here]);
    assert_eq!(state.chunk_download(there), Some(ChunkDownload::NotDownloaded));
}

#[test]
fn all_queued_chunks_are_requested() {
    let mut requests = Requests::new();
    let mut state = new_state(false);
    let positions: Vec<ChunkPosition> = (0..10).map(|x| (x, -x)).collect();
    state.process_peer_message(MessageKind::ChunkPositions(positions.clone()), false, 0);
    assert_eq!(state.network_update(&mut requests, &positions, 0).queued, positions);
    assert_eq!(
        steps(state.request_queued_chunks(&mut requests)),
        vec![report(Command::DownloadChunks(positions.clone()))]
    );
    for position in positions {
        assert_eq!(state.chunk_download(position), Some(ChunkDownload::Requested));
    }
}

#[test]
fn requests_come_off_the_bus() {
    let mut requests = Requests::new();
    assert!(requests.retrieve_all().is_empty());
    requests.push((1, 2));
    State::queue_chunk_download(&mut requests, (3, 4));
    requests.push((1, 2));
    assert_eq!(requests.retrieve_all(), vec![(1, 2), (3, 4), (1, 2)]);
    assert!(requests.retrieve_all().is_empty());
    // Slots that were in use before do not change the order.
    for x in 0..5 {
        requests.push((5 - x, 6));
    }
    assert_eq!(requests.retrieve_all(), vec![(5, 6), (4, 6), (3, 6), (2, 6), (1, 6)]);
}

#[test]
fn requests_outlive_the_screen() {
    let mut requests = Requests::new();
    let mut state = new_state(false);
    state.process_peer_message(MessageKind::ChunkPositions(vec![(0, 0)]), false, 0);
    state.network_update(&mut requests, &vec![(0, 0)], 0);
    let mut next = new_state(false);
    assert_eq!(
        steps(next.request_queued_chunks(&mut requests)),
        vec![report(Command::DownloadChunks(vec![(0, 0)]))]
    );
    assert_eq!(next.chunk_download((0, 0)), Some(ChunkDownload::Requested));
}

#[test]
fn needed_chunks_are_requested() {
    let mut state = new_state(false);
    assert_eq!(
        steps(state.request_chunks(vec![(1, 2), (3, 4)])),
        vec![report(Command::DownloadChunks(vec![(1, 2), (3, 4)]))]
    );
    assert_eq!(state.chunk_download((3, 4)), Some(ChunkDownload::Requested));
    assert!(steps(state.request_chunks(vec![])).is_empty());
}

#[test]
fn chunks_are_told_apart() {
    let mut downloads = Downloads::new();
    let corners = vec![
        (i32::MIN, i32::MIN),
        (i32::MIN, i32::MAX),
        (i32::MAX, i32::MIN),
        (i32::MAX, i32::MAX),
        (0, 1),
        (1, 0),
    ];
    for position in &corners {
        assert_eq!(downloads.get(*position), None);
        downloads.mark(&vec![*position], ChunkDownload::NotDownloaded);
    }
    downloads.mark(&vec![(0, 1)], ChunkDownload::Downloaded);
    assert_eq!(downloads.get((1, 0)), Some(ChunkDownload::NotDownloaded));
    assert_eq!(downloads.get((0, 1)), Some(ChunkDownload::Downloaded));
    assert_eq!(downloads.queue(&corners), {
        let mut wanted = corners.clone();
        wanted.remove(4);
        wanted
    });
}

#[test]
fn saving_goes_before_downloading() {
    let mut requests = Requests::new();
    let mut state = new_state(false);
    state.process_peer_message(MessageKind::ChunkPositions(vec![(0, 0)]), false, 0);
    state.save_to(text("canvas.png"));
    let update = state.network_update(&mut requests, &vec![(0, 0)], 42);
    assert!(update.queued.is_empty());
    assert_eq!(
        steps(update.script),
        vec![
            report(Command::NetworkSend(BRUSH)),
            report(Command::SaveCanvas(text("canvas.png"))),
        ]
    );
    assert_eq!(state.last_autosave(), 42);
    assert_eq!(state.chunk_download((0, 0)), Some(ChunkDownload::NotDownloaded));
    assert_eq!(state.network_update(&mut requests, &vec![(0, 0)], 43).queued, vec![(0, 0)]);
    assert_eq!(state.last_autosave(), 42);
}

#[test]
fn joining_peers_are_greeted() {
    let mut state = new_state(false);
    let joined = || MessageKind::Joined(text("ada"), PeerId(3));
    let greeting = || {
        vec![
            stop(Command::SendSelectTool(BRUSH)),
            stop(Command::NetworkPeerJoin(BRUSH, PeerId(3))),
        ]
    };
    assert_eq!(steps(state.process_peer_message(joined(), false, 0)), greeting());
    let mut as_host = vec![stop(Command::SendChunkPositions(PeerId(3)))];
    as_host.extend(greeting());
    assert_eq!(steps(state.process_peer_message(joined(), true, 0)), as_host);
    assert_eq!(log_texts(&state), vec!["ada joined the room", "ada joined the room"]);
}

#[test]
fn leaving_peers_put_down_their_tools() {
    let mut state = new_state(false);
    let left = |tool: Option<&str>| MessageKind::Left {
        peer_id: PeerId(3),
        nickname: text("ada"),
        last_tool: tool.map(text),
    };
    assert_eq!(
        steps(state.process_peer_message(left(Some("selection")), false, 0)),
        vec![stop(Command::NetworkPeerDeactivate(SELECTION, PeerId(3)))]
    );
    assert!(steps(state.process_peer_message(left(Some("unheard of")), false, 0)).is_empty());
    assert!(steps(state.process_peer_message(left(None), false, 0)).is_empty());
    assert_eq!(log_texts(&state), vec!["ada has left", "ada has left", "ada has left"]);
}

#[test]
fn new_hosts_are_announced() {
    let mut state = new_state(false);
    assert!(steps(state.process_peer_message(MessageKind::NewHost(text("bob")), false, 0))
        .is_empty());
    assert!(steps(state.process_peer_message(MessageKind::NowHosting, true, 0)).is_empty());
    assert_eq!(
        log_texts(&state),
        vec!["bob is now hosting the room", "You are now hosting the room"]
    );
}

#[test]
fn requests_for_chunks_are_passed_on() {
    let mut state = new_state(true);
    assert_eq!(
        steps(state.process_peer_message(
            MessageKind::GetChunks(PeerId(3), vec![(1, 1)]),
            true,
            0
        )),
        vec![stop(Command::SendChunks(PeerId(3), vec![(1, 1)]))]
    );
}

#[test]
fn tools_hear_from_their_peers() {
    let mut state = new_state(false);
    let message = |name: &str| MessageKind::Tool(PeerId(3), text(name), vec![1]);
    assert_eq!(
        steps(state.process_peer_message(message("selection"), false, 0)),
        vec![stop(Command::NetworkReceive(SELECTION, PeerId(3), vec![1]))]
    );
    assert!(steps(state.process_peer_message(message("unheard of"), false, 0)).is_empty());
}

#[test]
fn old_tools_are_put_down_before_new_ones_are_picked_up() {
    let mut state = new_state(false);
    let selected = |previous: Option<&str>, tool: &str| MessageKind::SelectTool {
        peer_id: PeerId(3),
        previous_tool: previous.map(text),
        tool: text(tool),
    };
    let deactivation = || stop(Command::NetworkPeerDeactivate(SELECTION, PeerId(3)));
    let activation = || stop(Command::NetworkPeerActivate(BRUSH, PeerId(3)));
    assert_eq!(
        steps(state.process_peer_message(selected(Some("selection"), "brush"), false, 0)),
        vec![deactivation(), activation()]
    );
    assert_eq!(
        steps(state.process_peer_message(selected(None, "brush"), false, 0)),
        vec![activation()]
    );
    assert_eq!(
        steps(state.process_peer_message(selected(Some("selection"), "unheard of"), false, 0)),
        vec![deactivation()]
    );
    // Others do not decide which tool is in use here.
    assert_eq!(state.toolbar().current_tool(), BRUSH);
}

#[test]
fn messages_find_their_owner() {
    let message = Message { token: 7, kind: MessageKind::NowHosting };
    assert!(message.is_for(7));
    assert!(!message.is_for(8));
    let other = Message { token: 8, kind: MessageKind::NowHosting };
    assert_eq!(handled(&vec![&message, &other, &other, &message], 7), vec![0, 3]);
    assert_eq!(handled(&vec![&message, &other, &other, &message], 8), vec![1, 2]);
    assert!(handled(&vec![&message], 9).is_empty());
    assert!(handled(&vec![], 7).is_empty());
}

#[test]
fn failures_end_a_script_or_not() {
    let script = || {
        let mut script = Script::new();
        script.push(Command::CopyToClipboard(text("a")), OnError::Report);
        script.push(Command::ToggleOverflowMenu, OnError::Stop);
        script.push(Command::PerformAction(0), OnError::Stop);
        script
    };
    let mut failing = script();
    let first = failing.next().unwrap();
    assert_eq!(first.command, Command::CopyToClipboard(text("a")));
    assert!(failing.failed(first.on_error));
    let second = failing.next().unwrap();
    assert_eq!(second.command, Command::ToggleOverflowMenu);
    assert!(!failing.failed(second.on_error));
    assert!(failing.next().is_none());
    assert_eq!(steps(script()).len(), 3);
}

#[test]
fn chunks_without_images_are_left_out() {
    assert_eq!(run_sender(vec![]), vec![Vec::<Chunk>::new()]);
    assert_eq!(
        run_sender(vec![
            ((0, 0), Some(vec![1])),
            ((0, 1), None),
            ((0, 2), Some(vec![2, 3])),
        ]),
        vec![vec![((0, 0), vec![1]), ((0, 2), vec![2, 3])]]
    );
}

#[test]
fn packets_are_cut_once_they_are_full() {
    assert_eq!(MAX_BYTES_PER_PACKET, 128 * 1024);
    let image = |bytes: usize| Some(vec![0; bytes]);
    // Exactly the maximum still fits.
    let packets = run_sender(vec![
        ((0, 0), image(MAX_BYTES_PER_PACKET)),
        ((0, 1), image(1)),
        ((0, 2), image(5)),
        ((0, 3), image(MAX_BYTES_PER_PACKET + 1)),
    ]);
    let shape: Vec<Vec<ChunkPosition>> =
        packets.iter().map(|packet| packet.iter().map(|chunk| chunk.0).collect()).collect();
    assert_eq!(shape, vec![vec![(0, 0), (0, 1)], vec![(0, 2), (0, 3)]]);
    // A full packet goes out before the next position is looked up, even if there is no image.
    let packets = run_sender(vec![((0, 0), image(MAX_BYTES_PER_PACKET + 1)), ((0, 1), None)]);
    assert_eq!(packets.len(), 2);
    assert!(packets[1].is_empty());
}

#[test]
fn menu_button_toggles_the_menu() {
    let mut state = new_state(false);
    let texts = state.menu_texts(text("19AHJZ"), None);
    assert_eq!(state.clicked(Button::Menu, &texts, 0), Command::ToggleOverflowMenu);
    assert_eq!(state.clicked(Button::Action(0), &texts, 0), Command::PerformAction(0));
    assert!(log_texts(&state).is_empty());
    assert_eq!(Caption::RoomId.text(&texts), "19AHJZ");
    assert_eq!(
        state.clicked(Button::CopyRoomId, &texts, 0),
        Command::CopyToClipboard(text("19AHJZ"))
    );
    assert_eq!(log_texts(&state), vec!["Room ID copied to clipboard"]);
}

#[test]
fn failing_actions_are_logged() {
    let mut state = new_state(false);
    state.action_performed(Ok(()), 0);
    state.action_processed(Ok(()), 0);
    assert!(log_texts(&state).is_empty());
    state.action_performed(Err(text("disk full")), 0);
    state.action_processed(Err(text("disk gone")), 0);
    state.error_reported(text("no network"), 0);
    assert_eq!(
        log_texts(&state),
        vec![
            "error while performing action: disk full",
            "error while processing action: disk gone",
            "error: no network",
        ]
    );
}

#[test]
fn fatal_errors_lead_to_the_lobby() {
    let mut state = new_state(false);
    state.fatal_error_reported();
    assert_eq!(state.next_state(), NextState::Lobby);
    state.process_peer_message(MessageKind::NowHosting, true, 0);
    state.set_current_tool(SELECTION);
    state.save_to(text("canvas.png"));
    state.network_update(&mut Requests::new(), &vec![], 1);
    state.process_log(2);
    state.update_panning((true, ButtonState::Pressed), true);
    assert_eq!(state.next_state(), NextState::Lobby);
}

fn is_balanced(elements: &[Element]) -> bool {
    let mut open = 0;
    for element in elements {
        match element {
            Element::Push { .. } => open += 1,
            Element::Pop => open -= 1,
            _ => (),
        }
        if open < 0 {
            return false;
        }
    }
    open == 0
}

#[test]
fn groups_are_balanced() {
    assert!(is_balanced(&bottom_bar()));
    assert!(is_balanced(&action_button(3)));
    assert!(is_balanced(&tip()));
    for actions in 0..4 {
        assert!(is_balanced(&overflow_menu(true, actions)));
        assert!(is_balanced(&overflow_menu(false, actions)));
    }
}

#[test]
fn overflow_menu_shows_the_host() {
    let hosting = overflow_menu(true, 2);
    assert!(hosting.contains(&Element::Picture(Icon::Host)));
    assert!(!hosting.contains(&Element::Picture(Icon::Client)));
    let visiting = overflow_menu(false, 2);
    assert!(visiting.contains(&Element::Picture(Icon::Client)));
    assert!(!visiting.contains(&Element::Picture(Icon::Host)));
    for menu in [hosting, visiting] {
        let end = menu.len();
        assert_eq!(
            menu[end - 4..],
            [
                Element::ActionButton { action: 0, button_height: Extent::Pixels(32), corner_radius: 2 },
                Element::Space(4),
                Element::ActionButton { action: 1, button_height: Extent::Pixels(32), corner_radius: 2 },
                Element::Space(4),
            ]
        );
    }
}

#[test]
fn host_name_is_cut_to_its_column() {
    let label = Element::TruncatedLabel(Font::SansBold, Caption::HostName);
    assert!(overflow_menu(false, 1).contains(&label));
    assert!(!overflow_menu(true, 1).contains(&label));
}

#[test]
fn icon_buttons_are_as_high_as_their_group() {
    let icon_button = |button: Button, icon: Icon| Element::IconButton {
        button,
        icon,
        button_height: Extent::Full,
        corner_radius: 0,
    };
    assert_eq!(bottom_bar()[4], icon_button(Button::Menu, Icon::Menu));
    let menu = overflow_menu(true, 1);
    assert_eq!(menu[7], icon_button(Button::CopyRoomId, Icon::Copy));
    assert_eq!(menu[8], Element::CenteredLabel(Font::Monospace(24), Caption::RoomId));
}

#[test]
fn bottom_bar_is_below_the_canvas() {
    assert_eq!(
        reflow_layout(),
        vec![
            Placement::Stack(Area::BottomBar),
            Placement::Stack(Area::Canvas),
            Placement::Align {
                area: Area::OverflowMenu,
                within: Area::Canvas,
                padding: 8,
                horizontal: AlignH::Right,
                vertical: AlignV::Bottom,
            },
        ]
    );
    let state = new_state(false);
    let full = Dimension::Percentage(100);
    assert_eq!(state.area_size(Area::Canvas), (full, Dimension::Rest(1)));
    assert_eq!(state.area_size(Area::BottomBar), (full, Dimension::Constant(32)));
    assert_eq!(
        state.area_size(Area::OverflowMenu),
        (Dimension::Constant(256), Dimension::Constant(160))
    );
}

#[test]
fn captions_have_words() {
    let texts = Texts { tip: text("100%"), ..Texts::default() };
    assert_eq!(Caption::RoomIdHeading.text(&texts), "Room ID");
    assert_eq!(Caption::YouAreTheHost.text(&texts), "You are the host");
    assert_eq!(Caption::IsYourHost.text(&texts), "is your host");
    assert_eq!(Caption::HostName.text(&texts), "<unknown>");
    assert_eq!(Caption::Tip.text(&texts), "100%");
    let texts = new_state(false).menu_texts(text("19AHJZ"), Some(text("eve")));
    assert_eq!(Caption::RoomId.text(&texts), "19AHJZ");
    assert_eq!(Caption::HostName.text(&texts), "eve");
    assert_eq!(Caption::ActionName(0).text(&texts), "save");
}

#[test]
fn overflow_menu_grows_with_its_actions() {
    assert_eq!(overflow_menu_height(1), 160);
    assert_eq!(overflow_menu_height(2), 196);
}

#[test]
fn windows_are_between_the_bars() {
    let stages = frame_stages();
    let at = |stage: Stage| stages.iter().position(|s| *s == stage).unwrap();
    assert!(at(Stage::Toolbar) < at(Stage::Windows));
    assert!(at(Stage::Windows) < at(Stage::BottomBar));
    assert_eq!(stages[0], Stage::Actions);
    assert_eq!(stages.len(), 11);
}

#[test]
fn canvas_is_drawn_after_the_input() {
    let stages = canvas_stages();
    let at = |stage: CanvasStage| stages.iter().position(|s| *s == stage).unwrap();
    assert!(at(CanvasStage::ToolInput) < at(CanvasStage::DrawCanvas));
    assert!(at(CanvasStage::DrawLog) < at(CanvasStage::Network));
}
