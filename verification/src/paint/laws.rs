//! What the paint state can be relied on for.

use vstd::prelude::*;

use crate::paint::chunks::{
    available, contents, image_bytes, Chunk, SenderModel, MAX_BYTES_PER_PACKET,
};
use crate::paint::downloads::{marked, to_queue, wanted, ChunkDownload, ChunkPosition};
use crate::paint::frame::{canvas_work, frame_work, CanvasStage, Stage};
use crate::paint::log::{elapsed, line_position, shown, EntryModel};
use crate::paint::message::MessageKind;
use crate::paint::script::{after_failure, performed, Command, OnError, Step};
use crate::paint::shortcuts::{KeyShortcutAction, ShortcutStep};
use crate::paint::state::{
    chunk_positions, panning_after, stop, ButtonState, Event, NextState, StateModel,
    PAN_TIP_DURATION, ZOOM_TIP_DURATION,
};
use crate::paint::toolbar::{ToolId, ToolbarModel};
use crate::paint::ui::{
    action_button_element, action_button_elements, action_elements, area_size, balanced,
    bottom_bar_elements, host_elements, menu_height, open_groups, overflow_menu_elements,
    room_id_elements, screen_layout, separator_elements, tip_elements, AlignH, AlignV, Area, Button,
    Caption, Dimension, Element, Extent, Font, Icon, Layout, Placement, TextsModel,
};
use crate::protocol::PeerId;

verus! {

/// Exactly those visible chunks are queued that nothing was done about yet, each of them once.
pub proof fn law_wanted_chunks_are_queued(
    downloads: Map<ChunkPosition, ChunkDownload>,
    visible: Seq<ChunkPosition>,
)
    ensures
        to_queue(downloads, visible).no_duplicates(),
        forall|position: ChunkPosition| #[trigger]
            to_queue(downloads, visible).contains(position) <==> visible.contains(position)
                && wanted(downloads, position),
    decreases visible.len(),
{
    let queued = to_queue(downloads, visible);
    if visible.len() > 0 {
        let earlier = visible.drop_last();
        let before = to_queue(downloads, earlier);
        law_wanted_chunks_are_queued(downloads, earlier);
        assert forall|position: ChunkPosition| #[trigger]
            queued.contains(position) <==> visible.contains(position) && wanted(
                downloads,
                position,
            ) by {
            assert(before.contains(position) <==> earlier.contains(position) && wanted(
                downloads,
                position,
            ));
            if visible.contains(position) {
                let i = choose|i: int| 0 <= i < visible.len() && visible[i] == position;
                if i < earlier.len() {
                    assert(earlier[i] == position);
                }
            }
            if earlier.contains(position) {
                let i = choose|i: int| 0 <= i < earlier.len() && earlier[i] == position;
                assert(visible[i] == position);
            }
            if before.contains(position) {
                let i = choose|i: int| 0 <= i < before.len() && before[i] == position;
                assert(queued[i] == position);
            }
            if queued.contains(position) && !before.contains(position) {
                let i = choose|i: int| 0 <= i < queued.len() && queued[i] == position;
                assert(i == before.len());
                assert(visible[visible.len() - 1] == position);
            }
            if position == visible.last() && wanted(downloads, position) && !before.contains(
                position,
            ) {
                assert(queued[before.len() as int] == position);
            }
        }
    }
}

/// A chunk that was queued is not queued again, whatever is visible then.
pub proof fn law_chunks_are_queued_once(
    downloads: Map<ChunkPosition, ChunkDownload>,
    visible: Seq<ChunkPosition>,
    visible_later: Seq<ChunkPosition>,
    position: ChunkPosition,
)
    requires
        to_queue(downloads, visible).contains(position),
    ensures
        !to_queue(
            marked(downloads, to_queue(downloads, visible), ChunkDownload::Queued),
            visible_later,
        ).contains(position),
{
    law_wanted_chunks_are_queued(
        marked(downloads, to_queue(downloads, visible), ChunkDownload::Queued),
        visible_later,
    );
}

/// Once a chunk was queued, requested or downloaded, it is not queued until it is announced again.
pub proof fn law_chunks_under_way_are_not_queued(
    downloads: Map<ChunkPosition, ChunkDownload>,
    visible: Seq<ChunkPosition>,
    position: ChunkPosition,
)
    requires
        downloads.contains_key(position),
        downloads[position] != ChunkDownload::NotDownloaded,
    ensures
        !to_queue(downloads, visible).contains(position),
        marked(downloads, to_queue(downloads, visible), ChunkDownload::Queued)[position]
            == downloads[position],
{
    law_wanted_chunks_are_queued(downloads, visible);
}

/// A chunk that is announced and then becomes visible is queued, whatever was known of it before.
pub proof fn law_announced_chunks_are_queued(
    state: StateModel,
    positions: Vec<ChunkPosition>,
    now: u64,
    visible: Seq<ChunkPosition>,
    position: ChunkPosition,
)
    requires
        positions@.contains(position),
        visible.contains(position),
    ensures
        to_queue(
            state.after_message(MessageKind::ChunkPositions(positions), now).downloads,
            visible,
        ).contains(position),
{
    law_wanted_chunks_are_queued(
        state.after_message(MessageKind::ChunkPositions(positions), now).downloads,
        visible,
    );
}

/// Queueing, requesting or receiving chunks changes the state of those chunks alone.
pub proof fn law_downloads_are_independent(
    downloads: Map<ChunkPosition, ChunkDownload>,
    positions: Seq<ChunkPosition>,
    state: ChunkDownload,
    position: ChunkPosition,
)
    requires
        !positions.contains(position),
    ensures
        marked(downloads, positions, state).contains_key(position) <==> downloads.contains_key(
            position,
        ),
        downloads.contains_key(position) ==> marked(downloads, positions, state)[position]
            == downloads[position],
{
}

/// A visible chunk that is wanted goes through all states in turn: it is queued, then requested,
/// and in the end downloaded.
pub proof fn law_wanted_chunks_get_downloaded(
    downloads: Map<ChunkPosition, ChunkDownload>,
    visible: Seq<ChunkPosition>,
    chunks: Seq<Chunk>,
    position: ChunkPosition,
)
    requires
        wanted(downloads, position),
        visible.contains(position),
        chunk_positions(chunks) == to_queue(downloads, visible),
    ensures
        ({
            let requests = to_queue(downloads, visible);
            let queued = marked(downloads, requests, ChunkDownload::Queued);
            let requested = marked(queued, requests, ChunkDownload::Requested);
            let received = marked(requested, chunk_positions(chunks), ChunkDownload::Downloaded);
            &&& queued[position] == ChunkDownload::Queued
            &&& requested[position] == ChunkDownload::Requested
            &&& received[position] == ChunkDownload::Downloaded
        }),
{
    law_wanted_chunks_are_queued(downloads, visible);
}

/// On a network tick, the visible chunks that are wanted go behind the requests that there are
/// already. Once the requests are acted upon, all those chunks are requested, and the others are as
/// they were.
pub proof fn law_requests_are_acted_upon(
    state: StateModel,
    requests: Seq<ChunkPosition>,
    visible: Seq<ChunkPosition>,
    position: ChunkPosition,
)
    ensures
        ({
            let queued = to_queue(state.downloads, visible);
            let after = state.marked(queued, ChunkDownload::Queued).marked(
                requests + queued,
                ChunkDownload::Requested,
            ).downloads;
            if requests.contains(position) || visible.contains(position) && wanted(
                state.downloads,
                position,
            ) {
                after.contains_key(position) && after[position] == ChunkDownload::Requested
            } else {
                &&& after.contains_key(position) <==> state.downloads.contains_key(position)
                &&& after.contains_key(position) ==> after[position] == state.downloads[position]
            }
        }),
{
    let queued = to_queue(state.downloads, visible);
    law_wanted_chunks_are_queued(state.downloads, visible);
    let all = requests + queued;
    assert(all.contains(position) <==> requests.contains(position) || queued.contains(position))
        by {
        if requests.contains(position) {
            let i = choose|i: int| 0 <= i < requests.len() && requests[i] == position;
            assert(all[i] == position);
        }
        if queued.contains(position) {
            let i = choose|i: int| 0 <= i < queued.len() && queued[i] == position;
            assert(all[requests.len() + i] == position);
        }
    }
}

/// On a network tick, there comes to be one request for each visible chunk that is wanted, and none
/// for other chunks.
pub proof fn law_wanted_chunks_are_requested_once(
    downloads: Map<ChunkPosition, ChunkDownload>,
    visible: Seq<ChunkPosition>,
    position: ChunkPosition,
)
    ensures
        to_queue(downloads, visible).to_multiset().count(position) == (if visible.contains(position)
            && wanted(downloads, position) {
            1nat
        } else {
            0nat
        }),
{
    let queued = to_queue(downloads, visible);
    law_wanted_chunks_are_queued(downloads, visible);
    queued.to_multiset_ensures();
    queued.lemma_multiset_has_no_duplicates();
    assert(queued.contains(position) <==> queued.to_multiset().count(position) > 0);
}

/// A message is dropped from the log for good: dropping messages early makes no difference to what
/// is shown later.
pub proof fn law_dropped_messages_stay_dropped(log: Seq<EntryModel>, now: u64, later: u64)
    requires
        now <= later,
    ensures
        log.filter(shown(now)).filter(shown(later)) == log.filter(shown(later)),
    decreases log.len(),
{
    reveal(Seq::filter);
    if log.len() > 0 {
        let earlier = log.drop_last();
        let entry = log.last();
        law_dropped_messages_stay_dropped(earlier, now, later);
        if shown(now)(entry) {
            earlier.filter(shown(now)).lemma_filter_push(entry, shown(later));
        } else {
            assert(!shown(later)(entry)) by {
                assert(elapsed(entry.created, now) <= elapsed(entry.created, later));
            }
        }
    }
}

/// A message is shown if and only if it was logged less than five seconds ago.
pub proof fn law_messages_are_shown_for_five_seconds(
    log: Seq<EntryModel>,
    now: u64,
    entry: EntryModel,
)
    ensures
        log.filter(shown(now)).contains(entry) <==> log.contains(entry) && elapsed(
            entry.created,
            now,
        ) < 5_000_000_000,
{
    let left = log.filter(shown(now));
    if left.contains(entry) {
        log.lemma_filter_contains_rev(shown(now), entry);
        let i = choose|i: int| 0 <= i < left.len() && left[i] == entry;
        log.lemma_filter_pred(shown(now), i);
    }
    if log.contains(entry) && shown(now)(entry) {
        let i = choose|i: int| 0 <= i < log.len() && log[i] == entry;
        log.lemma_filter_contains(shown(now), i);
    }
}

/// Painting starts with the brush.
pub proof fn law_brush_is_the_default(
    selection: Seq<char>,
    brush: Seq<char>,
    save_action: Seq<char>,
    is_host: bool,
    now: u64,
)
    ensures
        ({
            let state = StateModel::initial(selection, brush, save_action, is_host, now);
            state.wf() && state.toolbar.names[state.toolbar.current.0 as int] == brush
        }),
{
}

/// Switching to the tool that is in use takes no work.
pub proof fn law_switching_twice_is_switching_once(state: StateModel, tool: ToolId)
    ensures
        state.using(tool).switch_steps(tool).len() == 0,
        state.using(tool).using(tool) == state.using(tool),
{
}

/// Work gets done in order up to the first failure that matters, and not beyond it. Everything gets
/// done if no such failure occurs.
pub proof fn law_work_stops_at_the_first_failure(
    steps: Seq<Step>,
    succeeds: Seq<bool>,
    failure: int,
)
    requires
        steps.len() == succeeds.len(),
        0 <= failure <= steps.len(),
        forall|i: int|
            0 <= i < failure ==> #[trigger] succeeds[i] || steps[i].on_error == OnError::Report,
        failure < steps.len() ==> !succeeds[failure] && steps[failure].on_error == OnError::Stop,
    ensures
        performed(steps, succeeds) == (if failure < steps.len() {
            steps.take(failure + 1)
        } else {
            steps
        }),
    decreases steps.len(),
{
    if steps.len() > 0 {
        if failure == 0 {
            assert(steps.take(1) =~= seq![steps[0]]);
        } else {
            let rest = steps.drop_first();
            assert(succeeds[0] || steps[0].on_error == OnError::Report);
            assert forall|i: int| 0 <= i < failure - 1 implies #[trigger] succeeds.drop_first()[i]
                || rest[i].on_error == OnError::Report by {
                assert(succeeds[i + 1] || steps[i + 1].on_error == OnError::Report);
            }
            law_work_stops_at_the_first_failure(rest, succeeds.drop_first(), failure - 1);
            assert(steps =~= seq![steps[0]] + rest);
            if failure < steps.len() {
                assert(steps.take(failure + 1) =~= seq![steps[0]] + rest.take(failure));
            }
        }
    }
}

/// What gets done of a script is the piece of work that goes first, and then what gets done of the
/// script that is left: everything after that piece if it succeeds or its failure is reported, and
/// nothing otherwise.
pub proof fn law_scripts_are_performed_step_by_step(steps: Seq<Step>, succeeds: Seq<bool>)
    ensures
        steps.len() == 0 ==> performed(steps, succeeds) == Seq::<Step>::empty(),
        steps.len() > 0 ==> performed(steps, succeeds) == seq![steps[0]] + performed(
            if succeeds[0] {
                steps.drop_first()
            } else {
                after_failure(steps.drop_first(), steps[0].on_error)
            },
            succeeds.drop_first(),
        ),
{
    if steps.len() > 0 && !succeeds[0] && steps[0].on_error == OnError::Stop {
        assert(seq![steps[0]] + Seq::<Step>::empty() =~= seq![steps[0]]);
    }
}

/// A peer that joins learns which tool is in use before it hears from that tool.
pub proof fn law_tool_is_selected_before_it_speaks(
    state: StateModel,
    nickname: String,
    peer_id: PeerId,
    is_host: bool,
    i: int,
)
    requires
        0 <= i < state.message_steps(MessageKind::Joined(nickname, peer_id), is_host).len(),
        state.message_steps(MessageKind::Joined(nickname, peer_id), is_host)[i].command
            is NetworkPeerJoin,
    ensures
        i > 0,
        state.message_steps(MessageKind::Joined(nickname, peer_id), is_host)[i - 1] == stop(
            Command::SendSelectTool(state.toolbar.current),
        ),
{
}

/// Only the host tells a peer that joins where the chunks are.
pub proof fn law_host_announces_chunks(
    state: StateModel,
    nickname: String,
    peer_id: PeerId,
    is_host: bool,
)
    ensures
        is_host <==> exists|i: int|
            0 <= i < state.message_steps(MessageKind::Joined(nickname, peer_id), is_host).len()
                && #[trigger] state.message_steps(
                MessageKind::Joined(nickname, peer_id),
                is_host,
            )[i].command is SendChunkPositions,
{
    if is_host {
        assert(state.message_steps(
            MessageKind::Joined(nickname, peer_id),
            is_host,
        )[0].command is SendChunkPositions);
    }
}

/// When a peer leaves or switches tools, the tool that it last used is told, provided that it is
/// known.
pub proof fn law_last_tool_is_deactivated(
    state: StateModel,
    peer_id: PeerId,
    name: String,
    nickname: String,
    next_tool: String,
    is_host: bool,
)
    ensures
        state.toolbar.tool_by_name(name@) matches Some(tool) ==> {
            let deactivation = stop(Command::NetworkPeerDeactivate(tool, peer_id));
            let left = MessageKind::Left { peer_id, nickname, last_tool: Some(name) };
            let switched = MessageKind::SelectTool {
                peer_id,
                previous_tool: Some(name),
                tool: next_tool,
            };
            &&& state.message_steps(left, is_host) == seq![deactivation]
            &&& state.message_steps(switched, is_host).len() > 0
            &&& state.message_steps(switched, is_host)[0] == deactivation
        },
{
}

/// Messages from others change neither the tool that is in use nor which screen comes next.
pub proof fn law_messages_leave_the_rest_alone(state: StateModel, kind: MessageKind, now: u64)
    ensures
        state.wf() ==> state.after_message(kind, now).wf(),
        state.after_message(kind, now).toolbar == state.toolbar,
        state.after_message(kind, now).actions == state.actions,
        state.after_message(kind, now).save_to_file == state.save_to_file,
        state.after_message(kind, now).fatal_error == state.fatal_error,
        state.after_message(kind, now).panning == state.panning,
        state.after_message(kind, now).tip == state.tip,
{
}

/// The lobby comes next once a fatal error was reported, whatever happens before or after that, and
/// not otherwise.
pub proof fn law_fatal_errors_are_final(state: StateModel, events: Seq<Event>)
    ensures
        state.after_all(events).fatal_error <==> state.fatal_error || events.contains(
            Event::FatalErrorReported,
        ),
        state.after_all(events).next_state() == NextState::Lobby <==> state.next_state()
            == NextState::Lobby || events.contains(Event::FatalErrorReported),
    decreases events.len(),
{
    if events.len() > 0 {
        let earlier = events.drop_last();
        let fatal = Event::FatalErrorReported;
        law_fatal_errors_are_final(state, earlier);
        assert(events.contains(fatal) <==> earlier.contains(fatal) || events.last() == fatal) by {
            if events.contains(fatal) {
                let i = choose|i: int| 0 <= i < events.len() && events[i] == fatal;
                if i < earlier.len() {
                    assert(earlier[i] == fatal);
                }
            }
            if earlier.contains(fatal) {
                let i = choose|i: int| 0 <= i < earlier.len() && earlier[i] == fatal;
                assert(events[i] == fatal);
            }
        }
    }
}

/// Painting starts without a fatal error.
pub proof fn law_painting_starts_on_the_paint_screen(
    selection: Seq<char>,
    brush: Seq<char>,
    save_action: Seq<char>,
    is_host: bool,
    now: u64,
)
    ensures
        StateModel::initial(selection, brush, save_action, is_host, now).next_state()
            == NextState::Paint,
{
}

/// The tool that is in use is one of the tools at all times, provided that nothing else is put to
/// use and that the tools can be counted.
pub proof fn law_current_tool_is_known(state: StateModel, event: Event)
    requires
        state.wf(),
        event matches Event::ToolUsed(tool) ==> state.toolbar.has(tool),
        event is ToolsRegistered ==> state.toolbar.names.len() < usize::MAX,
    ensures
        state.after(event).wf(),
{
}

/// The step that follows when some tools made nothing of the keys does not depend on how many.
proof fn lemma_ask_from(
    asked: int,
    first: int,
    current: KeyShortcutAction,
    global: Seq<KeyShortcutAction>,
)
    requires
        0 <= asked <= first <= global.len() <= usize::MAX,
        forall|i: int| asked <= i < first ==> global[i] == KeyShortcutAction::Nothing,
    ensures
        ShortcutStep::ask_from(asked, global.len() as int).outcome(current, global)
            == ShortcutStep::ask_from(first, global.len() as int).outcome(current, global),
    decreases first - asked,
{
    if asked < first {
        lemma_ask_from(asked + 1, first, current, global);
    }
}

/// The tool that is switched to is the first one that makes anything of the keys, provided that it
/// wants to be used, and that the current tool has not acted upon them already.
pub proof fn law_first_tool_decides(
    current: KeyShortcutAction,
    global: Seq<KeyShortcutAction>,
    first: int,
)
    requires
        global.len() <= usize::MAX,
        0 <= first < global.len(),
        forall|i: int| 0 <= i < first ==> global[i] == KeyShortcutAction::Nothing,
        global[first] != KeyShortcutAction::Nothing,
    ensures
        ShortcutStep::AskCurrent.outcome(current, global) == ShortcutStep::Done(
            if current != KeyShortcutAction::Success && global[first]
                == KeyShortcutAction::SwitchToThisTool {
                Some(ToolId(first as usize))
            } else {
                None
            },
        ),
{
    reveal_with_fuel(ShortcutStep::outcome, 3);
    lemma_ask_from(0, first, current, global);
}

/// If no tool makes anything of the keys, the current tool stays in use.
pub proof fn law_unknown_keys_change_nothing(
    current: KeyShortcutAction,
    global: Seq<KeyShortcutAction>,
)
    requires
        global.len() <= usize::MAX,
        forall|i: int| 0 <= i < global.len() ==> global[i] == KeyShortcutAction::Nothing,
    ensures
        ShortcutStep::AskCurrent.outcome(current, global) == ShortcutStep::Done(None),
{
    reveal_with_fuel(ShortcutStep::outcome, 3);
    lemma_ask_from(0, global.len() as int, current, global);
}

/// The number of open groups adds up.
proof fn lemma_open_groups_add(first: Seq<Element>, second: Seq<Element>)
    ensures
        open_groups(first + second) == open_groups(first) + open_groups(second),
    decreases second.len(),
{
    if second.len() == 0 {
        assert(first + second =~= first);
    } else {
        assert((first + second).drop_last() =~= first + second.drop_last());
        lemma_open_groups_add(first, second.drop_last());
    }
}

/// One balanced sequence after the other is balanced.
proof fn lemma_balanced_add(first: Seq<Element>, second: Seq<Element>)
    requires
        balanced(first),
        balanced(second),
    ensures
        balanced(first + second),
{
    let both = first + second;
    lemma_open_groups_add(first, second);
    assert forall|i: int| 0 <= i <= both.len() implies open_groups(#[trigger] both.take(i))
        >= 0 by {
        if i <= first.len() {
            assert(both.take(i) =~= first.take(i));
        } else {
            assert(both.take(i) =~= first + second.take(i - first.len()));
            lemma_open_groups_add(first, second.take(i - first.len()));
        }
    }
}

/// Whether elements neither begin nor end groups.
spec fn flat(elements: Seq<Element>) -> bool {
    forall|i: int|
        0 <= i < elements.len() ==> !(#[trigger] elements[i] is Push) && !(elements[i] is Pop)
}

/// Elements that neither begin nor end groups leave the number of open groups alone.
proof fn lemma_flat_open_groups(elements: Seq<Element>)
    requires
        flat(elements),
    ensures
        open_groups(elements) == 0,
    decreases elements.len(),
{
    if elements.len() > 0 {
        lemma_flat_open_groups(elements.drop_last());
    }
}

/// Elements that neither begin nor end groups are balanced.
proof fn lemma_flat_balanced(elements: Seq<Element>)
    requires
        flat(elements),
    ensures
        balanced(elements),
{
    lemma_flat_open_groups(elements);
    assert forall|i: int| 0 <= i <= elements.len() implies open_groups(#[trigger] elements.take(i))
        >= 0 by {
        lemma_flat_open_groups(elements.take(i));
    }
}

/// A group around balanced elements.
spec fn group(push: Element, inner: Seq<Element>) -> Seq<Element> {
    seq![push] + inner + seq![Element::Pop]
}

/// A group around balanced elements is balanced.
proof fn lemma_group_balanced(push: Element, inner: Seq<Element>)
    requires
        push is Push,
        balanced(inner),
    ensures
        balanced(group(push, inner)),
{
    let whole = group(push, inner);
    let opened = seq![push] + inner;
    assert(seq![push].drop_last() =~= Seq::<Element>::empty());
    assert(open_groups(seq![push]) == 1) by {
        reveal_with_fuel(open_groups, 2);
    }
    lemma_open_groups_add(seq![push], inner);
    assert(whole.drop_last() =~= opened);
    assert forall|i: int| 0 <= i <= whole.len() implies open_groups(#[trigger] whole.take(i))
        >= 0 by {
        if i == 0 {
            assert(whole.take(i) =~= Seq::<Element>::empty());
        } else if i < whole.len() {
            assert(whole.take(i) =~= seq![push] + inner.take(i - 1));
            lemma_open_groups_add(seq![push], inner.take(i - 1));
        } else {
            assert(whole.take(i) =~= whole);
        }
    }
}

/// In the bottom bar, every group that is begun is ended.
pub proof fn law_bottom_bar_is_balanced()
    ensures
        balanced(bottom_bar_elements()),
{
    let bar = bottom_bar_elements();
    let button = bar.subrange(4, 5);
    lemma_flat_balanced(button);
    lemma_group_balanced(bar[3], button);
    lemma_flat_balanced(bar.subrange(0, 3));
    lemma_balanced_add(bar.subrange(0, 3), group(bar[3], button));
    assert(bar =~= bar.subrange(0, 3) + group(bar[3], button));
}

/// In the tip, every group that is begun is ended.
pub proof fn law_tip_is_balanced()
    ensures
        balanced(tip_elements()),
{
    let tip = tip_elements();
    let shade = group(tip[2], tip.subrange(3, 5));
    lemma_flat_balanced(tip.subrange(3, 5));
    lemma_group_balanced(tip[2], tip.subrange(3, 5));
    lemma_flat_balanced(tip.subrange(1, 2));
    lemma_balanced_add(tip.subrange(1, 2), shade);
    lemma_group_balanced(tip[0], tip.subrange(1, 2) + shade);
    assert(tip =~= group(tip[0], tip.subrange(1, 2) + shade));
}

/// On the button of an action, every group that is begun is ended.
pub proof fn law_action_button_is_balanced(action: usize)
    ensures
        balanced(action_button_elements(action)),
{
    let button = action_button_elements(action);
    lemma_flat_balanced(button.subrange(1, 4));
    lemma_group_balanced(button[0], button.subrange(1, 4));
    assert(button =~= group(button[0], button.subrange(1, 4)));
}

/// The part of the overflow menu that shows the room ID is balanced.
proof fn lemma_room_id_balanced()
    ensures
        balanced(room_id_elements()),
{
    let all = room_id_elements();
    let row = group(all[6], all.subrange(7, 9));
    lemma_flat_balanced(all.subrange(7, 9));
    lemma_group_balanced(all[6], all.subrange(7, 9));
    lemma_flat_balanced(all.subrange(2, 6));
    lemma_flat_balanced(all.subrange(10, 11));
    lemma_balanced_add(all.subrange(2, 6), row);
    lemma_balanced_add(all.subrange(2, 6) + row, all.subrange(10, 11));
    let column = group(all[1], all.subrange(2, 6) + row + all.subrange(10, 11));
    lemma_group_balanced(all[1], all.subrange(2, 6) + row + all.subrange(10, 11));
    lemma_flat_balanced(all.subrange(0, 1));
    lemma_flat_balanced(all.subrange(12, 13));
    lemma_balanced_add(all.subrange(0, 1), column);
    lemma_balanced_add(all.subrange(0, 1) + column, all.subrange(12, 13));
    assert(all =~= all.subrange(0, 1) + column + all.subrange(12, 13));
}

/// The part of the overflow menu that shows who the host is is balanced.
proof fn lemma_host_balanced(is_host: bool)
    ensures
        balanced(host_elements(is_host)),
{
    let all = host_elements(is_host);
    if is_host {
        lemma_flat_balanced(all.subrange(1, 4));
        lemma_group_balanced(all[0], all.subrange(1, 4));
        assert(all =~= group(all[0], all.subrange(1, 4)));
    } else {
        let column = group(all[3], all.subrange(4, 8));
        lemma_flat_balanced(all.subrange(4, 8));
        lemma_group_balanced(all[3], all.subrange(4, 8));
        lemma_flat_balanced(all.subrange(1, 3));
        lemma_balanced_add(all.subrange(1, 3), column);
        lemma_group_balanced(all[0], all.subrange(1, 3) + column);
        assert(all =~= group(all[0], all.subrange(1, 3) + column));
    }
}

/// The line between the parts of the overflow menu is balanced.
proof fn lemma_separator_balanced()
    ensures
        balanced(separator_elements()),
{
    let all = separator_elements();
    let line = group(all[1], all.subrange(2, 3));
    lemma_flat_balanced(all.subrange(2, 3));
    lemma_group_balanced(all[1], all.subrange(2, 3));
    lemma_flat_balanced(all.subrange(0, 1));
    lemma_flat_balanced(all.subrange(4, 5));
    lemma_balanced_add(all.subrange(0, 1), line);
    lemma_balanced_add(all.subrange(0, 1) + line, all.subrange(4, 5));
    assert(all =~= all.subrange(0, 1) + line + all.subrange(4, 5));
}

/// In the overflow menu, every group that is begun is ended.
pub proof fn law_overflow_menu_is_balanced(is_host: bool, actions: nat)
    ensures
        balanced(overflow_menu_elements(is_host, actions)),
{
    lemma_room_id_balanced();
    lemma_host_balanced(is_host);
    lemma_separator_balanced();
    lemma_flat_balanced(action_elements(actions));
    lemma_balanced_add(room_id_elements(), host_elements(is_host));
    lemma_balanced_add(room_id_elements() + host_elements(is_host), separator_elements());
    lemma_balanced_add(
        room_id_elements() + host_elements(is_host) + separator_elements(),
        action_elements(actions),
    );
}

/// The overflow menu has a button for each action, in order.
pub proof fn law_overflow_menu_has_every_action(is_host: bool, actions: nat, action: usize)
    requires
        action < actions,
    ensures
        action_elements(actions)[2 * action as int] == action_button_element(action),
        overflow_menu_elements(is_host, actions).contains(action_button_element(action)),
{
    let header = room_id_elements() + host_elements(is_host) + separator_elements();
    let menu = overflow_menu_elements(is_host, actions);
    assert(menu[header.len() + 2 * action as int] == action_button_element(action));
}

/// The overflow menu shows the room ID, beside the button that copies it.
pub proof fn law_overflow_menu_shows_the_room_id(is_host: bool, actions: nat, i: int)
    requires
        0 <= i < overflow_menu_elements(is_host, actions).len(),
        overflow_menu_elements(is_host, actions)[i] matches Element::IconButton { button, .. }
            && button == Button::CopyRoomId,
    ensures
        i + 1 < overflow_menu_elements(is_host, actions).len(),
        overflow_menu_elements(is_host, actions)[i + 1] == Element::CenteredLabel(
            Font::Monospace(24),
            Caption::RoomId,
        ),
{
    let header = room_id_elements() + host_elements(is_host) + separator_elements();
    let menu = overflow_menu_elements(is_host, actions);
    if i >= header.len() {
        assert(menu[i] == action_elements(actions)[i - header.len()]);
    } else if i >= room_id_elements().len() {
        assert(menu[i] == (host_elements(is_host) + separator_elements())[i
            - room_id_elements().len()]);
    } else {
        assert(menu[i] == room_id_elements()[i]);
        assert(menu[i + 1] == header[i + 1]);
    }
}

/// Windows are drawn over the toolbar, but below the bottom bar.
pub proof fn law_windows_are_over_the_toolbar(toolbar: int, windows: int, bottom_bar: int)
    requires
        0 <= toolbar < frame_work().len(),
        0 <= windows < frame_work().len(),
        0 <= bottom_bar < frame_work().len(),
        frame_work()[toolbar] == Stage::Toolbar,
        frame_work()[windows] == Stage::Windows,
        frame_work()[bottom_bar] == Stage::BottomBar,
    ensures
        toolbar < windows < bottom_bar,
{
}

/// One packet after the other.
proof fn lemma_contents_prepend(packet: Seq<Chunk>, packets: Seq<Seq<Chunk>>)
    ensures
        contents(seq![packet] + packets) == packet + contents(packets),
{
    assert((seq![packet] + packets).drop_first() =~= packets);
}

/// The packets that are sent hold the chunks that there is image data for, in the order in which
/// they were asked for, and nothing else.
pub proof fn law_all_chunks_are_sent(sender: SenderModel, images: Seq<Option<Vec<u8>>>)
    requires
        !sender.finished,
        images.len() == sender.pending.len(),
    ensures
        contents(sender.packets(images)) == sender.packet + available(sender.pending, images),
    decreases sender.pending.len(),
{
    if sender.pending.len() == 0 {
        lemma_contents_prepend(sender.packet, Seq::empty());
        assert(seq![sender.packet] + Seq::<Seq<Chunk>>::empty() =~= seq![sender.packet]);
        assert(contents(sender.packets(images)) =~= sender.packet);
        assert(available(sender.pending, images) =~= Seq::<Chunk>::empty());
    } else {
        let rest = images.drop_first();
        if sender.full() {
            let next = sender.sent().fetched(images[0]);
            law_all_chunks_are_sent(next, rest);
            lemma_contents_prepend(sender.packet, next.packets(rest));
            assert(next.packet + available(next.pending, rest) =~= available(
                sender.pending,
                images,
            ));
        } else {
            let next = sender.fetched(images[0]);
            law_all_chunks_are_sent(next, rest);
            assert(next.packet + available(next.pending, rest) =~= sender.packet + available(
                sender.pending,
                images,
            ));
        }
    }
}

/// A peer that asks for chunks is sent at least one packet. All of them but the last hold more than
/// the maximum amount of image data, and none of them would without its last chunk.
pub proof fn law_packets_are_filled(sender: SenderModel, images: Seq<Option<Vec<u8>>>)
    requires
        !sender.finished,
        images.len() == sender.pending.len(),
        image_bytes(sender.packet.drop_last()) <= MAX_BYTES_PER_PACKET || sender.packet.len() == 0,
    ensures
        sender.packets(images).len() > 0,
        forall|i: int|
            0 <= i < sender.packets(images).len() - 1 ==> image_bytes(
                #[trigger] sender.packets(images)[i],
            ) > MAX_BYTES_PER_PACKET,
        forall|i: int|
            0 <= i < sender.packets(images).len() && (#[trigger] sender.packets(images)[i]).len()
                > 0 ==> image_bytes(sender.packets(images)[i].drop_last()) <= MAX_BYTES_PER_PACKET,
    decreases sender.pending.len(),
{
    if sender.pending.len() > 0 {
        let rest = images.drop_first();
        if sender.full() {
            let next = sender.sent().fetched(images[0]);
            assert(next.packet.len() > 0 ==> next.packet.drop_last() =~= Seq::<Chunk>::empty());
            law_packets_are_filled(next, rest);
            let later = next.packets(rest);
            let packets = sender.packets(images);
            assert(packets == seq![sender.packet] + later);
            assert forall|i: int| 0 <= i < packets.len() - 1 implies image_bytes(
                #[trigger] packets[i],
            ) > MAX_BYTES_PER_PACKET by {
                if i > 0 {
                    assert(packets[i] == later[i - 1]);
                }
            }
            assert forall|i: int|
                0 <= i < packets.len() && (#[trigger] packets[i]).len() > 0 implies image_bytes(
                packets[i].drop_last(),
            ) <= MAX_BYTES_PER_PACKET by {
                if i > 0 {
                    assert(packets[i] == later[i - 1]);
                }
            }
        } else {
            let next = sender.fetched(images[0]);
            if images[0] is Some {
                assert(next.packet.drop_last() =~= sender.packet);
            }
            law_packets_are_filled(next, rest);
        }
    }
}

/// Every step towards sending chunks leads to the same packets: a packet that is sent is the next
/// one of them, and image data that is looked up is what they are made from.
pub proof fn law_steps_send_the_packets(sender: SenderModel, images: Seq<Option<Vec<u8>>>)
    requires
        images.len() == sender.pending.len(),
    ensures
        sender.due() ==> sender.packets(images) == seq![sender.packet] + sender.sent().packets(
            images,
        ),
        !sender.due() && !sender.finished ==> sender.packets(images) == sender.fetched(
            images[0],
        ).packets(images.drop_first()),
        sender.finished ==> sender.packets(images).len() == 0,
{
    if sender.due() {
        if sender.pending.len() == 0 {
            assert(seq![sender.packet] + sender.sent().packets(images) =~= seq![sender.packet]);
        } else {
            assert(image_bytes(Seq::<Chunk>::empty()) == 0);
        }
    }
}

/// Switching to another tool tells the tool that was in use, and only that one, that it is not
/// anymore. Then everyone is told of the tool that is switched to, and then that tool itself. No
/// failure keeps the rest from being done.
pub proof fn law_switching_announces_the_new_tool(state: StateModel, tool: ToolId)
    requires
        tool != state.toolbar.current,
    ensures
        ({
            let steps = state.switch_steps(tool);
            let after = state.using(tool);
            &&& after.toolbar.current == tool
            &&& steps.len() == 3
            &&& steps[0].command == Command::DeactivateTool(state.toolbar.current)
            &&& steps[1].command == Command::SendSelectTool(after.toolbar.current)
            &&& steps[2].command == Command::ActivateTool(after.toolbar.current)
            &&& forall|i: int|
                0 <= i < steps.len() ==> (#[trigger] steps[i]).on_error == OnError::Report
        }),
{
}

/// Switching to the tool that is in use takes no work and changes nothing. Switching to any tool
/// changes nothing but which tool is in use.
pub proof fn law_switching_changes_the_tool_alone(state: StateModel, tool: ToolId)
    ensures
        tool == state.toolbar.current <==> state.switch_steps(tool).len() == 0,
        tool == state.toolbar.current ==> state.using(tool) == state,
        state.using(tool).toolbar.current == tool,
        state.using(tool).toolbar.names == state.toolbar.names,
        same_but_for_toolbar(state, state.using(tool)),
{
}

/// Whether two states agree on everything apart from the tools.
pub open spec fn same_but_for_toolbar(first: StateModel, second: StateModel) -> bool {
    second == StateModel { toolbar: second.toolbar, ..first }
}

/// Whether two states agree on everything apart from the log.
pub open spec fn same_but_for_log(first: StateModel, second: StateModel) -> bool {
    second == StateModel { log: second.log, ..first }
}

/// Whether two states agree on everything apart from the downloads.
pub open spec fn same_but_for_downloads(first: StateModel, second: StateModel) -> bool {
    second == StateModel { downloads: second.downloads, ..first }
}

/// The tool of a name is the first one that has it. There is one if and only if any tool has it.
pub proof fn law_tools_are_found_by_name(toolbar: ToolbarModel, name: Seq<char>)
    requires
        toolbar.names.len() <= usize::MAX,
    ensures
        toolbar.tool_by_name(name) is None <==> !toolbar.names.contains(name),
        toolbar.tool_by_name(name) matches Some(tool) ==> {
            &&& 0 <= tool.0 < toolbar.names.len()
            &&& toolbar.names[tool.0 as int] == name
            &&& forall|i: int| 0 <= i < tool.0 ==> toolbar.names[i] != name
        },
{
    toolbar.names.index_of_first_ensures(name);
}

/// Data that a peer sends for a tool reaches that tool, whichever tool is in use here. Data for
/// tools that are not known is dropped.
pub proof fn law_tool_data_reaches_its_tool(
    state: StateModel,
    sender: PeerId,
    name: String,
    payload: Vec<u8>,
    is_host: bool,
)
    requires
        state.toolbar.names.len() <= usize::MAX,
    ensures
        ({
            let steps = state.message_steps(MessageKind::Tool(sender, name, payload), is_host);
            &&& !state.toolbar.names.contains(name@) ==> steps.len() == 0
            &&& state.toolbar.names.contains(name@) ==> {
                &&& steps.len() == 1
                &&& steps[0].on_error == OnError::Stop
                &&& steps[0].command matches Command::NetworkReceive(tool, from, data) && {
                    &&& state.toolbar.names[tool.0 as int] == name@
                    &&& (forall|i: int| 0 <= i < tool.0 ==> state.toolbar.names[i] != name@)
                    &&& from == sender
                    &&& data == payload
                }
            }
        }),
{
    law_tools_are_found_by_name(state.toolbar, name@);
}

/// A peer that joins is told where the chunks are if and only if we are the host, and then which
/// tool is in use, before the tool that is in use hears of that very peer. The first failure keeps
/// the rest from being done.
pub proof fn law_joining_peers_are_greeted(
    state: StateModel,
    nickname: String,
    peer_id: PeerId,
    is_host: bool,
)
    ensures
        ({
            let steps = state.message_steps(MessageKind::Joined(nickname, peer_id), is_host);
            let first: int = if is_host {
                1
            } else {
                0
            };
            &&& steps.len() == first + 2
            &&& is_host ==> steps[0].command == Command::SendChunkPositions(peer_id)
            &&& steps[first].command == Command::SendSelectTool(state.toolbar.current)
            &&& steps[first + 1].command == Command::NetworkPeerJoin(
                state.toolbar.current,
                peer_id,
            )
            &&& forall|i: int|
                0 <= i < steps.len() ==> (#[trigger] steps[i]).on_error == OnError::Stop
        }),
{
}

/// When a peer leaves, the tool that it last used is told of that very peer, and nothing else is
/// done. Nothing is done at all if it used no tool, or one that is not known.
pub proof fn law_leaving_peers_put_their_tool_away(
    state: StateModel,
    peer_id: PeerId,
    nickname: String,
    last_tool: Option<String>,
    is_host: bool,
)
    requires
        state.toolbar.names.len() <= usize::MAX,
    ensures
        ({
            let steps = state.message_steps(
                MessageKind::Left { peer_id, nickname, last_tool },
                is_host,
            );
            let known = last_tool is Some && state.toolbar.names.contains(last_tool->0@);
            &&& !known ==> steps.len() == 0
            &&& known ==> steps.len() == 1 && deactivates(
                state,
                steps[0],
                last_tool->0@,
                peer_id,
            )
        }),
{
    if let Some(name) = last_tool {
        law_tools_are_found_by_name(state.toolbar, name@);
    }
}

/// Whether the step tells the first tool of the given name that the peer does not use it anymore,
/// and matters to what comes after it.
pub open spec fn deactivates(
    state: StateModel,
    step: Step,
    name: Seq<char>,
    peer_id: PeerId,
) -> bool {
    &&& step.on_error == OnError::Stop
    &&& step.command matches Command::NetworkPeerDeactivate(tool, peer) && peer == peer_id
        && state.toolbar.names[tool.0 as int] == name && (forall|i: int|
        0 <= i < tool.0 ==> state.toolbar.names[i] != name)
}

/// Whether the step tells the first tool of the given name that the peer uses it, and matters to
/// what comes after it.
pub open spec fn activates(
    state: StateModel,
    step: Step,
    name: Seq<char>,
    peer_id: PeerId,
) -> bool {
    &&& step.on_error == OnError::Stop
    &&& step.command matches Command::NetworkPeerActivate(tool, peer) && peer == peer_id
        && state.toolbar.names[tool.0 as int] == name && (forall|i: int|
        0 <= i < tool.0 ==> state.toolbar.names[i] != name)
}

/// When a peer switches tools, the tool that it used is told first, and the one that it uses from
/// now on is told after that, each of them of that very peer and provided that it is known. Nothing
/// else is done.
pub proof fn law_switching_peers_swap_tools(
    state: StateModel,
    peer_id: PeerId,
    previous_tool: Option<String>,
    tool: String,
    is_host: bool,
)
    requires
        state.toolbar.names.len() <= usize::MAX,
    ensures
        ({
            let steps = state.message_steps(
                MessageKind::SelectTool { peer_id, previous_tool, tool },
                is_host,
            );
            let from_known = previous_tool is Some && state.toolbar.names.contains(
                previous_tool->0@,
            );
            let to_known = state.toolbar.names.contains(tool@);
            &&& steps.len() == (if from_known {
                1int
            } else {
                0
            }) + (if to_known {
                1int
            } else {
                0
            })
            &&& from_known ==> deactivates(state, steps[0], previous_tool->0@, peer_id)
            &&& to_known ==> activates(state, steps[steps.len() - 1], tool@, peer_id)
        }),
{
    law_tools_are_found_by_name(state.toolbar, tool@);
    if let Some(name) = previous_tool {
        law_tools_are_found_by_name(state.toolbar, name@);
    }
}

/// News of the host takes no work. A peer that asks for chunks is sent just those chunks. Whoever
/// announces chunks is told which tool is in use. All of that matters to what comes after it.
pub proof fn law_requests_are_passed_on(
    state: StateModel,
    name: String,
    requester: PeerId,
    positions: Vec<ChunkPosition>,
    is_host: bool,
)
    ensures
        state.message_steps(MessageKind::NewHost(name), is_host).len() == 0,
        state.message_steps(MessageKind::NowHosting, is_host).len() == 0,
        state.message_steps(MessageKind::GetChunks(requester, positions), is_host) == seq![
            Step { command: Command::SendChunks(requester, positions), on_error: OnError::Stop },
        ],
        state.message_steps(MessageKind::ChunkPositions(positions), is_host) == seq![
            Step {
                command: Command::SendSelectTool(state.toolbar.current),
                on_error: OnError::Stop,
            },
        ],
{
}

/// Every chunk that arrives is decoded from its own image data, in the order of arrival, no matter
/// what becomes of the others.
pub proof fn law_arriving_chunks_are_decoded(state: StateModel, chunks: Vec<Chunk>, is_host: bool)
    ensures
        ({
            let steps = state.message_steps(MessageKind::Chunks(chunks), is_host);
            &&& steps.len() == chunks@.len()
            &&& forall|i: int|
                0 <= i < chunks@.len() ==> #[trigger] steps[i] == (Step {
                    command: Command::DecodeChunk(chunks@[i].0, chunks@[i].1),
                    on_error: OnError::Report,
                })
        }),
{
}

/// Messages about people are logged in words, after what was logged before, and change nothing
/// else.
pub proof fn law_people_are_logged(
    state: StateModel,
    name: String,
    peer_id: PeerId,
    last_tool: Option<String>,
    now: u64,
)
    ensures
        ({
            let joined = state.after_message(MessageKind::Joined(name, peer_id), now);
            let left = state.after_message(
                MessageKind::Left { peer_id, nickname: name, last_tool },
                now,
            );
            let new_host = state.after_message(MessageKind::NewHost(name), now);
            let hosting = state.after_message(MessageKind::NowHosting, now);
            &&& joined.log == state.log.push(
                EntryModel { text: name@ + " joined the room"@, created: now },
            )
            &&& left.log == state.log.push(EntryModel { text: name@ + " has left"@, created: now })
            &&& new_host.log == state.log.push(
                EntryModel { text: name@ + " is now hosting the room"@, created: now },
            )
            &&& hosting.log == state.log.push(
                EntryModel { text: "You are now hosting the room"@, created: now },
            )
            &&& same_but_for_log(state, joined)
            &&& same_but_for_log(state, left)
            &&& same_but_for_log(state, new_host)
            &&& same_but_for_log(state, hosting)
        }),
{
}

/// A chunk that is announced is yet to be downloaded, whatever was known of it before, and a chunk
/// that arrives is downloaded. No other chunk is affected, nor anything but chunks.
pub proof fn law_messages_update_chunks(
    state: StateModel,
    positions: Vec<ChunkPosition>,
    chunks: Vec<Chunk>,
    position: ChunkPosition,
    now: u64,
)
    ensures
        ({
            let announced = state.after_message(MessageKind::ChunkPositions(positions), now);
            let arrived = state.after_message(MessageKind::Chunks(chunks), now);
            let arrives = exists|i: int|
                0 <= i < chunks@.len() && (#[trigger] chunks@[i]).0 == position;
            &&& if positions@.contains(position) {
                announced.downloads.contains_key(position) && announced.downloads[position]
                    == ChunkDownload::NotDownloaded
            } else {
                same_download(state, announced, position)
            }
            &&& if arrives {
                arrived.downloads.contains_key(position) && arrived.downloads[position]
                    == ChunkDownload::Downloaded
            } else {
                same_download(state, arrived, position)
            }
            &&& same_but_for_downloads(state, announced)
            &&& same_but_for_downloads(state, arrived)
        }),
{
    let moved = chunk_positions(chunks@);
    assert(moved.contains(position) <==> exists|i: int|
        0 <= i < chunks@.len() && (#[trigger] chunks@[i]).0 == position) by {
        if moved.contains(position) {
            let i = choose|i: int| 0 <= i < moved.len() && moved[i] == position;
            assert(chunks@[i].0 == position);
        }
        if exists|i: int| 0 <= i < chunks@.len() && (#[trigger] chunks@[i]).0 == position {
            let i = choose|i: int| 0 <= i < chunks@.len() && (#[trigger] chunks@[i]).0 == position;
            assert(moved[i] == position);
        }
    }
}

/// Whether the same is known of a chunk in two states.
pub open spec fn same_download(
    first: StateModel,
    second: StateModel,
    position: ChunkPosition,
) -> bool {
    &&& first.downloads.contains_key(position) <==> second.downloads.contains_key(position)
    &&& first.downloads.contains_key(position) ==> first.downloads[position]
        == second.downloads[position]
}

/// The other messages change nothing.
pub proof fn law_other_messages_change_nothing(state: StateModel, kind: MessageKind, now: u64)
    requires
        kind is GetChunks || kind is Tool || kind is SelectTool,
    ensures
        state.after_message(kind, now) == state,
{
}

/// Chunks whose downloads reach a state are in that state, and are known from then on. Nothing else
/// is affected.
pub proof fn law_marked_chunks_are_in_their_state(
    state: StateModel,
    positions: Seq<ChunkPosition>,
    reached: ChunkDownload,
    position: ChunkPosition,
)
    ensures
        same_but_for_downloads(state, state.marked(positions, reached)),
        if positions.contains(position) {
            &&& state.marked(positions, reached).downloads.contains_key(position)
            &&& state.marked(positions, reached).downloads[position] == reached
        } else {
            same_download(state, state.marked(positions, reached), position)
        },
{
}

/// A visible chunk is put in the download queue if and only if it exists and nothing was done about
/// it yet.
pub proof fn law_untouched_chunks_are_queued(
    downloads: Map<ChunkPosition, ChunkDownload>,
    visible: Seq<ChunkPosition>,
    position: ChunkPosition,
)
    ensures
        to_queue(downloads, visible).contains(position) <==> {
            &&& visible.contains(position)
            &&& downloads.contains_key(position)
            &&& downloads[position] == ChunkDownload::NotDownloaded
        },
{
    law_wanted_chunks_are_queued(downloads, visible);
}

/// Chunks are queued in the order in which they are first visible.
pub proof fn law_chunks_are_queued_in_order(
    downloads: Map<ChunkPosition, ChunkDownload>,
    visible: Seq<ChunkPosition>,
    i: int,
    j: int,
    first: int,
)
    requires
        0 <= i < j < to_queue(downloads, visible).len(),
        0 <= first < visible.len(),
        visible[first] == to_queue(downloads, visible)[j],
    ensures
        exists|earlier: int|
            0 <= earlier < first && #[trigger] visible[earlier] == to_queue(downloads, visible)[i],
    decreases visible.len(),
{
    let queued = to_queue(downloads, visible);
    let before = visible.drop_last();
    let queued_before = to_queue(downloads, before);
    law_wanted_chunks_are_queued(downloads, visible);
    law_wanted_chunks_are_queued(downloads, before);
    if first < before.len() {
        assert(before[first] == queued[j]);
        assert(wanted(downloads, queued[j])) by {
            assert(queued.contains(queued[j]));
        }
        assert(queued_before.contains(queued[j])) by {
            assert(before.contains(queued[j]));
        }
        if j >= queued_before.len() {
            assert(queued.len() == queued_before.len() + 1);
            let k = choose|k: int|
                0 <= k < queued_before.len() && queued_before[k] == queued[j];
            assert(queued[k] == queued[j]);
        }
        law_chunks_are_queued_in_order(downloads, before, i, j, first);
        let earlier = choose|earlier: int|
            0 <= earlier < first && #[trigger] before[earlier] == queued_before[i];
        assert(visible[earlier] == queued[i]);
    } else {
        assert(i < queued_before.len());
        assert(queued_before[i] == queued[i]);
        assert(queued_before.contains(queued[i]));
        let earlier = choose|earlier: int|
            0 <= earlier < before.len() && before[earlier] == queued[i];
        assert(visible[earlier] == queued[i]);
    }
}

/// Text is logged after what was logged before. Nothing else is affected.
pub proof fn law_text_is_logged_last(state: StateModel, text: Seq<char>, now: u64)
    ensures
        state.logged(text, now).log.len() == state.log.len() + 1,
        state.logged(text, now).log.last().text == text,
        state.logged(text, now).log.last().created == now,
        state.logged(text, now).log.drop_last() == state.log,
        same_but_for_log(state, state.logged(text, now)),
{
    assert(state.logged(text, now).log.drop_last() =~= state.log);
}

/// Just those messages stay in the log that were logged less than five seconds ago, in the same
/// order. Nothing else is affected.
pub proof fn law_old_messages_are_dropped(state: StateModel, now: u64)
    ensures
        state.log_processed(now).log == state.log.filter(
            |entry: EntryModel| now < entry.created || now - entry.created < 5_000_000_000,
        ),
        same_but_for_log(state, state.log_processed(now)),
{
    assert(shown(now) =~= (|entry: EntryModel|
        now < entry.created || now - entry.created < 5_000_000_000));
}

/// The last line of the log is 8 pixels above the bottom edge, every other line is 16 pixels above
/// the next one, and all of them start 8 pixels from the left edge.
pub proof fn law_log_lines_are_stacked(line: int, lines: int)
    requires
        0 <= line < lines <= usize::MAX,
    ensures
        line_position(line, lines).left == 8,
        line_position(lines - 1, lines).above_bottom == 8,
        line + 1 < lines ==> line_position(line, lines).above_bottom == line_position(
            line + 1,
            lines,
        ).above_bottom + 16,
{
}

/// A tip says what it was made to say, and is visible until its duration has passed, provided that it
/// has any. Nothing else is affected.
pub proof fn law_tips_are_visible_for_their_duration(
    state: StateModel,
    text: Seq<char>,
    duration: u64,
    shown_at: u64,
    now: u64,
)
    ensures
        state.tipped(text, duration, shown_at).tip.text == text,
        state.tipped(text, duration, shown_at).tip.visible(now) <==> duration > 0 && now < shown_at
            + duration,
        state.tipped(text, duration, shown_at) == (StateModel {
            tip: state.tipped(text, duration, shown_at).tip,
            ..state
        }),
{
}

/// After the canvas was panned, the tip is visible for a tenth of a second. After it was zoomed,
/// the tip is visible for three seconds.
pub proof fn law_zoom_tips_stay_longer(state: StateModel, text: Seq<char>, shown_at: u64, now: u64)
    requires
        shown_at <= now,
    ensures
        state.tipped(text, PAN_TIP_DURATION, shown_at).tip.visible(now) <==> now - shown_at
            < 100_000_000,
        state.tipped(text, ZOOM_TIP_DURATION, shown_at).tip.visible(now) <==> now - shown_at
            < 3_000_000_000,
{
}

/// The mouse stops panning the canvas when the middle button is released, wherever that happens. It
/// starts when the button is pressed above the canvas and nothing else took that. Otherwise nothing
/// changes.
pub proof fn law_middle_button_pans(
    panning: bool,
    unclaimed: bool,
    button: ButtonState,
    hover: bool,
)
    ensures
        button == ButtonState::Released ==> !panning_after(panning, (unclaimed, button), hover),
        button == ButtonState::Pressed && unclaimed && hover ==> panning_after(
            panning,
            (unclaimed, button),
            hover,
        ),
        button != ButtonState::Released && !(button == ButtonState::Pressed && unclaimed && hover)
            ==> panning_after(panning, (unclaimed, button), hover) == panning,
{
}

/// Whether the mouse pans the canvas, where the canvas is to be saved, that it was saved, and that
/// a fatal error has occurred are noted, and change nothing else.
pub proof fn law_notes_change_nothing_else(
    state: StateModel,
    panning: bool,
    path: Seq<char>,
    now: u64,
)
    ensures
        state.with_panning(panning).panning == panning,
        state.with_panning(panning) == (StateModel {
            panning: state.with_panning(panning).panning,
            ..state
        }),
        state.saving_to(path).save_to_file == Some(path),
        state.saving_to(path) == (StateModel {
            save_to_file: state.saving_to(path).save_to_file,
            ..state
        }),
        state.saved(now).save_to_file is None,
        state.saved(now).last_autosave == now,
        state.saved(now) == (StateModel {
            save_to_file: state.saved(now).save_to_file,
            last_autosave: state.saved(now).last_autosave,
            ..state
        }),
        state.doomed().fatal_error,
        state.doomed() == (StateModel { fatal_error: state.doomed().fatal_error, ..state }),
{
}

/// The others are drawn with the tools that they use, in the order in which they are listed. Who
/// uses no tool, or one that is not known, is not drawn.
pub proof fn law_mates_are_drawn_with_their_tools(
    state: StateModel,
    peer_id: PeerId,
    tool: Option<String>,
)
    requires
        state.toolbar.names.len() <= usize::MAX,
    ensures
        ({
            let drawn = state.drawn_mate()((peer_id, tool));
            &&& drawn is Some <==> tool is Some && state.toolbar.names.contains(tool->0@)
            &&& drawn matches Some(mate) ==> {
                &&& mate.1 == peer_id
                &&& state.toolbar.names[mate.0.0 as int] == tool->0@
                &&& forall|i: int| 0 <= i < mate.0.0 ==> state.toolbar.names[i] != tool->0@
            }
        }),
{
    if let Some(name) = tool {
        law_tools_are_found_by_name(state.toolbar, name@);
    }
}

/// Painting starts with the selection tool, the brush, which is in use, and the action that saves
/// the canvas. Nothing is known of any chunks, nothing is to be saved, no tip is visible, the mouse
/// does not pan, and only hosts find messages in the log.
pub proof fn law_painting_starts_afresh(
    selection: Seq<char>,
    brush: Seq<char>,
    save_action: Seq<char>,
    is_host: bool,
    now: u64,
    later: u64,
)
    ensures
        ({
            let state = StateModel::initial(selection, brush, save_action, is_host, now);
            &&& state.toolbar.names == seq![selection, brush]
            &&& state.toolbar.current == ToolId(1)
            &&& state.actions == seq![save_action]
            &&& state.menu_height == menu_height(1)
            &&& state.save_to_file is None
            &&& state.last_autosave == now
            &&& forall|position: ChunkPosition| !state.downloads.contains_key(position)
            &&& !state.fatal_error
            &&& !state.tip.visible(later)
            &&& !state.panning
            &&& state.log == (if is_host {
                seq![
                    EntryModel { text: "Welcome to your room!"@, created: now },
                    EntryModel {
                        text: "To invite friends, send them the room ID shown in the bottom right corner of your screen."@,
                        created: now,
                    },
                ]
            } else {
                Seq::empty()
            })
        }),
{
    let state = StateModel::initial(selection, brush, save_action, is_host, now);
    assert(state.toolbar.names =~= seq![selection, brush]);
    assert(state.actions =~= seq![save_action]);
    if is_host {
        assert(state.log =~= seq![
            EntryModel { text: "Welcome to your room!"@, created: now },
            EntryModel {
                text: "To invite friends, send them the room ID shown in the bottom right corner of your screen."@,
                created: now,
            },
        ]);
    }
}

/// Tools and actions that are registered go last, and the second of the tools is in use. Nothing
/// else is affected, apart from the height of the menu.
pub proof fn law_registered_tools_go_last(
    state: StateModel,
    selection: Seq<char>,
    brush: Seq<char>,
    action: Seq<char>,
)
    requires
        state.toolbar.names.len() + 1 < usize::MAX,
    ensures
        ({
            let after = state.with_tools(selection, brush);
            &&& after.toolbar.names == state.toolbar.names + seq![selection, brush]
            &&& after.toolbar.current.0 == after.toolbar.names.len() - 1
            &&& same_but_for_toolbar(state, after)
        }),
        ({
            let after = state.with_action(action);
            &&& after.actions == state.actions + seq![action]
            &&& after.menu_height == menu_height(after.actions.len() as int)
            &&& after == StateModel {
                actions: after.actions,
                menu_height: after.menu_height,
                ..state
            }
        }),
{
    assert(state.with_tools(selection, brush).toolbar.names =~= state.toolbar.names + seq![
        selection,
        brush,
    ]);
    assert(state.with_action(action).actions =~= state.actions + seq![action]);
}

/// The overflow menu is 160 pixels high with one action in it, and grows by 36 pixels with each
/// further action, which is the height of a button and the gap below it.
pub proof fn law_menu_grows_with_its_actions(actions: int)
    ensures
        menu_height(1) == 160,
        menu_height(actions + 1) == menu_height(actions) + 36,
{
}

/// The amount of image data in packets adds up, and is counted in bytes.
pub proof fn law_image_data_adds_up(first: Seq<Chunk>, second: Seq<Chunk>, chunk: Chunk)
    ensures
        image_bytes(Seq::empty()) == 0,
        image_bytes(seq![chunk]) == chunk.1@.len(),
        image_bytes(first + second) == image_bytes(first) + image_bytes(second),
    decreases second.len(),
{
    reveal_with_fuel(image_bytes, 2);
    assert(seq![chunk].drop_last() =~= Seq::<Chunk>::empty());
    if second.len() == 0 {
        assert(first + second =~= first);
    } else {
        assert((first + second).drop_last() =~= first + second.drop_last());
        law_image_data_adds_up(first, second.drop_last(), chunk);
    }
}

/// The chunks that there is image data for are told one by one: each position counts if and only if
/// there is image data for it.
pub proof fn law_available_chunks_have_images(
    positions: Seq<ChunkPosition>,
    images: Seq<Option<Vec<u8>>>,
    position: ChunkPosition,
    image: Vec<u8>,
)
    requires
        positions.len() == images.len(),
    ensures
        available(Seq::empty(), Seq::empty()).len() == 0,
        available(positions.push(position), images.push(Some(image))) == available(
            positions,
            images,
        ).push((position, image)),
        available(positions.push(position), images.push(None)) == available(positions, images),
    decreases positions.len(),
{
    let with_image = images.push(Some(image));
    let without_image = images.push(None);
    let all = positions.push(position);
    reveal_with_fuel(available, 2);
    if positions.len() == 0 {
        assert(all.drop_first() =~= Seq::<ChunkPosition>::empty());
        assert(available(all, with_image) =~= available(positions, images).push((position, image)));
        assert(available(all, without_image) =~= available(positions, images));
    } else {
        law_available_chunks_have_images(
            positions.drop_first(),
            images.drop_first(),
            position,
            image,
        );
        assert(all.drop_first() =~= positions.drop_first().push(position));
        assert(with_image.drop_first() =~= images.drop_first().push(Some(image)));
        assert(without_image.drop_first() =~= images.drop_first().push(None));
        assert(available(all, with_image) =~= available(positions, images).push((position, image)));
        assert(available(all, without_image) =~= available(positions, images));
    }
}

/// A peer that asks for chunks is sent those that there is image data for, in the order in which it
/// asked for them, in packets that take no more chunks once they hold more than 128 KiB.
pub proof fn law_requested_chunks_are_sent(
    positions: Seq<ChunkPosition>,
    images: Seq<Option<Vec<u8>>>,
)
    requires
        positions.len() == images.len(),
    ensures
        ({
            let packets = SenderModel::start(positions).packets(images);
            &&& contents(packets) == available(positions, images)
            &&& packets.len() > 0
            &&& forall|i: int|
                0 <= i < packets.len() - 1 ==> image_bytes(#[trigger] packets[i]) > 128 * 1024
            &&& forall|i: int|
                0 <= i < packets.len() && (#[trigger] packets[i]).len() > 0 ==> image_bytes(
                    packets[i].drop_last(),
                ) <= 128 * 1024
        }),
{
    let sender = SenderModel::start(positions);
    law_all_chunks_are_sent(sender, images);
    law_packets_are_filled(sender, images);
    assert(sender.packet + available(positions, images) =~= available(positions, images));
}

/// All chunks of packets are those of the first ones, and then those of the others.
pub proof fn law_contents_add_up(first: Seq<Seq<Chunk>>, packet: Seq<Chunk>)
    ensures
        contents(Seq::empty()).len() == 0,
        contents(first.push(packet)) == contents(first) + packet,
    decreases first.len(),
{
    if first.len() == 0 {
        lemma_contents_prepend(packet, Seq::empty());
        assert(first.push(packet) =~= seq![packet] + Seq::<Seq<Chunk>>::empty());
        assert(contents(first.push(packet)) =~= contents(first) + packet);
    } else {
        law_contents_add_up(first.drop_first(), packet);
        assert(first.push(packet).drop_first() =~= first.drop_first().push(packet));
        assert(contents(first.push(packet)) =~= contents(first) + packet);
    }
}

/// The current tool is asked about the keys first, and if it acts upon them, nobody else is. The
/// other tools are asked one after the other, the first one that acts upon them or wants to be used
/// being the last one that is asked.
pub proof fn law_tools_are_asked_in_order(tool: ToolId, answer: KeyShortcutAction, tools: int)
    requires
        0 <= tool.0 < tools <= usize::MAX,
    ensures
        ShortcutStep::AskCurrent.next(KeyShortcutAction::Success, tools) == ShortcutStep::Done(
            None,
        ),
        answer != KeyShortcutAction::Success ==> ShortcutStep::AskCurrent.next(answer, tools)
            == ShortcutStep::AskGlobal(ToolId(0)),
        answer == KeyShortcutAction::Nothing && tool.0 + 1 < tools ==> ShortcutStep::AskGlobal(
            tool,
        ).next(answer, tools) == ShortcutStep::AskGlobal(ToolId((tool.0 + 1) as usize)),
        answer == KeyShortcutAction::Nothing && tool.0 + 1 == tools ==> ShortcutStep::AskGlobal(
            tool,
        ).next(answer, tools) == ShortcutStep::Done(None),
        ShortcutStep::AskGlobal(tool).next(KeyShortcutAction::Success, tools)
            == ShortcutStep::Done(None),
        ShortcutStep::AskGlobal(tool).next(KeyShortcutAction::SwitchToThisTool, tools)
            == ShortcutStep::Done(Some(tool)),
{
}

/// The parts of a frame come in the order in which they depend on each other: messages arrive
/// before they are acted upon, chunks are asked for before errors are logged, and what is drawn
/// later is on top of what is drawn earlier.
pub proof fn law_frames_are_processed_in_order(stage: Stage)
    ensures
        frame_work().no_duplicates(),
        frame_work().contains(stage),
        frame_work()[0] == Stage::Actions,
        frame_work()[1] == Stage::Communicate,
        frame_work()[2] == Stage::Messages,
        frame_work()[3] == Stage::ChunkRequests,
        frame_work()[4] == Stage::Errors,
        frame_work()[5] == Stage::Layout,
        frame_work()[6] == Stage::Canvas,
        frame_work()[7] == Stage::Toolbar,
        frame_work()[8] == Stage::Windows,
        frame_work()[9] == Stage::BottomBar,
        frame_work()[10] == Stage::OverflowMenu,
        frame_work().len() == 11,
{
    let work = frame_work();
    let place: int = match stage {
        Stage::Actions => 0,
        Stage::Communicate => 1,
        Stage::Messages => 2,
        Stage::ChunkRequests => 3,
        Stage::Errors => 4,
        Stage::Layout => 5,
        Stage::Canvas => 6,
        Stage::Toolbar => 7,
        Stage::Windows => 8,
        Stage::BottomBar => 9,
        Stage::OverflowMenu => 10,
    };
    assert(work[place] == stage);
}

/// On the canvas, input is acted upon before anything is drawn, the canvas is drawn below what is
/// on it, and the network comes last.
pub proof fn law_canvas_is_processed_in_order(stage: CanvasStage)
    ensures
        canvas_work().no_duplicates(),
        canvas_work().contains(stage),
        canvas_work()[0] == CanvasStage::Pan,
        canvas_work()[1] == CanvasStage::Zoom,
        canvas_work()[2] == CanvasStage::KeyShortcuts,
        canvas_work()[3] == CanvasStage::ToolInput,
        canvas_work()[4] == CanvasStage::DrawCanvas,
        canvas_work()[5] == CanvasStage::DrawMates,
        canvas_work()[6] == CanvasStage::DrawOverlays,
        canvas_work()[7] == CanvasStage::DrawTip,
        canvas_work()[8] == CanvasStage::DrawLog,
        canvas_work()[9] == CanvasStage::Network,
        canvas_work().len() == 10,
{
    let work = canvas_work();
    let place: int = match stage {
        CanvasStage::Pan => 0,
        CanvasStage::Zoom => 1,
        CanvasStage::KeyShortcuts => 2,
        CanvasStage::ToolInput => 3,
        CanvasStage::DrawCanvas => 4,
        CanvasStage::DrawMates => 5,
        CanvasStage::DrawOverlays => 6,
        CanvasStage::DrawTip => 7,
        CanvasStage::DrawLog => 8,
        CanvasStage::Network => 9,
    };
    assert(work[place] == stage);
}

/// What text says is what it is named after: the room ID, the host's nickname if it is known, the
/// name of the very action, and the tip.
pub proof fn law_captions_say_what_they_name(texts: TextsModel, action: usize)
    ensures
        Caption::RoomIdHeading.says(texts) == "Room ID"@,
        Caption::RoomId.says(texts) == texts.room_id,
        Caption::YouAreTheHost.says(texts) == "You are the host"@,
        texts.host_name is Some ==> Caption::HostName.says(texts) == texts.host_name->0,
        texts.host_name is None ==> Caption::HostName.says(texts) == "<unknown>"@,
        Caption::IsYourHost.says(texts) == "is your host"@,
        Caption::ActionName(action).says(texts) == texts.actions[action as int],
        Caption::Tip.says(texts) == texts.tip,
{
}

/// The overflow menu tells hosts that they are the host, and all others who their host is.
pub proof fn law_overflow_menu_tells_the_host(is_host: bool, actions: nat)
    ensures
        ({
            let menu = overflow_menu_elements(is_host, actions);
            &&& is_host <==> menu.contains(
                Element::HorizontalLabel(Font::Sans, Caption::YouAreTheHost),
            )
            &&& is_host <==> menu.contains(Element::Picture(Icon::Host))
            &&& !is_host <==> menu.contains(
                Element::TruncatedLabel(Font::SansBold, Caption::HostName),
            )
            &&& !is_host <==> menu.contains(Element::VerticalLabel(Font::Sans, Caption::IsYourHost))
            &&& !is_host <==> menu.contains(Element::Picture(Icon::Client))
        }),
{
    let menu = overflow_menu_elements(is_host, actions);
    let start = room_id_elements().len() as int;
    let header = room_id_elements() + host_elements(is_host) + separator_elements();
    assert forall|i: int| 0 <= i < menu.len() implies #[trigger] menu[i] == (if i < start {
        room_id_elements()[i]
    } else if i < start + host_elements(is_host).len() {
        host_elements(is_host)[i - start]
    } else if i < header.len() {
        separator_elements()[i - start - host_elements(is_host).len()]
    } else {
        action_elements(actions)[i - header.len()]
    }) by {}
    if is_host {
        assert(menu[start + 1] == Element::Picture(Icon::Host));
        assert(menu[start + 3] == Element::HorizontalLabel(Font::Sans, Caption::YouAreTheHost));
    } else {
        assert(menu[start + 1] == Element::Picture(Icon::Client));
        assert(menu[start + 5] == Element::TruncatedLabel(Font::SansBold, Caption::HostName));
        assert(menu[start + 7] == Element::VerticalLabel(Font::Sans, Caption::IsYourHost));
    }
}

/// A click on the menu button opens or closes the menu, a click on the button of an action performs
/// that very action, and neither of them changes the state. A click on the copy button copies the
/// room ID that is shown, and logs that.
pub proof fn law_clicks_do_what_the_button_says(
    state: StateModel,
    texts: TextsModel,
    button: Button,
    now: u64,
    command: Command,
    after: StateModel,
)
    requires
        state.click_result(button, texts, now, command, after),
    ensures
        button == Button::Menu <==> command == Command::ToggleOverflowMenu,
        button == Button::CopyRoomId <==> command is CopyToClipboard,
        command matches Command::CopyToClipboard(text) ==> {
            &&& text@ == texts.room_id
            &&& after.log == state.log.push(
                EntryModel { text: "Room ID copied to clipboard"@, created: now },
            )
            &&& same_but_for_log(state, after)
        },
        button matches Button::Action(action) ==> command == Command::PerformAction(action),
        button != Button::CopyRoomId ==> after == state,
{
}

/// On a network tick, the tool that is in use gets to send its data first, whatever else is due. If
/// the canvas is to be saved, it is saved to just that file, once, and no chunks are queued.
/// Otherwise nothing is saved, and the chunks that are visible, known and untouched go behind the
/// requests that there are already.
pub proof fn law_ticks_save_or_download(
    state: StateModel,
    requests: Seq<ChunkPosition>,
    visible: Seq<ChunkPosition>,
    now: u64,
    script: Seq<Step>,
    queued: Seq<ChunkPosition>,
    requests_after: Seq<ChunkPosition>,
    after: StateModel,
    position: ChunkPosition,
)
    requires
        state.tick_result(requests, visible, now, script, queued, requests_after, after),
    ensures
        script[0].command == Command::NetworkSend(state.toolbar.current),
        forall|i: int| 0 <= i < script.len() ==> (#[trigger] script[i]).on_error == OnError::Report,
        after.save_to_file is None,
        after == (StateModel {
            save_to_file: after.save_to_file,
            last_autosave: after.last_autosave,
            downloads: after.downloads,
            ..state
        }),
        requests_after == requests + queued,
        state.save_to_file matches Some(path) ==> {
            &&& script.len() == 2
            &&& script[1].command matches Command::SaveCanvas(file) && file@ == path
            &&& queued.len() == 0
            &&& after.downloads == state.downloads
            &&& after.last_autosave == now
        },
        state.save_to_file is None ==> {
            &&& script.len() == 1
            &&& after.last_autosave == state.last_autosave
            &&& queued.no_duplicates()
            &&& queued.contains(position) <==> visible.contains(position)
                && state.downloads.contains_key(position) && state.downloads[position]
                == ChunkDownload::NotDownloaded
            &&& if queued.contains(position) {
                after.downloads.contains_key(position) && after.downloads[position]
                    == ChunkDownload::Queued
            } else {
                same_download(state, after, position)
            }
        },
{
    law_wanted_chunks_are_queued(state.downloads, visible);
    assert(requests + Seq::<ChunkPosition>::empty() =~= requests);
}

/// All chunks that there are requests for are asked for at once, in the order of the requests, and
/// are marked as requested. Nothing is done if there are no requests, and nothing else is affected.
pub proof fn law_all_requests_are_sent_at_once(
    state: StateModel,
    requests: Seq<ChunkPosition>,
    script: Seq<Step>,
    after: StateModel,
    position: ChunkPosition,
)
    requires
        state.request_result(requests, script, after),
    ensures
        script.len() == (if requests.len() > 0 {
            1int
        } else {
            0
        }),
        requests.len() > 0 ==> script[0].on_error == OnError::Report && (
        script[0].command matches Command::DownloadChunks(needed_chunks) && needed_chunks@
            == requests),
        same_but_for_downloads(state, after),
        if requests.contains(position) {
            after.downloads.contains_key(position) && after.downloads[position]
                == ChunkDownload::Requested
        } else {
            same_download(state, after, position)
        },
{
}

/// Errors are logged after words that tell where they come from. Successes are not logged.
pub proof fn law_errors_are_logged(state: StateModel, error: String, now: u64)
    ensures
        state.after_action(Ok(()), now) == state,
        state.after_background_action(Ok(()), now) == state,
        state.after_action(Err(error), now).log == state.log.push(
            EntryModel { text: "error while performing action: "@ + error@, created: now },
        ),
        state.after_background_action(Err(error), now).log == state.log.push(
            EntryModel { text: "error while processing action: "@ + error@, created: now },
        ),
        state.after_error(error@, now).log == state.log.push(
            EntryModel { text: "error: "@ + error@, created: now },
        ),
        same_but_for_log(state, state.after_action(Err(error), now)),
        same_but_for_log(state, state.after_background_action(Err(error), now)),
        same_but_for_log(state, state.after_error(error@, now)),
{
}

/// The bottom bar is as wide as the screen and 32 pixels high. The canvas is as wide as the screen
/// and takes the rest of its height. The overflow menu is 256 pixels wide, and as high as it was
/// made to be.
pub proof fn law_canvas_takes_the_rest_of_the_screen(overflow_menu_height: u128)
    ensures
        area_size(Area::BottomBar, overflow_menu_height as int) == (
            Dimension::Percentage(100),
            Dimension::Constant(32),
        ),
        area_size(Area::Canvas, overflow_menu_height as int) == (
            Dimension::Percentage(100),
            Dimension::Rest(1),
        ),
        area_size(Area::OverflowMenu, overflow_menu_height as int) == (
            Dimension::Constant(256),
            Dimension::Constant(overflow_menu_height),
        ),
{
}

/// The bottom bar is at the bottom of the screen, and the canvas is on top of it. The overflow menu
/// is in the lower right corner of the canvas, 8 pixels from its edges.
pub proof fn law_canvas_is_above_the_bottom_bar()
    ensures
        screen_layout().len() == 3,
        screen_layout()[0] == Placement::Stack(Area::BottomBar),
        screen_layout()[1] == Placement::Stack(Area::Canvas),
        screen_layout()[2] matches Placement::Align {
            area,
            within,
            padding,
            horizontal,
            vertical,
        } && area == Area::OverflowMenu && within == Area::Canvas && padding == 8 && horizontal
            == AlignH::Right && vertical == AlignV::Bottom,
{
}

/// The button that an element is, if any.
pub open spec fn button_of(element: Element) -> Option<Button> {
    match element {
        Element::IconButton { button, .. } => Some(button),
        Element::ActionButton { action, .. } => Some(Button::Action(action)),
        _ => None,
    }
}

/// The overflow menu has one button that copies the room ID, and one for each action, in order. It
/// has no other buttons.
pub proof fn law_overflow_menu_has_no_other_buttons(is_host: bool, actions: nat, i: int)
    requires
        0 <= i < overflow_menu_elements(is_host, actions).len(),
        actions <= usize::MAX,
    ensures
        ({
            let menu = overflow_menu_elements(is_host, actions);
            let first = menu.len() - 2 * actions;
            &&& button_of(menu[i]) == (if i == 7 {
                Some(Button::CopyRoomId)
            } else if i >= first && (i - first) % 2 == 0 {
                Some(Button::Action(((i - first) / 2) as usize))
            } else {
                None
            })
            &&& i >= first && (i - first) % 2 == 1 ==> menu[i] == Element::Space(4)
        }),
{
    let menu = overflow_menu_elements(is_host, actions);
    let start = room_id_elements().len() as int;
    let header = room_id_elements() + host_elements(is_host) + separator_elements();
    if i >= header.len() {
        assert(menu[i] == action_elements(actions)[i - header.len()]);
    } else if i >= start + host_elements(is_host).len() {
        assert(menu[i] == separator_elements()[i - start - host_elements(is_host).len()]);
    } else if i >= start {
        assert(menu[i] == host_elements(is_host)[i - start]);
    } else {
        assert(menu[i] == room_id_elements()[i]);
    }
}

/// The bottom bar shows what the tool that is in use has to show, and then the menu button at its
/// right end. It has no other buttons.
pub proof fn law_bottom_bar_has_the_menu_button(i: int)
    requires
        0 <= i < bottom_bar_elements().len(),
    ensures
        bottom_bar_elements().len() == 6,
        bottom_bar_elements()[0] == Element::FillPanel,
        bottom_bar_elements()[1] == (Element::Pad { horizontal: 8, vertical: 0 }),
        bottom_bar_elements()[2] == Element::ToolOptions,
        bottom_bar_elements()[3] == (Element::Push {
            width: Extent::Remaining,
            height: Extent::Full,
            layout: Layout::HorizontalRev,
        }),
        bottom_bar_elements()[4] == (Element::IconButton {
            button: Button::Menu,
            icon: Icon::Menu,
            button_height: Extent::Full,
            corner_radius: 0,
        }),
        button_of(bottom_bar_elements()[i]) == (if i == 4 {
            Some(Button::Menu)
        } else {
            None
        }),
{
}

/// The tip is white text in the middle of a translucent black box of 72 by 32 pixels, which is 16
/// pixels from the edges of the canvas.
pub proof fn law_tip_is_in_a_box()
    ensures
        tip_elements().len() == 7,
        tip_elements()[0] == (Element::Push {
            width: Extent::Full,
            height: Extent::Full,
            layout: Layout::Freeform,
        }),
        tip_elements()[1] == (Element::Pad { horizontal: 16, vertical: 16 }),
        tip_elements()[2] == (Element::Push {
            width: Extent::Pixels(72),
            height: Extent::Pixels(32),
            layout: Layout::Freeform,
        }),
        tip_elements()[3] == Element::FillBlack(192),
        tip_elements()[4] == Element::WhiteLabel(Font::Sans, Caption::Tip),
{
}

/// The button of an action shows the picture and the name of that very action.
pub proof fn law_action_buttons_show_their_action(action: usize)
    ensures
        action_button_element(action) == (Element::ActionButton {
            action,
            button_height: Extent::Pixels(32),
            corner_radius: 2,
        }),
        action_button_elements(action).len() == 5,
        action_button_elements(action)[0] == (Element::Push {
            width: Extent::Full,
            height: Extent::Full,
            layout: Layout::Horizontal,
        }),
        action_button_elements(action)[1] == Element::Picture(Icon::Action(action)),
        action_button_elements(action)[2] == Element::Space(4),
        action_button_elements(action)[3] == Element::HorizontalLabel(
            Font::Sans,
            Caption::ActionName(action),
        ),
{
}

/// The overflow menu shows the room ID below its heading, beside the button that copies it.
pub proof fn law_room_id_is_below_its_heading()
    ensures
        ({
            let part = room_id_elements();
            &&& part.len() == 13
            &&& part[0] == Element::Pad { horizontal: 8, vertical: 8 }
            &&& part[1] == Element::Push {
                width: Extent::Full,
                height: Extent::Pixels(0),
                layout: Layout::Vertical,
            }
            &&& part[2] == Element::Pad { horizontal: 8, vertical: 0 }
            &&& part[3] == Element::Space(8)
            &&& part[4] == Element::VerticalLabel(Font::Sans, Caption::RoomIdHeading)
            &&& part[5] == Element::Space(8)
            &&& part[6] == Element::Push {
                width: Extent::Full,
                height: Extent::Pixels(32),
                layout: Layout::HorizontalRev,
            }
            &&& part[7] == Element::IconButton {
                button: Button::CopyRoomId,
                icon: Icon::Copy,
                button_height: Extent::Full,
                corner_radius: 0,
            }
            &&& part[8] == Element::CenteredLabel(Font::Monospace(24), Caption::RoomId)
            &&& part[9] == Element::Pop
            &&& part[10] == Element::Fit
            &&& part[11] == Element::Pop
            &&& part[12] == Element::Space(4)
        }),
{
}

/// Who the host is stands in a row of 32 pixels behind a picture. All but the host see the host's
/// name above the words that it belongs to.
pub proof fn law_host_is_shown_in_a_row(is_host: bool)
    ensures
        ({
            let part = host_elements(is_host);
            &&& part.len() == (if is_host {
                5int
            } else {
                10
            })
            &&& part[0] == Element::Push {
                width: Extent::Full,
                height: Extent::Pixels(32),
                layout: Layout::Horizontal,
            }
            &&& part[1] == Element::Picture(if is_host {
                Icon::Host
            } else {
                Icon::Client
            })
            &&& part[2] == Element::Space(4)
            &&& is_host ==> part[3] == Element::HorizontalLabel(Font::Sans, Caption::YouAreTheHost)
            &&& !is_host ==> {
                &&& part[3] == Element::Push {
                    width: Extent::Remaining,
                    height: Extent::TwoLines(4),
                    layout: Layout::Vertical,
                }
                &&& part[4] == Element::Align(AlignH::Right, AlignV::Middle)
                &&& part[5] == Element::TruncatedLabel(Font::SansBold, Caption::HostName)
                &&& part[6] == Element::Space(4)
                &&& part[7] == Element::VerticalLabel(Font::Sans, Caption::IsYourHost)
                &&& part[8] == Element::Pop
            }
            &&& part.last() == Element::Pop
        }),
{
}

/// The parts of the overflow menu are separated by a line of one pixel, 8 pixels from both of them.
pub proof fn law_separator_is_a_thin_line()
    ensures
        ({
            let part = separator_elements();
            &&& part.len() == 5
            &&& part[0] == Element::Space(8)
            &&& part[1] == Element::Push {
                width: Extent::Full,
                height: Extent::Pixels(0),
                layout: Layout::Freeform,
            }
            &&& part[2] == Element::BorderTop(1)
            &&& part[3] == Element::Pop
            &&& part[4] == Element::Space(8)
        }),
{
}

/// The overflow menu shows the room ID first, then who the host is, then a line, and then the
/// actions.
pub proof fn law_overflow_menu_is_in_order(is_host: bool, actions: nat, i: int)
    requires
        0 <= i < overflow_menu_elements(is_host, actions).len(),
    ensures
        ({
            let menu = overflow_menu_elements(is_host, actions);
            let host: int = if is_host {
                5
            } else {
                10
            };
            &&& menu.len() == 13 + host + 5 + 2 * actions
            &&& i < 13 ==> menu[i] == room_id_elements()[i]
            &&& 13 <= i < 13 + host ==> menu[i] == host_elements(is_host)[i - 13]
            &&& 13 + host <= i < 18 + host ==> menu[i] == separator_elements()[i - 13 - host]
            &&& 18 + host <= i ==> menu[i] == action_elements(actions)[i - 18 - host]
        }),
{
}

} // verus!
