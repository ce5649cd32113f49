//! Log messages in the lower left corner, and the tip in the upper left corner.
//!
//! The messages are errors, and people that have joined or left. The tip is the panning and zoom
//! level. Points in time and durations are in nanoseconds; points in time count from a moment that
//! never changes while the program runs.

use vstd::prelude::*;

verus! {

/// How long a message stays in the log.
pub const LOG_LIFETIME: u64 = 5_000_000_000;

/// How far apart the lines of the log are.
pub const LOG_LINE_HEIGHT: u128 = 16;

/// How far above the bottom edge the last line of the log is.
pub const LOG_MARGIN: u128 = 8;

/// How far from the left edge the lines of the log start.
pub const LOG_INDENT: u128 = 8;

/// How opaque the lines of the log are.
pub const LOG_OPACITY: u8 = 240;

/// Where a line of the log is drawn: where its lower left corner is.
#[derive(Clone, Copy, Debug, PartialEq, Eq, Structural)]
pub struct LinePosition {
    /// The distance from the left edge.
    pub left: u128,
    /// The distance from the bottom edge.
    pub above_bottom: u128,
}

/// Where a line is drawn in a log of the given number of lines, the first line on top.
pub open spec fn line_position(line: int, lines: int) -> LinePosition {
    LinePosition {
        left: LOG_INDENT,
        above_bottom: (LOG_MARGIN + (lines - 1 - line) * LOG_LINE_HEIGHT) as u128,
    }
}

/// The time that has passed at `now` since `moment`.
pub open spec fn elapsed(moment: u64, now: u64) -> int {
    if now >= moment {
        now - moment
    } else {
        0
    }
}

/// Returns the time that has passed at `now` since `moment`.
fn time_since(moment: u64, now: u64) -> (duration: u64)
    ensures
        duration == elapsed(moment, now),
{
    if now >= moment {
        now - moment
    } else {
        0
    }
}

/// A message, and when it was logged.
#[verifier::ext_equal]
pub struct EntryModel {
    pub text: Seq<char>,
    pub created: u64,
}

/// Tells the messages that are still shown.
pub open spec fn shown(now: u64) -> spec_fn(EntryModel) -> bool {
    |entry: EntryModel| elapsed(entry.created, now) < LOG_LIFETIME
}

/// A message, and when it was logged.
pub struct LogEntry {
    pub text: String,
    pub created: u64,
}

impl View for LogEntry {
    type V = EntryModel;

    open spec fn view(&self) -> EntryModel {
        EntryModel { text: self.text@, created: self.created }
    }
}

/// The log messages, the oldest first.
pub struct Log {
    entries: Vec<LogEntry>,
}

impl View for Log {
    type V = Seq<EntryModel>;

    closed spec fn view(&self) -> Seq<EntryModel> {
        self.entries@.map_values(|entry: LogEntry| entry@)
    }
}

impl Log {
    /// Creates a log without messages.
    pub fn new() -> (log: Self)
        ensures
            log@ == Seq::<EntryModel>::empty(),
    {
        let log = Log { entries: Vec::new() };
        assert(log@ =~= Seq::<EntryModel>::empty());
        log
    }

    /// Logs a message.
    pub fn push(&mut self, text: String, now: u64)
        ensures
            final(self)@ == old(self)@.push(EntryModel { text: text@, created: now }),
    {
        self.entries.push(LogEntry { text, created: now });
        assert(self@ =~= old(self)@.push(EntryModel { text: text@, created: now }));
    }

    /// Drops the messages that are not shown anymore.
    pub fn drop_expired(&mut self, now: u64)
        ensures
            final(self)@ == old(self)@.filter(shown(now)),
    {
        let ghost before = self@;
        let ghost mut seen: int = 0;
        let mut index: usize = 0;
        assert(before.take(0).filter(shown(now)) =~= Seq::<EntryModel>::empty()) by {
            reveal(Seq::filter);
        }
        assert(self@ =~= before.take(0).filter(shown(now)) + before.skip(0));
        while index < self.entries.len()
            invariant
                0 <= seen <= before.len(),
                index <= self.entries.len(),
                index == before.take(seen).filter(shown(now)).len(),
                self@ == before.take(seen).filter(shown(now)) + before.skip(seen),
                self@.len() == self.entries.len(),
            decreases self.entries.len() - index,
        {
            let ghost kept = before.take(seen).filter(shown(now));
            let ghost entry = before[seen];
            proof {
                assert(self@[index as int] == before.skip(seen)[0]);
                assert(entry == self.entries@[index as int]@);
                before.take(seen).lemma_filter_push(entry, shown(now));
                assert(before.take(seen).push(entry) =~= before.take(seen + 1));
                assert(before.skip(seen) =~= seq![entry] + before.skip(seen + 1));
            }
            let ghost current = self@;
            if time_since(self.entries[index].created, now) < LOG_LIFETIME {
                index += 1;
                proof {
                    assert(kept + before.skip(seen) =~= kept.push(entry) + before.skip(seen + 1));
                }
            } else {
                self.entries.remove(index);
                proof {
                    assert(self@ =~= current.remove(index as int));
                    assert(self@ =~= kept + before.skip(seen + 1));
                }
            }
            proof {
                seen = seen + 1;
            }
        }
        proof {
            assert(seen == before.len());
            assert(before.take(seen) =~= before);
            assert(self@ =~= before.filter(shown(now)));
        }
    }

    /// Returns the number of messages.
    pub fn len(&self) -> (len: usize)
        ensures
            len == self@.len(),
    {
        self.entries.len()
    }

    /// Returns the text of a message.
    pub fn text(&self, index: usize) -> (text: &String)
        requires
            index < self@.len(),
        ensures
            text@ == self@[index as int].text,
    {
        &self.entries[index].text
    }

    /// Returns where each line is drawn.
    pub fn line_positions(&self) -> (positions: Vec<LinePosition>)
        ensures
            positions@ == Seq::new(
                self@.len(),
                |line: int| line_position(line, self@.len() as int),
            ),
    {
        let mut positions: Vec<LinePosition> = Vec::new();
        let len: usize = self.entries.len();
        let mut index: usize = 0;
        while index < len
            invariant
                len == self@.len(),
                index <= len,
                positions@.len() == index,
                forall|i: int|
                    0 <= i < index ==> #[trigger] positions@[i] == line_position(i, len as int),
            decreases len - index,
        {
            positions.push(
                LinePosition {
                    left: LOG_INDENT,
                    above_bottom: LOG_MARGIN + (len - 1 - index) as u128 * LOG_LINE_HEIGHT,
                },
            );
            index += 1;
        }
        positions
    }
}

/// A small tip in the upper left corner.
#[verifier::ext_equal]
pub struct TipModel {
    pub text: Seq<char>,
    pub created: u64,
    pub visible_duration: u64,
}

impl TipModel {
    /// Whether the tip is visible.
    pub open spec fn visible(self, now: u64) -> bool {
        elapsed(self.created, now) < self.visible_duration
    }
}

/// A small tip in the upper left corner.
pub struct Tip {
    pub text: String,
    pub created: u64,
    pub visible_duration: u64,
}

impl View for Tip {
    type V = TipModel;

    open spec fn view(&self) -> TipModel {
        TipModel {
            text: self.text@,
            created: self.created,
            visible_duration: self.visible_duration,
        }
    }
}

impl Tip {
    /// Returns the text, while the tip is visible.
    pub fn visible_text(&self, now: u64) -> (text: Option<&String>)
        ensures
            match text {
                Some(text) => self@.visible(now) && text@ == self@.text,
                None => !self@.visible(now),
            },
    {
        if time_since(self.created, now) < self.visible_duration {
            Some(&self.text)
        } else {
            None
        }
    }
}

} // verus!
