//! Key shortcuts of tools.

use vstd::prelude::*;

use crate::paint::toolbar::ToolId;

verus! {

/// What a tool has made of the keys that are pressed.
#[derive(Clone, Copy, Debug, PartialEq, Eq, Structural)]
pub enum KeyShortcutAction {
    /// The keys mean nothing to it.
    Nothing,
    /// It has acted upon the keys.
    Success,
    /// It wants to be used.
    SwitchToThisTool,
}

/// Who is asked next what it makes of the keys.
#[derive(Clone, Copy, Debug, PartialEq, Eq, Structural)]
pub enum ShortcutStep {
    /// The current tool, about the shortcuts that it has while it is in use.
    AskCurrent,
    /// A tool, about the shortcuts that it always has.
    AskGlobal(ToolId),
    /// Nobody. Switch to the tool, if there is one.
    Done(Option<ToolId>),
}

impl ShortcutStep {
    /// The step that follows when the first `asked` of `tools` tools made nothing of the keys.
    pub open spec fn ask_from(asked: int, tools: int) -> Self {
        if asked < tools {
            ShortcutStep::AskGlobal(ToolId(asked as usize))
        } else {
            ShortcutStep::Done(None)
        }
    }

    /// The step that follows an answer.
    pub open spec fn next(self, answer: KeyShortcutAction, tools: int) -> Self {
        match self {
            ShortcutStep::AskCurrent => match answer {
                KeyShortcutAction::Success => ShortcutStep::Done(None),
                _ => Self::ask_from(0, tools),
            },
            ShortcutStep::AskGlobal(tool) => match answer {
                KeyShortcutAction::Nothing => Self::ask_from(tool.0 + 1, tools),
                KeyShortcutAction::Success => ShortcutStep::Done(None),
                KeyShortcutAction::SwitchToThisTool => ShortcutStep::Done(Some(tool)),
            },
            ShortcutStep::Done(_) => self,
        }
    }

    /// The step that is reached once all questions are answered, where `current` is the answer of
    /// the current tool, and `global` are the answers that the tools have to the other question.
    pub open spec fn outcome(
        self,
        current: KeyShortcutAction,
        global: Seq<KeyShortcutAction>,
    ) -> Self
        decreases
                match self {
                    ShortcutStep::AskCurrent => global.len() as int + 1,
                    ShortcutStep::AskGlobal(tool) => global.len() - tool.0,
                    ShortcutStep::Done(_) => 0int,
                },
    {
        match self {
            ShortcutStep::AskCurrent => self.next(current, global.len() as int).outcome(
                current,
                global,
            ),
            ShortcutStep::AskGlobal(tool) => if tool.0 < global.len() <= usize::MAX {
                self.next(global[tool.0 as int], global.len() as int).outcome(current, global)
            } else {
                ShortcutStep::Done(None)
            },
            ShortcutStep::Done(_) => self,
        }
    }

    /// Starts with the current tool. Skips all shortcuts while a window has the focus.
    pub fn start(window_has_focus: bool) -> (step: Self)
        ensures
            step == (if window_has_focus {
                ShortcutStep::Done(None)
            } else {
                ShortcutStep::AskCurrent
            }),
    {
        if window_has_focus {
            ShortcutStep::Done(None)
        } else {
            ShortcutStep::AskCurrent
        }
    }

    /// Decides who is asked next, given the answer and the number of tools.
    pub fn answered(self, answer: KeyShortcutAction, tools: usize) -> (step: Self)
        ensures
            step == self.next(answer, tools as int),
    {
        let asked: usize = match (self, answer) {
            (ShortcutStep::Done(_), _) => {
                return self;
            },
            (_, KeyShortcutAction::Success) => {
                return ShortcutStep::Done(None);
            },
            (ShortcutStep::AskCurrent, _) => 0,
            (ShortcutStep::AskGlobal(tool), KeyShortcutAction::SwitchToThisTool) => {
                return ShortcutStep::Done(Some(tool));
            },
            (ShortcutStep::AskGlobal(tool), KeyShortcutAction::Nothing) => {
                if tool.0 >= tools {
                    return ShortcutStep::Done(None);
                }
                tool.0 + 1
            },
        };
        if asked < tools {
            ShortcutStep::AskGlobal(ToolId(asked))
        } else {
            ShortcutStep::Done(None)
        }
    }
}

} // verus!
