//! The tools that can be painted with, and the one that is in use.

use vstd::prelude::*;

verus! {

/// An ID unique to a tool of a toolbar.
#[derive(Clone, Copy, Debug, PartialEq, Eq, Structural)]
pub struct ToolId(pub usize);

/// The names of the tools, and the current tool.
#[verifier::ext_equal]
pub struct ToolbarModel {
    pub names: Seq<Seq<char>>,
    pub current: ToolId,
}

impl ToolbarModel {
    /// Whether the ID is that of a tool.
    pub open spec fn has(self, tool: ToolId) -> bool {
        tool.0 < self.names.len()
    }

    /// The first tool of the given name.
    pub open spec fn tool_by_name(self, name: Seq<char>) -> Option<ToolId> {
        match self.names.index_of_first(name) {
            Some(index) => Some(ToolId(index as usize)),
            None => None,
        }
    }
}

/// The tools, and the one that is in use.
pub struct Toolbar {
    names: Vec<String>,
    current: ToolId,
}

impl View for Toolbar {
    type V = ToolbarModel;

    closed spec fn view(&self) -> ToolbarModel {
        ToolbarModel {
            names: self.names@.map_values(|name: String| name@),
            current: self.current,
        }
    }
}

impl Toolbar {
    /// Creates a toolbar without tools.
    pub fn new() -> (toolbar: Self)
        ensures
            toolbar@ == (ToolbarModel { names: Seq::empty(), current: ToolId(0) }),
    {
        let toolbar = Toolbar { names: Vec::new(), current: ToolId(0) };
        assert(toolbar@ =~= (ToolbarModel { names: Seq::empty(), current: ToolId(0) }));
        toolbar
    }

    /// Adds a tool, and returns its ID.
    pub fn add_tool(&mut self, name: String) -> (tool: ToolId)
        ensures
            tool.0 == old(self)@.names.len(),
            final(self)@ == (ToolbarModel {
                names: old(self)@.names.push(name@),
                ..old(self)@
            }),
    {
        let tool = ToolId(self.names.len());
        self.names.push(name);
        assert(self@ =~= (ToolbarModel { names: old(self)@.names.push(name@), ..old(self)@ }));
        tool
    }

    /// Returns the current tool.
    pub fn current_tool(&self) -> (tool: ToolId)
        ensures
            tool == self@.current,
    {
        self.current
    }

    /// Makes a tool the current one.
    pub fn set_current_tool(&mut self, tool: ToolId)
        requires
            old(self)@.has(tool),
        ensures
            final(self)@ == (ToolbarModel { current: tool, ..old(self)@ }),
    {
        self.current = tool;
    }

    /// Returns the first tool of the given name.
    pub fn tool_by_name(&self, name: &String) -> (tool: Option<ToolId>)
        ensures
            tool == self@.tool_by_name(name@),
    {
        let ghost names = self@.names;
        proof {
            names.index_of_first_ensures(name@);
        }
        let mut index: usize = 0;
        while index < self.names.len()
            invariant
                index <= self.names.len(),
                names == self@.names,
                names.len() == self.names@.len(),
                forall|i: int| 0 <= i < index ==> names[i] != name@,
            decreases self.names.len() - index,
        {
            assert(names[index as int] == self.names@[index as int]@);
            if self.names[index] == *name {
                proof {
                    names.index_of_first_ensures(name@);
                    assert(names.contains(name@));
                }
                return Some(ToolId(index));
            }
            index += 1;
        }
        None
    }

    /// Returns a copy of the tool's name.
    pub fn clone_tool_name(&self, tool: ToolId) -> (name: String)
        requires
            self@.has(tool),
        ensures
            name@ == self@.names[tool.0 as int],
    {
        self.names[tool.0].clone()
    }

    /// Returns the number of tools.
    pub fn len(&self) -> (len: usize)
        ensures
            len == self@.names.len(),
    {
        self.names.len()
    }
}

} // verus!
