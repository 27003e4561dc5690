//! The tool library: an ordered list of tools.
use vstd::prelude::*;
use crate::error::CamError;
use crate::types::Tool;

verus! {

/// The tools of a workshop, in the order in which operations name them.
#[derive(Clone, Debug)]
pub struct ToolLibrary {
    pub tools: Vec<Tool>,
}

impl ToolLibrary {
    /// The empty library.
    pub fn new() -> (r: ToolLibrary)
        ensures
            r.tools@ == Seq::<Tool>::empty(),
    {
        ToolLibrary { tools: Vec::new() }
    }

    /// Appends a tool.
    pub fn add_tool(&mut self, tool: Tool)
        ensures
            final(self).tools@ == old(self).tools@.push(tool),
    {
        self.tools.push(tool);
    }

    /// Replaces the tool at `index`. Fails, changing nothing, if there is none.
    pub fn update_tool(&mut self, index: usize, tool: Tool) -> (r: Result<(), CamError>)
        ensures
            index < old(self).tools@.len() ==> r.is_ok() && final(self).tools@ == old(
                self,
            ).tools@.update(index as int, tool),
            index >= old(self).tools@.len() ==> r == Err::<(), CamError>(
                CamError::InvalidToolIndex(index),
            ) && final(self).tools@ == old(self).tools@,
    {
        if index >= self.tools.len() {
            return Err(CamError::InvalidToolIndex(index));
        }
        self.tools.set(index, tool);
        Ok(())
    }

    /// Removes the tool at `index`; later tools move up. Fails, changing
    /// nothing, if there is none.
    pub fn remove_tool(&mut self, index: usize) -> (r: Result<(), CamError>)
        ensures
            index < old(self).tools@.len() ==> r.is_ok() && final(self).tools@ == old(
                self,
            ).tools@.remove(index as int),
            index >= old(self).tools@.len() ==> r == Err::<(), CamError>(
                CamError::InvalidToolIndex(index),
            ) && final(self).tools@ == old(self).tools@,
    {
        if index >= self.tools.len() {
            return Err(CamError::InvalidToolIndex(index));
        }
        self.tools.remove(index);
        Ok(())
    }

    /// The tool at `index`.
    pub fn get(&self, index: usize) -> (r: Option<&Tool>)
        ensures
            match r {
                Some(tool) => index < self.tools@.len() && *tool == self.tools@[index as int],
                None => index >= self.tools@.len(),
            },
    {
        if index < self.tools.len() {
            Some(&self.tools[index])
        } else {
            None
        }
    }
}

impl Default for ToolLibrary {
    fn default() -> (r: ToolLibrary)
        ensures
            r.tools@ == Seq::<Tool>::empty(),
    {
        ToolLibrary::new()
    }
}

} // verus!
