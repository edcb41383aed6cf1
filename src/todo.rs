//! A single todo item and the mutations that may be applied to it.
use vstd::prelude::*;

use crate::model::{MutationKind, TodoView};

verus! {

/// A tracked task: its identifier, its description and whether it is done.
#[derive(Clone, Debug)]
pub struct Todo {
    pub id: usize,
    pub description: String,
    pub completed: bool,
}

impl View for Todo {
    type V = TodoView;

    open spec fn view(&self) -> TodoView {
        TodoView { id: self.id as nat, description: self.description@, completed: self.completed }
    }
}

impl Todo {
    /// A new, not yet completed item with the given identifier and description.
    pub fn new(id: usize, description: String) -> (r: Todo)
        ensures
            r@ == (TodoView { id: id as nat, description: description@, completed: false }),
    {
        Todo { id, description, completed: false }
    }

    /// Marks the item as done.
    pub fn complete(&mut self)
        ensures
            final(self)@ == old(self)@.with(MutationKind::SetCompleted(true)),
    {
        self.completed = true;
    }

    /// Marks the item as not done.
    pub fn uncomplete(&mut self)
        ensures
            final(self)@ == old(self)@.with(MutationKind::SetCompleted(false)),
    {
        self.completed = false;
    }

    /// Applies a mutation; only the completion flag can change.
    pub fn apply(&mut self, m: MutationKind)
        ensures
            final(self)@ == old(self)@.with(m),
    {
        match m {
            MutationKind::Keep => {},
            MutationKind::SetCompleted(true) => self.complete(),
            MutationKind::SetCompleted(false) => self.uncomplete(),
        }
    }

    /// A copy of the item, field by field.
    pub fn snapshot(&self) -> (r: Todo)
        ensures
            r@ == self@,
    {
        Todo { id: self.id, description: self.description.clone(), completed: self.completed }
    }
}

} // verus!
