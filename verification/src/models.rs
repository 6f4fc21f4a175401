//! The data model: a to-do item with an optional id, a title, a completion
//! flag and a priority.

use vstd::prelude::*;

verus! {

/// Urgency tag of a to-do item; carries no ordering semantics.
#[derive(Clone, Copy, Debug, PartialEq, Eq, Structural)]
pub enum Priority {
    Low,
    Medium,
    High,
}

/// A to-do item. `id` is `None` only in a creation payload before the store
/// assigns one; every stored item has `Some` id.
#[derive(Clone, Debug)]
pub struct TodoItem {
    pub id: Option<u32>,
    pub title: String,
    pub completed: bool,
    pub priority: Priority,
}

/// Mathematical model of a `TodoItem`: the same fields with the title as a
/// sequence of characters.
pub ghost struct TodoView {
    pub id: Option<u32>,
    pub title: Seq<char>,
    pub completed: bool,
    pub priority: Priority,
}

impl View for TodoItem {
    type V = TodoView;

    open spec fn view(&self) -> TodoView {
        TodoView {
            id: self.id,
            title: self.title@,
            completed: self.completed,
            priority: self.priority,
        }
    }
}

impl TodoItem {
    /// A field-for-field copy of the item.
    pub fn duplicate(&self) -> (r: TodoItem)
        ensures
            r == *self,
    {
        TodoItem {
            id: self.id,
            title: self.title.clone(),
            completed: self.completed,
            priority: self.priority,
        }
    }

    /// The same item with `completed` flipped.
    pub fn toggled(&self) -> (r: TodoItem)
        ensures
            r@ == (TodoView { completed: !self@.completed, ..self@ }),
    {
        TodoItem {
            id: self.id,
            title: self.title.clone(),
            completed: !self.completed,
            priority: self.priority,
        }
    }
}

} // verus!
