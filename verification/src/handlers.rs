//! Request handlers: each turns a decoded request into a store operation and
//! a response. Transport and JSON live outside the crate; a handler takes
//! plain values and hands back a status with a short body.

use vstd::prelude::*;
use crate::models::TodoItem;
use crate::store::{spec_delete, spec_insert, spec_toggle, spec_update, valid_id, TodoStore};

verus! {

/// Response status, mirroring the HTTP codes the service answers with.
#[derive(Clone, Copy, Debug, PartialEq, Eq, Structural)]
pub enum Status {
    Okay,
    Created,
    NoContent,
    NotFound,
}

impl Status {
    /// The numeric HTTP status code this status stands for.
    pub open spec fn spec_code(self) -> u16 {
        match self {
            Status::Okay => 200,
            Status::Created => 201,
            Status::NoContent => 204,
            Status::NotFound => 404,
        }
    }

    /// Numeric HTTP status code.
    pub fn code(&self) -> (c: u16)
        ensures
            c == self.spec_code(),
    {
        match self {
            Status::Okay => 200,
            Status::Created => 201,
            Status::NoContent => 204,
            Status::NotFound => 404,
        }
    }
}

/// A handler's answer: a status and a short confirmation body.
pub struct Response {
    pub status: Status,
    pub body: &'static str,
}

/// Read-all: a snapshot of exactly the items currently in the store, each
/// exactly once, in id order. Always succeeds.
pub fn handle_list(store: &TodoStore) -> (r: Vec<TodoItem>)
    ensures
        r@.len() == store@.len(),
        forall|i: int| 0 <= i < r@.len() ==> (#[trigger] r@[i])@ == store@[i],
{
    store.list()
}

/// Create: stores the payload under a fresh id (any caller-supplied id is
/// discarded) and confirms with status `Created`.
pub fn handle_add(store: &mut TodoStore, new_todo: TodoItem) -> (r: Response)
    requires
        old(store).wf(),
        old(store)@.len() < u32::MAX,
    ensures
        final(store).wf(),
        final(store)@ == spec_insert(old(store)@, new_todo@),
        r.status == Status::Created,
        r.body@ == "Todo added"@,
{
    let _ = store.insert(new_todo);
    Response { status: Status::Created, body: "Todo added" }
}

/// Status-flip: flips `completed` of the item named by `id`. An unknown id
/// leaves the store unchanged and answers `NotFound`.
pub fn handle_toggle(store: &mut TodoStore, id: u32) -> (r: Response)
    requires
        old(store).wf(),
    ensures
        final(store).wf(),
        final(store)@ == spec_toggle(old(store)@, id),
        valid_id(old(store)@, id) ==> r.status == Status::Okay && r.body@ == "Todo status updated"@,
        !valid_id(old(store)@, id) ==> final(store)@ == old(store)@ && r.status == Status::NotFound
            && r.body@ == "Todo not found"@,
{
    if store.toggle(id) {
        Response { status: Status::Okay, body: "Todo status updated" }
    } else {
        Response { status: Status::NotFound, body: "Todo not found" }
    }
}

/// Edit: sets the title and priority of the item named by `id` from the
/// payload and forces `completed` to false, even if otherwise unchanged. An
/// unknown id leaves the store unchanged and answers `NotFound`.
pub fn handle_update(store: &mut TodoStore, id: u32, update_todo: TodoItem) -> (r: Response)
    requires
        old(store).wf(),
    ensures
        final(store).wf(),
        final(store)@ == spec_update(old(store)@, id, update_todo@.title, update_todo.priority),
        valid_id(old(store)@, id) ==> r.status == Status::Okay && r.body@ == "Todo updated"@,
        !valid_id(old(store)@, id) ==> final(store)@ == old(store)@ && r.status == Status::NotFound
            && r.body@ == "Todo not found"@,
{
    let priority = update_todo.priority;
    if store.update(id, update_todo.title, priority) {
        Response { status: Status::Okay, body: "Todo updated" }
    } else {
        Response { status: Status::NotFound, body: "Todo not found" }
    }
}

/// Bulk cleanup: removes every completed item and renumbers the survivors
/// densely. Always succeeds, as a no-op when nothing is completed.
pub fn handle_delete_completed(store: &mut TodoStore) -> (r: Response)
    requires
        old(store).wf(),
    ensures
        final(store).wf(),
        final(store)@ == spec_delete(old(store)@),
        r.status == Status::NoContent,
        r.body@ == "Todos deleted"@,
{
    store.delete_completed();
    Response { status: Status::NoContent, body: "Todos deleted" }
}

} // verus!
