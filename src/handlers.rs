//! Request handlers: each performs one store operation and shapes its result
//! into a status and an envelope.
use vstd::prelude::*;
use vstd::string::*;

use crate::model::{MutationKind, StoreView};
use crate::response::{err_reply, ok_reply, reply_view, Reply, ReplyView, Response, Status};
use crate::store::Store;
use crate::todo::Todo;

verus! {

/// The reply to a creation request with description `d` on store `s`.
pub open spec fn create_reply(s: StoreView, d: Seq<char>) -> ReplyView {
    if s.contains_description(d) {
        err_reply(Status::BadRequest, "already exists"@)
    } else {
        ok_reply(Status::Created, s.created(d))
    }
}

/// The reply to a request that applies `m` to item `id` on store `s`.
pub open spec fn item_reply(s: StoreView, id: nat, m: MutationKind) -> ReplyView {
    match s.get(id) {
        None => err_reply(Status::BadRequest, "not found"@),
        Some(t) => ok_reply(Status::Success, t.with(m)),
    }
}

/// The reply when exclusive access to the store could not be had.
pub open spec fn failure_reply(e: Seq<char>) -> ReplyView {
    err_reply(Status::InternalServerError, e)
}

/// Finds item `todo_id`, applies `m` to it and returns a copy of the result,
/// or "not found" with a bad-request status.
pub fn find_todo(store: &mut Store, todo_id: usize, m: MutationKind) -> (r: (
    Status,
    Result<Todo, String>,
))
    requires
        old(store)@.wf(),
    ensures
        final(store)@.wf(),
        final(store)@ == old(store)@.apply(todo_id as nat, m),
        match old(store)@.get(todo_id as nat) {
            None => r.0 == Status::BadRequest && r.1 is Err && r.1->Err_0@ == "not found"@,
            Some(t) => r.0 == Status::Success && r.1 is Ok && r.1->Ok_0@ == t.with(m),
        },
{
    match store.find_and_apply(todo_id, m) {
        Some(todo) => (Status::Success, Ok(todo)),
        None => (Status::BadRequest, Err(String::from_str("not found"))),
    }
}

/// Applies `m` to item `todo_id` and answers with the resulting item, or
/// with "not found".
pub fn todo_response(store: &mut Store, todo_id: usize, m: MutationKind) -> (r: Reply)
    requires
        old(store)@.wf(),
    ensures
        final(store)@.wf(),
        final(store)@ == old(store)@.apply(todo_id as nat, m),
        reply_view(r) == item_reply(old(store)@, todo_id as nat, m),
{
    let (status, found) = find_todo(store, todo_id, m);
    match found {
        Ok(todo) => (status, Ok(Response::success(todo))),
        Err(error) => (status, Err(Response::failure(error))),
    }
}

/// Creates an item with the given description, unless one already has it;
/// the duplicate check and the insertion are one step on the store.
pub fn add_todo(store: &mut Store, todo_description: String) -> (r: Reply)
    requires
        old(store)@.wf(),
        old(store)@.next_id < usize::MAX,
    ensures
        final(store)@.wf(),
        final(store)@ == old(store)@.create(todo_description@),
        reply_view(r) == create_reply(old(store)@, todo_description@),
{
    if store.exists_with_description(&todo_description) {
        return (Status::BadRequest, Err(Response::failure(String::from_str("already exists"))));
    }
    let todo = store.insert(todo_description);
    (Status::Created, Ok(Response::success(todo)))
}

/// Answers with item `todo_id` unchanged.
pub fn get_todo(store: &mut Store, todo_id: usize) -> (r: Reply)
    requires
        old(store)@.wf(),
    ensures
        final(store)@ == old(store)@,
        reply_view(r) == item_reply(old(store)@, todo_id as nat, MutationKind::Keep),
{
    let r = todo_response(store, todo_id, MutationKind::Keep);
    proof {
        let s = old(store)@;
        if s.has_id(todo_id as nat) {
            assert(s.items.update(s.index_of(todo_id as nat), s.items[s.index_of(todo_id as nat)])
                =~= s.items);
        }
    }
    r
}

/// Marks item `todo_id` as done and answers with it.
pub fn complete_todo(store: &mut Store, todo_id: usize) -> (r: Reply)
    requires
        old(store)@.wf(),
    ensures
        final(store)@.wf(),
        final(store)@ == old(store)@.apply(todo_id as nat, MutationKind::SetCompleted(true)),
        reply_view(r) == item_reply(old(store)@, todo_id as nat, MutationKind::SetCompleted(true)),
{
    todo_response(store, todo_id, MutationKind::SetCompleted(true))
}

/// Marks item `todo_id` as not done and answers with it.
pub fn uncomplete_todo(store: &mut Store, todo_id: usize) -> (r: Reply)
    requires
        old(store)@.wf(),
    ensures
        final(store)@.wf(),
        final(store)@ == old(store)@.apply(todo_id as nat, MutationKind::SetCompleted(false)),
        reply_view(r) == item_reply(old(store)@, todo_id as nat, MutationKind::SetCompleted(false)),
{
    todo_response(store, todo_id, MutationKind::SetCompleted(false))
}

/// The answer when exclusive access to the store failed: an internal error
/// carrying the failure's description.
pub fn store_failure(error: String) -> (r: Reply)
    ensures
        reply_view(r) == failure_reply(error@),
{
    (Status::InternalServerError, Err(Response::failure(error)))
}

} // verus!
