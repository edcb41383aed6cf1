//! Properties of the store and its handlers that span several requests.
use vstd::prelude::*;

use crate::handlers::{create_reply, item_reply};
use crate::model::{lemma_apply_wf, lemma_create_wf, lemma_index_of, MutationKind, StoreView, TodoView};
use crate::response::{err_reply, ok_reply, Status};

verus! {

/// The store after creation requests with each description of `ds`, in order.
pub open spec fn create_all(s: StoreView, ds: Seq<Seq<char>>) -> StoreView
    decreases ds.len(),
{
    if ds.len() == 0 {
        s
    } else {
        create_all(s, ds.drop_last()).create(ds.last())
    }
}

/// No two entries of `ds` are equal.
pub open spec fn distinct(ds: Seq<Seq<char>>) -> bool {
    forall|i: int, j: int| 0 <= i < ds.len() && 0 <= j < ds.len() && i != j ==> ds[i] != ds[j]
}

/// From a fresh store, creating distinct descriptions yields the items
/// numbered 1, 2, ... in creation order, each with its description and not
/// completed.
pub proof fn lemma_items_after_creations(ds: Seq<Seq<char>>)
    requires
        distinct(ds),
    ensures
        create_all(StoreView::empty(), ds).wf(),
        create_all(StoreView::empty(), ds).next_id == ds.len(),
        create_all(StoreView::empty(), ds).items.len() == ds.len(),
        forall|i: int|
            0 <= i < ds.len() ==> #[trigger] create_all(StoreView::empty(), ds).items[i] == (TodoView {
                id: (i + 1) as nat,
                description: ds[i],
                completed: false,
            }),
    decreases ds.len(),
{
    if ds.len() > 0 {
        let pre = ds.drop_last();
        assert forall|i: int, j: int| 0 <= i < pre.len() && 0 <= j < pre.len() && i != j implies pre[i]
            != pre[j] by {
            assert(pre[i] == ds[i] && pre[j] == ds[j]);
        }
        lemma_items_after_creations(pre);
        let s = create_all(StoreView::empty(), pre);
        lemma_create_wf(s, ds.last());
        if s.contains_description(ds.last()) {
            let k = choose|k: int| 0 <= k < s.items.len() && #[trigger] s.items[k].description == ds.last();
            assert(s.items[k].description == ds[k]);
        }
    }
}

/// From a fresh store, a run of creation requests with distinct descriptions
/// all succeed, with identifiers exactly 1..N in creation order.
pub proof fn lemma_sequential_ids(ds: Seq<Seq<char>>)
    requires
        distinct(ds),
    ensures
        forall|i: int|
            0 <= i < ds.len() ==> #[trigger] create_reply(create_all(StoreView::empty(), ds.take(i)), ds[i])
                == ok_reply(
                Status::Created,
                TodoView { id: (i + 1) as nat, description: ds[i], completed: false },
            ),
        forall|i: int|
            0 <= i < ds.len() ==> (#[trigger] create_all(StoreView::empty(), ds).items[i]).id == i + 1,
{
    lemma_items_after_creations(ds);
    assert forall|i: int| 0 <= i < ds.len() implies #[trigger] create_reply(
        create_all(StoreView::empty(), ds.take(i)),
        ds[i],
    ) == ok_reply(Status::Created, TodoView { id: (i + 1) as nat, description: ds[i], completed: false }) by {
        let pre = ds.take(i);
        assert forall|a: int, b: int| 0 <= a < pre.len() && 0 <= b < pre.len() && a != b implies pre[a]
            != pre[b] by {
            assert(pre[a] == ds[a] && pre[b] == ds[b]);
        }
        lemma_items_after_creations(pre);
        let s = create_all(StoreView::empty(), pre);
        if s.contains_description(ds[i]) {
            let k = choose|k: int| 0 <= k < s.items.len() && #[trigger] s.items[k].description == ds[i];
            assert(s.items[k].description == ds[k]);
        }
    }
}

/// After a mutation request on an existing item, looking it up gives the
/// mutated item.
pub proof fn lemma_get_after_apply(s: StoreView, id: nat, m: MutationKind)
    requires
        s.wf(),
        s.has_id(id),
    ensures
        s.apply(id, m).get(id) == Some(s.items[s.index_of(id)].with(m)),
{
    let k = s.index_of(id);
    let t = s.apply(id, m);
    lemma_apply_wf(s, id, m);
    assert(t.items[k].id == id);
    lemma_index_of(t, k);
}

/// After a successful creation, looking up the new identifier gives the new item.
pub proof fn lemma_get_after_insert(s: StoreView, d: Seq<char>)
    requires
        s.wf(),
        !s.contains_description(d),
    ensures
        s.create(d).get(s.next_id + 1) == Some(s.created(d)),
{
    lemma_create_wf(s, d);
    let t = s.create(d);
    lemma_index_of(t, s.items.len() as int);
}

/// Two creation requests with the same description never both succeed: the
/// second is always refused with "already exists" and changes nothing, and
/// the first succeeds exactly when no item had the description before.
pub proof fn lemma_duplicate_create(s: StoreView, d: Seq<char>)
    requires
        s.wf(),
    ensures
        create_reply(s.create(d), d) == err_reply(Status::BadRequest, "already exists"@),
        s.create(d).create(d) == s.create(d),
        (create_reply(s, d).0 == Status::Created) == !s.contains_description(d),
{
    if !s.contains_description(d) {
        let t = s.create(d);
        assert(t.items[s.items.len() as int].description == d);
    }
}

/// Completing an item and then reading it shows it completed; the same for
/// marking it not done; and completing (or uncompleting) twice in a row
/// answers the same and leaves the same store as doing it once.
pub proof fn lemma_set_completed_then_get(s: StoreView, id: nat, b: bool)
    requires
        s.wf(),
        s.has_id(id),
    ensures
        item_reply(s.apply(id, MutationKind::SetCompleted(b)), id, MutationKind::Keep) == ok_reply(
            Status::Success,
            TodoView { completed: b, ..s.items[s.index_of(id)] },
        ),
        item_reply(s, id, MutationKind::SetCompleted(b)) == ok_reply(
            Status::Success,
            TodoView { completed: b, ..s.items[s.index_of(id)] },
        ),
        item_reply(s.apply(id, MutationKind::SetCompleted(b)), id, MutationKind::SetCompleted(b))
            == item_reply(s, id, MutationKind::SetCompleted(b)),
        s.apply(id, MutationKind::SetCompleted(b)).apply(id, MutationKind::SetCompleted(b)) == s.apply(
            id,
            MutationKind::SetCompleted(b),
        ),
{
    let m = MutationKind::SetCompleted(b);
    let t = s.apply(id, m);
    let k = s.index_of(id);
    lemma_get_after_apply(s, id, m);
    lemma_apply_wf(s, id, m);
    assert(t.has_id(id));
    lemma_index_of(t, k);
    assert(t.apply(id, m).items =~= t.items);
}

/// A request on an identifier that no item has is answered "not found" with
/// a bad-request status, whatever its mutation, and leaves the store as it was.
pub proof fn lemma_missing_id(s: StoreView, id: nat, m: MutationKind)
    requires
        !s.has_id(id),
    ensures
        item_reply(s, id, m) == err_reply(Status::BadRequest, "not found"@),
        s.apply(id, m) == s,
{
}

/// The item in a successful creation reply, looked up afterwards, is found
/// with the same identifier, description and completion flag.
pub proof fn lemma_create_round_trip(s: StoreView, d: Seq<char>)
    requires
        s.wf(),
        create_reply(s, d).1 is Ok,
    ensures
        item_reply(s.create(d), create_reply(s, d).1->Ok_0.todo->Some_0.id, MutationKind::Keep)
            == ok_reply(Status::Success, create_reply(s, d).1->Ok_0.todo->Some_0),
{
    lemma_get_after_insert(s, d);
}

/// The item in a successful reply to a get, complete or uncomplete request,
/// looked up afterwards, is found with the same identifier and description
/// and with the completion flag that request left.
pub proof fn lemma_item_round_trip(s: StoreView, id: nat, m: MutationKind)
    requires
        s.wf(),
        item_reply(s, id, m).1 is Ok,
    ensures
        item_reply(s.apply(id, m), item_reply(s, id, m).1->Ok_0.todo->Some_0.id, MutationKind::Keep)
            == ok_reply(Status::Success, item_reply(s, id, m).1->Ok_0.todo->Some_0),
{
    lemma_get_after_apply(s, id, m);
    let k = s.index_of(id);
    lemma_index_of(s, k);
}

} // verus!
