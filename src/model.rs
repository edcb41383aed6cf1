//! The abstract model of the store: items as mathematical values, the
//! store's invariant, and the effect of each operation on it.
use vstd::prelude::*;

verus! {

/// What a request may do to an item it finds: nothing, or set its completion flag.
#[derive(Clone, Copy, Debug, PartialEq, Eq, Structural)]
pub enum MutationKind {
    Keep,
    SetCompleted(bool),
}

/// The abstract value of a todo item.
pub struct TodoView {
    pub id: nat,
    pub description: Seq<char>,
    pub completed: bool,
}

impl TodoView {
    /// The item after a mutation: identity and description never change.
    pub open spec fn with(self, m: MutationKind) -> TodoView {
        match m {
            MutationKind::Keep => self,
            MutationKind::SetCompleted(b) => TodoView { completed: b, ..self },
        }
    }
}

/// The abstract value of the store: items in insertion order and the
/// identifier counter.
pub struct StoreView {
    pub items: Seq<TodoView>,
    pub next_id: nat,
}

impl StoreView {
    /// The store at start-up: no items, counter at zero.
    pub open spec fn empty() -> StoreView {
        StoreView { items: Seq::empty(), next_id: 0 }
    }

    /// Identifiers rise strictly in insertion order, are positive and never
    /// above the counter, and no two items share a description.
    pub open spec fn wf(self) -> bool {
        &&& forall|i: int, j: int|
            0 <= i < j < self.items.len() ==> #[trigger] self.items[i].id < #[trigger] self.items[j].id
        &&& forall|i: int| 0 <= i < self.items.len() ==> 1 <= #[trigger] self.items[i].id <= self.next_id
        &&& forall|i: int, j: int|
            0 <= i < self.items.len() && 0 <= j < self.items.len() && i != j
                ==> #[trigger] self.items[i].description != #[trigger] self.items[j].description
    }

    /// Some item has exactly this description.
    pub open spec fn contains_description(self, d: Seq<char>) -> bool {
        exists|i: int| 0 <= i < self.items.len() && #[trigger] self.items[i].description == d
    }

    /// Some item has this identifier.
    pub open spec fn has_id(self, id: nat) -> bool {
        exists|i: int| 0 <= i < self.items.len() && #[trigger] self.items[i].id == id
    }

    /// The position of the item with this identifier (meaningful when `has_id`).
    pub open spec fn index_of(self, id: nat) -> int {
        choose|i: int| 0 <= i < self.items.len() && #[trigger] self.items[i].id == id
    }

    /// The item with this identifier, if any.
    pub open spec fn get(self, id: nat) -> Option<TodoView> {
        if self.has_id(id) {
            Some(self.items[self.index_of(id)])
        } else {
            None
        }
    }

    /// The item that an insertion of `d` creates: the next identifier, not completed.
    pub open spec fn created(self, d: Seq<char>) -> TodoView {
        TodoView { id: self.next_id + 1, description: d, completed: false }
    }

    /// The store after appending a new item with description `d`.
    pub open spec fn insert(self, d: Seq<char>) -> StoreView {
        StoreView { items: self.items.push(self.created(d)), next_id: self.next_id + 1 }
    }

    /// The store after a creation request: unchanged when the description is taken.
    pub open spec fn create(self, d: Seq<char>) -> StoreView {
        if self.contains_description(d) {
            self
        } else {
            self.insert(d)
        }
    }

    /// The store after a mutation request on `id`: unchanged when no item has it.
    pub open spec fn apply(self, id: nat, m: MutationKind) -> StoreView {
        if self.has_id(id) {
            StoreView {
                items: self.items.update(self.index_of(id), self.items[self.index_of(id)].with(m)),
                next_id: self.next_id,
            }
        } else {
            self
        }
    }
}

/// In a well-formed store the item at position `i` is the one `index_of` picks for its id.
pub proof fn lemma_index_of(s: StoreView, i: int)
    requires
        s.wf(),
        0 <= i < s.items.len(),
    ensures
        s.has_id(s.items[i].id),
        s.index_of(s.items[i].id) == i,
{
    let id = s.items[i].id;
    assert(s.has_id(id));
    let k = s.index_of(id);
    if k < i {
        assert(s.items[k].id < s.items[i].id);
    } else if k > i {
        assert(s.items[i].id < s.items[k].id);
    }
}

/// Creation keeps the store well formed.
pub proof fn lemma_create_wf(s: StoreView, d: Seq<char>)
    requires
        s.wf(),
    ensures
        s.create(d).wf(),
{
    if !s.contains_description(d) {
        let t = s.insert(d);
        assert forall|i: int, j: int|
            0 <= i < t.items.len() && 0 <= j < t.items.len() && i != j
                implies #[trigger] t.items[i].description != #[trigger] t.items[j].description by {
            if i == s.items.len() as int {
                assert(s.items[j].description == t.items[j].description);
            } else if j == s.items.len() as int {
                assert(s.items[i].description == t.items[i].description);
            }
        }
    }
}

/// A mutation request keeps the store well formed and changes no identifier
/// or description.
pub proof fn lemma_apply_wf(s: StoreView, id: nat, m: MutationKind)
    requires
        s.wf(),
    ensures
        s.apply(id, m).wf(),
        s.apply(id, m).items.len() == s.items.len(),
        forall|i: int| 0 <= i < s.items.len() ==> {
            &&& #[trigger] s.apply(id, m).items[i].id == s.items[i].id
            &&& s.apply(id, m).items[i].description == s.items[i].description
        },
{
    let t = s.apply(id, m);
    if s.has_id(id) {
        let k = s.index_of(id);
        assert forall|i: int| 0 <= i < s.items.len() implies {
            &&& #[trigger] t.items[i].id == s.items[i].id
            &&& t.items[i].description == s.items[i].description
        } by {
            if i != k {
                assert(t.items[i] == s.items[i]);
            }
        }
        assert forall|i: int, j: int| 0 <= i < j < t.items.len()
            implies #[trigger] t.items[i].id < #[trigger] t.items[j].id by {
            assert(t.items[i].id == s.items[i].id);
            assert(t.items[j].id == s.items[j].id);
        }
        assert forall|i: int| 0 <= i < t.items.len()
            implies 1 <= #[trigger] t.items[i].id <= t.next_id by {
            assert(t.items[i].id == s.items[i].id);
        }
        assert forall|i: int, j: int|
            0 <= i < t.items.len() && 0 <= j < t.items.len() && i != j
                implies #[trigger] t.items[i].description != #[trigger] t.items[j].description by {
            assert(t.items[i].description == s.items[i].description);
            assert(t.items[j].description == s.items[j].description);
        }
    }
}

} // verus!
