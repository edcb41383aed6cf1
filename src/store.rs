//! The store: the authoritative table of items and the identifier counter.
//! Every operation takes the store by reference, so a caller that holds it
//! exclusively performs each one as a single atomic step.
use vstd::prelude::*;

use crate::model::{lemma_apply_wf, lemma_create_wf, lemma_index_of, MutationKind, StoreView};
use crate::todo::Todo;

verus! {

/// Items in insertion order and the last identifier handed out. Every
/// operation keeps the abstract value well formed (`StoreView::wf`).
pub struct Store {
    items: Vec<Todo>,
    next_id: usize,
}

impl View for Store {
    type V = StoreView;

    closed spec fn view(&self) -> StoreView {
        StoreView { items: self.items@.map_values(|t: Todo| t@), next_id: self.next_id as nat }
    }
}

impl Store {
    /// An empty store whose first identifier will be 1.
    pub fn new() -> (r: Store)
        ensures
            r@ == StoreView::empty(),
            r@.wf(),
    {
        let r = Store { items: Vec::new(), next_id: 0 };
        assert(r@.items =~= Seq::empty());
        r
    }

    /// Advances the counter and returns its new value.
    pub fn allocate_id(&mut self) -> (r: usize)
        requires
            old(self)@.wf(),
            old(self)@.next_id < usize::MAX,
        ensures
            final(self)@.wf(),
            r == old(self)@.next_id + 1,
            final(self)@ == (StoreView { next_id: old(self)@.next_id + 1, ..old(self)@ }),
    {
        let ghost before = self@;
        self.next_id = self.next_id + 1;
        assert(self@.items == before.items);
        self.next_id
    }

    /// Whether the counter can still advance, as `allocate_id` and `insert` need.
    pub fn can_allocate(&self) -> (r: bool)
        ensures
            r == (self@.next_id < usize::MAX),
    {
        self.next_id < usize::MAX
    }

    /// Whether some item's description equals `description` exactly.
    pub fn exists_with_description(&self, description: &String) -> (r: bool)
        ensures
            r == self@.contains_description(description@),
    {
        let mut i: usize = 0;
        while i < self.items.len()
            invariant
                0 <= i <= self.items.len(),
                forall|j: int| 0 <= j < i ==> (#[trigger] self@.items[j]).description != description@,
            decreases self.items.len() - i,
        {
            if self.items[i].description == *description {
                assert(self@.items[i as int].description == description@);
                return true;
            }
            i = i + 1;
        }
        false
    }

    /// Appends a new, not yet completed item with the next identifier and
    /// returns a copy of it.
    pub fn insert(&mut self, description: String) -> (r: Todo)
        requires
            old(self)@.wf(),
            !old(self)@.contains_description(description@),
            old(self)@.next_id < usize::MAX,
        ensures
            final(self)@.wf(),
            r@ == old(self)@.created(description@),
            final(self)@ == old(self)@.insert(description@),
    {
        proof {
            lemma_create_wf(self@, description@);
        }
        let id = self.next_id + 1;
        let todo = Todo::new(id, description);
        let r = todo.snapshot();
        let ghost before = self@;
        self.items.push(todo);
        self.next_id = id;
        assert(self@.items =~= before.insert(r@.description).items);
        r
    }

    /// Finds the item with identifier `id`, applies `m` to it in place and
    /// returns a copy of the result; `None`, with nothing changed, when no
    /// item has that identifier.
    pub fn find_and_apply(&mut self, id: usize, m: MutationKind) -> (r: Option<Todo>)
        requires
            old(self)@.wf(),
        ensures
            final(self)@.wf(),
            final(self)@ == old(self)@.apply(id as nat, m),
            match old(self)@.get(id as nat) {
                None => r is None,
                Some(t) => r is Some && r->Some_0@ == t.with(m),
            },
    {
        proof {
            lemma_apply_wf(self@, id as nat, m);
        }
        let ghost before = self@;
        let mut i: usize = 0;
        while i < self.items.len()
            invariant
                self@ == before,
                before == old(self)@,
                before.wf(),
                0 <= i <= self.items.len(),
                forall|j: int| 0 <= j < i ==> (#[trigger] self@.items[j]).id != id,
            decreases self.items.len() - i,
        {
            if self.items[i].id == id {
                proof {
                    assert(before.items[i as int].id == id as nat);
                    lemma_index_of(before, i as int);
                    assert(before.has_id(id as nat));
                }
                let mut t = self.items[i].snapshot();
                t.apply(m);
                let r = t.snapshot();
                self.items.set(i, t);
                assert(self@.items =~= before.apply(id as nat, m).items);
                assert(self@.next_id == before.apply(id as nat, m).next_id);
                return Some(r);
            }
            i = i + 1;
        }
        proof {
            if before.has_id(id as nat) {
                let k = before.index_of(id as nat);
                assert(self@.items[k].id == id);
            }
        }
        None
    }
}

} // verus!
