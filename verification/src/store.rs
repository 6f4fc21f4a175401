//! The item store: the authoritative collection of to-do items, modelled as a
//! sequence whose position fixes the id — the item at index `i` carries id
//! `i + 1`, so ids always form the dense sequence 1..N.

use vstd::prelude::*;
use crate::models::{Priority, TodoItem, TodoView};

verus! {

/// Well-formedness of a store model: the size fits the id type and the item
/// at index `i` carries id `i + 1` (ids are dense, starting at 1).
pub open spec fn wf_seq(s: Seq<TodoView>) -> bool {
    &&& s.len() <= u32::MAX
    &&& forall|i: int| 0 <= i < s.len() ==> (#[trigger] s[i]).id == Some((i + 1) as u32)
}

/// Whether id `id` names an item of the store model `s`: under `wf_seq` the
/// ids present are exactly 1..=len.
pub open spec fn valid_id(s: Seq<TodoView>, id: u32) -> bool {
    1 <= id && id <= s.len()
}

/// The item `t` with its id replaced by `id`.
pub open spec fn with_id(t: TodoView, id: u32) -> TodoView {
    TodoView { id: Some(id), ..t }
}

/// The id the store assigns to the next inserted item: one past the size.
pub open spec fn assigned_id(s: Seq<TodoView>) -> u32 {
    (s.len() + 1) as u32
}

/// Effect of `insert`: the new item, under the assigned id, is appended.
pub open spec fn spec_insert(s: Seq<TodoView>, t: TodoView) -> Seq<TodoView> {
    s.push(with_id(t, assigned_id(s)))
}

/// Effect of `toggle`: the item named by `id` has `completed` flipped and
/// everything else kept; an unknown id leaves the store unchanged.
pub open spec fn spec_toggle(s: Seq<TodoView>, id: u32) -> Seq<TodoView> {
    if valid_id(s, id) {
        s.update(id - 1, TodoView { completed: !s[id - 1].completed, ..s[id - 1] })
    } else {
        s
    }
}

/// Effect of `update`: the item named by `id` gets the given title and
/// priority and `completed` forced to false (editing un-completes an item);
/// an unknown id leaves the store unchanged.
pub open spec fn spec_update(s: Seq<TodoView>, id: u32, title: Seq<char>, priority: Priority) -> Seq<TodoView> {
    if valid_id(s, id) {
        s.update(id - 1, TodoView { id: s[id - 1].id, title, completed: false, priority })
    } else {
        s
    }
}

/// The items that survive a bulk delete: those not completed, in order.
pub open spec fn surviving(s: Seq<TodoView>) -> Seq<TodoView> {
    s.filter(|t: TodoView| !t.completed)
}

/// Reassignment of dense ids 1..N by position, keeping every other field.
pub open spec fn renumber(s: Seq<TodoView>) -> Seq<TodoView> {
    Seq::new(s.len(), |i: int| with_id(s[i], (i + 1) as u32))
}

/// Effect of `delete_completed`: the completed items are dropped and the
/// survivors are renumbered densely, preserving their relative order.
pub open spec fn spec_delete(s: Seq<TodoView>) -> Seq<TodoView> {
    renumber(surviving(s))
}

/// The models of a sequence of items, element for element.
pub open spec fn views_of(v: Seq<TodoItem>) -> Seq<TodoView> {
    v.map_values(|t: TodoItem| t@)
}

/// Appending an item either appends it to the survivors or leaves them
/// unchanged, according to its `completed` flag.
pub(crate) proof fn lemma_surviving_push(s: Seq<TodoView>, t: TodoView)
    ensures
        !t.completed ==> surviving(s.push(t)) == surviving(s).push(t),
        t.completed ==> surviving(s.push(t)) == surviving(s),
{
    assert(s.push(t).drop_last() =~= s);
    reveal_with_fuel(Seq::filter, 2);
}

/// The in-memory store. The vector index encodes the id: the item at index
/// `i` carries id `i + 1`.
pub struct TodoStore {
    items: Vec<TodoItem>,
}

impl View for TodoStore {
    type V = Seq<TodoView>;

    closed spec fn view(&self) -> Seq<TodoView> {
        views_of(self.items@)
    }
}

impl TodoStore {
    /// The store invariant: ids are dense 1..N.
    pub open spec fn wf(&self) -> bool {
        wf_seq(self@)
    }

    /// An empty store.
    pub fn new() -> (s: TodoStore)
        ensures
            s.wf(),
            s@ == Seq::<TodoView>::empty(),
    {
        let s = TodoStore { items: Vec::new() };
        proof {
            assert(s@ =~= Seq::<TodoView>::empty());
        }
        s
    }

    /// Number of items held.
    pub fn len(&self) -> (n: usize)
        ensures
            n == self@.len(),
    {
        self.items.len()
    }

    /// A snapshot copy of all items, in id order, each exactly once.
    pub fn list(&self) -> (r: Vec<TodoItem>)
        ensures
            r@.len() == self@.len(),
            forall|i: int| 0 <= i < r@.len() ==> (#[trigger] r@[i])@ == self@[i],
    {
        let mut out: Vec<TodoItem> = Vec::new();
        let mut i: usize = 0;
        while i < self.items.len()
            invariant
                i <= self.items@.len(),
                out@.len() == i,
                forall|j: int| 0 <= j < i ==> (#[trigger] out@[j])@ == self@[j],
            decreases self.items@.len() - i,
        {
            out.push(self.items[i].duplicate());
            i = i + 1;
        }
        out
    }

    /// Stores the given item under a fresh id equal to the new size, and
    /// returns the stored item. Any id the caller supplied is discarded.
    pub fn insert(&mut self, new_todo: TodoItem) -> (r: TodoItem)
        requires
            old(self).wf(),
            old(self)@.len() < u32::MAX,
        ensures
            final(self).wf(),
            final(self)@ == spec_insert(old(self)@, new_todo@),
            r@ == with_id(new_todo@, assigned_id(old(self)@)),
    {
        let new_id: u32 = (self.items.len() as u32) + 1;
        let mut item = new_todo;
        item.id = Some(new_id);
        let r = item.duplicate();
        self.items.push(item);
        proof {
            assert(self@ =~= spec_insert(old(self)@, new_todo@));
        }
        r
    }

    /// Flips `completed` of the item named by `id`, leaving its title and
    /// priority unchanged. Returns whether the id was found; an unknown id
    /// leaves the store unchanged.
    pub fn toggle(&mut self, id: u32) -> (found: bool)
        requires
            old(self).wf(),
        ensures
            final(self).wf(),
            found == valid_id(old(self)@, id),
            final(self)@ == spec_toggle(old(self)@, id),
    {
        if 1 <= id && (id as usize) <= self.items.len() {
            let idx: usize = (id - 1) as usize;
            let item = self.items[idx].toggled();
            self.items[idx] = item;
            proof {
                assert(self@ =~= spec_toggle(old(self)@, id));
            }
            true
        } else {
            false
        }
    }

    /// Sets the title and priority of the item named by `id` and forces
    /// `completed` to false, keeping its id. Returns whether the id was
    /// found; an unknown id leaves the store unchanged.
    pub fn update(&mut self, id: u32, title: String, priority: Priority) -> (found: bool)
        requires
            old(self).wf(),
        ensures
            final(self).wf(),
            found == valid_id(old(self)@, id),
            final(self)@ == spec_update(old(self)@, id, title@, priority),
    {
        if 1 <= id && (id as usize) <= self.items.len() {
            let idx: usize = (id - 1) as usize;
            let item = TodoItem {
                id: self.items[idx].id,
                title,
                completed: false,
                priority,
            };
            self.items[idx] = item;
            proof {
                assert(self@ =~= spec_update(old(self)@, id, title@, priority));
            }
            true
        } else {
            false
        }
    }

    /// Removes every completed item, then renumbers the survivors to the
    /// dense id sequence 1..N, preserving their relative order.
    pub fn delete_completed(&mut self)
        requires
            old(self).wf(),
        ensures
            final(self).wf(),
            final(self)@ == spec_delete(old(self)@),
    {
        proof {
            assert(old(self)@.take(0) =~= Seq::<TodoView>::empty());
            reveal_with_fuel(Seq::filter, 1);
            assert(renumber(surviving(old(self)@.take(0))) =~= Seq::<TodoView>::empty());
        }
        let mut kept: Vec<TodoItem> = Vec::new();
        let mut i: usize = 0;
        while i < self.items.len()
            invariant
                old(self).wf(),
                self == old(self),
                i <= self.items@.len(),
                kept@.len() <= i,
                views_of(kept@) == renumber(surviving(old(self)@.take(i as int))),
            decreases self.items@.len() - i,
        {
            let ghost s0 = old(self)@;
            let ghost prefix = s0.take(i as int);
            if !self.items[i].completed {
                let ghost kept0 = kept@;
                let ghost t = s0[i as int];
                let new_id: u32 = (kept.len() as u32) + 1;
                let mut item = self.items[i].duplicate();
                item.id = Some(new_id);
                kept.push(item);
                proof {
                    lemma_surviving_push(prefix, t);
                    assert(s0.take(i + 1) =~= prefix.push(t));
                    assert(surviving(s0.take(i + 1)) == surviving(prefix).push(t));
                    assert(views_of(kept0) == renumber(surviving(prefix)));
                    assert(views_of(kept0).len() == kept0.len());
                    assert(renumber(surviving(prefix)).len() == surviving(prefix).len());
                    assert(kept0.len() == surviving(prefix).len());
                    assert(item@ == with_id(t, new_id));
                    assert(views_of(kept0.push(item)) =~= views_of(kept0).push(item@));
                    assert(renumber(surviving(prefix).push(t)) =~= renumber(
                        surviving(prefix),
                    ).push(with_id(t, new_id)));
                    assert(views_of(kept@) =~= renumber(surviving(s0.take(i + 1))));
                }
            } else {
                proof {
                    lemma_surviving_push(prefix, s0[i as int]);
                    assert(s0.take(i + 1) =~= prefix.push(s0[i as int]));
                }
            }
            i = i + 1;
        }
        proof {
            assert(old(self)@.take(old(self)@.len() as int) =~= old(self)@);
        }
        self.items = kept;
    }
}

} // verus!
