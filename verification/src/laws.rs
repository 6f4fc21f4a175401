//! Properties of the store operations, stated over the store model and
//! proved once for every input.

use vstd::prelude::*;
use crate::models::{Priority, TodoView};
use crate::store::{
    lemma_surviving_push, spec_delete, spec_insert, spec_toggle, spec_update, surviving, valid_id,
    wf_seq, with_id,
};

verus! {

/// The store after a run of inserts, first element of `ts` inserted first.
pub open spec fn insert_all(s: Seq<TodoView>, ts: Seq<TodoView>) -> Seq<TodoView>
    decreases ts.len(),
{
    if ts.len() == 0 {
        s
    } else {
        insert_all(spec_insert(s, ts[0]), ts.drop_first())
    }
}

/// A run of inserts appends the inserted items in order, each stored (and
/// returned) under the id one past the store size at its insert; earlier
/// items are untouched, so no item is lost.
pub proof fn lemma_insert_run(s: Seq<TodoView>, ts: Seq<TodoView>)
    requires
        s.len() + ts.len() <= u32::MAX,
    ensures
        insert_all(s, ts).len() == s.len() + ts.len(),
        forall|k: int| 0 <= k < s.len() ==> insert_all(s, ts)[k] == s[k],
        forall|k: int|
            0 <= k < ts.len() ==> insert_all(s, ts)[s.len() + k] == with_id(
                ts[k],
                (s.len() + k + 1) as u32,
            ),
    decreases ts.len(),
{
    if ts.len() == 0 {
    } else {
        let s1 = spec_insert(s, ts[0]);
        let ts1 = ts.drop_first();
        lemma_insert_run(s1, ts1);
        assert forall|k: int| 0 <= k < s.len() implies insert_all(s, ts)[k] == s[k] by {
            assert(insert_all(s1, ts1)[k] == s1[k]);
            assert(s1[k] == s[k]);
        }
        assert forall|k: int| 0 <= k < ts.len() implies insert_all(s, ts)[s.len() + k] == with_id(
            ts[k],
            (s.len() + k + 1) as u32,
        ) by {
            if k == 0 {
                assert(insert_all(s1, ts1)[s.len() as int] == s1[s.len() as int]);
            } else {
                assert(ts1[k - 1] == ts[k]);
                assert(insert_all(s1, ts1)[s1.len() + (k - 1)] == with_id(
                    ts1[k - 1],
                    (s1.len() + (k - 1) + 1) as u32,
                ));
            }
        }
    }
}

/// Over any run of inserts into an initially empty store, the item returned
/// by the k-th insert carries id k + 1: the assigned ids start at 1,
/// increase strictly, and are pairwise distinct. Every inserted item is
/// retained under its id, so none is lost. Inserts racing from several
/// callers are serialized by the store's owner (one exclusive lock around
/// each insert), so every interleaving is such a run.
pub proof fn lemma_insert_ids_dense_and_distinct(ts: Seq<TodoView>)
    requires
        ts.len() <= u32::MAX,
    ensures
        insert_all(Seq::<TodoView>::empty(), ts).len() == ts.len(),
        forall|k: int|
            0 <= k < ts.len() ==> #[trigger] insert_all(Seq::<TodoView>::empty(), ts)[k] == with_id(
                ts[k],
                (k + 1) as u32,
            ),
        forall|j: int, k: int|
            0 <= j < k < ts.len() ==> insert_all(Seq::<TodoView>::empty(), ts)[j].id != insert_all(
                Seq::<TodoView>::empty(),
                ts,
            )[k].id,
{
    lemma_insert_run(Seq::<TodoView>::empty(), ts);
    let r = insert_all(Seq::<TodoView>::empty(), ts);
    assert forall|j: int, k: int| 0 <= j < k < ts.len() implies r[j].id != r[k].id by {
        assert(r[j] == with_id(ts[j], (j + 1) as u32));
        assert(r[k] == with_id(ts[k], (k + 1) as u32));
    }
}

/// After a bulk delete the store holds exactly the items that were not
/// completed, in their previous relative order with title, completion flag
/// and priority untouched, and their ids form the dense sequence 1..N with
/// N the number of survivors. The result is again a well-formed store.
pub proof fn lemma_delete_renumbers_densely(s: Seq<TodoView>)
    requires
        s.len() <= u32::MAX,
    ensures
        spec_delete(s).len() == surviving(s).len(),
        forall|k: int|
            0 <= k < surviving(s).len() ==> (#[trigger] spec_delete(s)[k]).id == Some(
                (k + 1) as u32,
            ),
        forall|k: int|
            0 <= k < surviving(s).len() ==> (#[trigger] spec_delete(s)[k]).title
                == surviving(s)[k].title && spec_delete(s)[k].completed == surviving(
                s,
            )[k].completed && spec_delete(s)[k].priority == surviving(s)[k].priority,
        wf_seq(spec_delete(s)),
{
    lemma_surviving_len(s);
}

/// The survivors of a bulk delete are never more numerous than the store.
proof fn lemma_surviving_len(s: Seq<TodoView>)
    ensures
        surviving(s).len() <= s.len(),
    decreases s.len(),
{
    if s.len() == 0 {
        reveal_with_fuel(Seq::filter, 1);
    } else {
        lemma_surviving_len(s.drop_last());
        lemma_surviving_push(s.drop_last(), s.last());
        assert(s.drop_last().push(s.last()) =~= s);
    }
}

/// Toggling an existing id flips `completed` and leaves the id, title and
/// priority of that item — and every other item — unchanged; toggling the
/// same id twice restores the store exactly (involution). An unknown id
/// changes nothing either time.
pub proof fn lemma_toggle_involution(s: Seq<TodoView>, id: u32)
    ensures
        valid_id(s, id) ==> spec_toggle(s, id).len() == s.len() && spec_toggle(s, id)[id - 1]
            == (TodoView { completed: !s[id - 1].completed, ..s[id - 1] }),
        valid_id(s, id) ==> forall|k: int|
            0 <= k < s.len() && k != id - 1 ==> #[trigger] spec_toggle(s, id)[k] == s[k],
        !valid_id(s, id) ==> spec_toggle(s, id) == s,
        spec_toggle(spec_toggle(s, id), id) == s,
{
    assert(spec_toggle(spec_toggle(s, id), id) =~= s);
}

/// Updating an existing id stores the given title and priority and forces
/// `completed` to false whatever it was, keeping that item's id and every
/// other item unchanged.
pub proof fn lemma_update_sets_fields(s: Seq<TodoView>, id: u32, title: Seq<char>, priority: Priority)
    requires
        valid_id(s, id),
    ensures
        spec_update(s, id, title, priority).len() == s.len(),
        spec_update(s, id, title, priority)[id - 1] == (TodoView {
            id: s[id - 1].id,
            title,
            completed: false,
            priority,
        }),
        forall|k: int|
            0 <= k < s.len() && k != id - 1 ==> #[trigger] spec_update(s, id, title, priority)[k]
                == s[k],
{
}

} // verus!
