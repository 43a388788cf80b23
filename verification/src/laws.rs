//! What holds of every store, whatever requests it has served.

use vstd::prelude::*;
use crate::error::Error;
use crate::model::{PatchTodoView, PostTodoView, TodoView};
use crate::state::{Op, StoreState};

verus! {

/// Every request keeps the invariant: no two stored items share an
/// identifier, and no stored item carries a retired one.
pub proof fn lemma_step_keeps_wf(s: StoreState, op: Op)
    requires
        s.wf(),
    ensures
        s.step(op).wf(),
{
    match op {
        Op::Create { id, payload } => {},
        Op::Patch { id, info } => {},
        Op::Delete { id } => {
            if s.holds(id) {
                let at = s.position(id);
                let t = s.delete(id);
                assert forall|i: int| 0 <= i < t.live.len() implies (#[trigger] t.live[i]).id
                    != id by {
                    if i < at {
                        assert(s.live[i].id != s.live[at].id);
                    } else {
                        assert(s.live[at].id != s.live[i + 1].id);
                    }
                }
            }
        },
    }
}

/// Every series of requests keeps the invariant.
pub proof fn lemma_run_keeps_wf(s: StoreState, ops: Seq<Op>)
    requires
        s.wf(),
    ensures
        s.run(ops).wf(),
    decreases ops.len(),
{
    if ops.len() > 0 {
        lemma_run_keeps_wf(s, ops.drop_last());
        lemma_step_keeps_wf(s.run(ops.drop_last()), ops.last());
    }
}

/// An identifier that was issued stays issued through every request: it
/// belongs to a stored item or to a deleted one from then on.
pub proof fn lemma_step_keeps_issued(s: StoreState, op: Op, id: u128)
    requires
        s.wf(),
        s.issued(id),
    ensures
        s.step(op).issued(id),
{
    let t = s.step(op);
    if s.holds(id) {
        let at = s.position(id);
        match op {
            Op::Create { id: new_id, payload } => {
                if !s.issued(new_id) {
                    assert(t.live[at].id == id);
                }
            },
            Op::Patch { id: target, info } => {
                if s.holds(target) {
                    assert(t.live[at].id == id);
                }
            },
            Op::Delete { id: target } => {
                if s.holds(target) && target != id {
                    let gone = s.position(target);
                    if at < gone {
                        assert(t.live[at].id == id);
                    } else {
                        assert(t.live[at - 1].id == id);
                    }
                }
            },
        }
    }
}

/// An identifier that was issued stays issued through every series of
/// requests.
pub proof fn lemma_run_keeps_issued(s: StoreState, ops: Seq<Op>, id: u128)
    requires
        s.wf(),
        s.issued(id),
    ensures
        s.run(ops).issued(id),
    decreases ops.len(),
{
    if ops.len() > 0 {
        lemma_run_keeps_wf(s, ops.drop_last());
        lemma_run_keeps_issued(s, ops.drop_last(), id);
        lemma_step_keeps_issued(s.run(ops.drop_last()), ops.last(), id);
    }
}

/// No two successful creates of one store return the same identifier,
/// whatever requests the store served between them.
pub proof fn lemma_created_ids_differ(
    s: StoreState,
    first: u128,
    first_payload: PostTodoView,
    between: Seq<Op>,
    second: u128,
    second_payload: PostTodoView,
)
    requires
        s.wf(),
        s.create_outcome(first, first_payload) is Ok,
        s.step(Op::Create { id: first, payload: first_payload }).run(between).create_outcome(
            second,
            second_payload,
        ) is Ok,
    ensures
        first != second,
{
    let op = Op::Create { id: first, payload: first_payload };
    let after = s.step(op);
    lemma_step_keeps_wf(s, op);
    assert(after.live[s.live.len() as int].id == first);
    lemma_run_keeps_issued(after, between, first);
}

/// A list request returns a contiguous run of the stored items, in their
/// order, that starts after the first `skip` of them. With a limit it has
/// as many items as the limit allows and the store has left; without one it
/// has all that are left. It is empty when `skip` reaches the store's size.
pub proof fn lemma_window_is_contiguous(s: StoreState, skip: nat, limit: Option<nat>)
    ensures
        skip >= s.live.len() ==> s.window(skip, limit).len() == 0,
        skip <= s.live.len() ==> s.window(skip, limit).len() == match limit {
            Some(max) => if max <= s.live.len() - skip {
                max as int
            } else {
                s.live.len() - skip
            },
            None => s.live.len() - skip,
        },
        forall|k: int|
            0 <= k < s.window(skip, limit).len() ==> #[trigger] s.window(skip, limit)[k]
                == s.live[skip + k],
{
}

/// A patch or a delete that names an identifier which no stored item
/// carries fails with the error that names that identifier, and leaves the
/// store as it was.
pub proof fn lemma_missing_id_changes_nothing(s: StoreState, id: u128, info: PatchTodoView)
    requires
        !s.holds(id),
    ensures
        s.patch_outcome(id, info) == Err::<TodoView, Error>(Error::PatchTodoNotFound { id }),
        s.patch(id, info) == s,
        s.delete_outcome(id) == Err::<TodoView, Error>(Error::DeleteTodoNotFound { id }),
        s.delete(id) == s,
{
}

/// After a delete of a stored item, no stored item carries its identifier:
/// no list request returns such an item, a patch or a second delete of it
/// fails as not found, and a create that draws it again is refused.
pub proof fn lemma_deleted_is_gone(s: StoreState, id: u128)
    requires
        s.wf(),
        s.holds(id),
    ensures
        s.delete(id).wf(),
        !s.delete(id).holds(id),
        s.delete(id).live.len() == s.live.len() - 1,
        forall|skip: nat, limit: Option<nat>, k: int|
            0 <= k < s.delete(id).window(skip, limit).len() ==> (#[trigger] s.delete(id).window(
                skip,
                limit,
            )[k]).id != id,
        forall|info: PatchTodoView| #[trigger]
            s.delete(id).patch_outcome(id, info) == Err::<TodoView, Error>(
                Error::PatchTodoNotFound { id },
            ),
        s.delete(id).delete_outcome(id) == Err::<TodoView, Error>(
            Error::DeleteTodoNotFound { id },
        ),
        forall|payload: PostTodoView| #[trigger]
            s.delete(id).create_outcome(id, payload) == Err::<TodoView, Error>(
                Error::DatabaseInternalFatal,
            ),
{
    let t = s.delete(id);
    lemma_step_keeps_wf(s, Op::Delete { id });
    assert(t.retired.contains(id));
    assert forall|skip: nat, limit: Option<nat>, k: int|
        0 <= k < t.window(skip, limit).len() implies (#[trigger] t.window(skip, limit)[k]).id
        != id by {
        assert(t.window(skip, limit)[k] == t.live[t.window_start(skip) + k]);
    }
}

/// A deleted item never comes back: through every later series of requests
/// its identifier belongs to no stored item.
pub proof fn lemma_deleted_stays_gone(s: StoreState, id: u128, later: Seq<Op>)
    requires
        s.wf(),
        s.holds(id),
    ensures
        !s.delete(id).run(later).holds(id),
{
    let t = s.delete(id);
    lemma_step_keeps_wf(s, Op::Delete { id });
    lemma_retired_stays_retired(t, id, later);
    lemma_run_keeps_wf(t, later);
    let end = t.run(later);
    if end.holds(id) {
        let at = end.position(id);
        assert(!end.retired.contains(end.live[at].id));
    }
}

/// A retired identifier stays retired through every series of requests.
pub proof fn lemma_retired_stays_retired(s: StoreState, id: u128, ops: Seq<Op>)
    requires
        s.retired.contains(id),
    ensures
        s.run(ops).retired.contains(id),
    decreases ops.len(),
{
    if ops.len() > 0 {
        lemma_retired_stays_retired(s, id, ops.drop_last());
    }
}

/// An item that was created and then patched is the created item with the
/// patch applied. So a patch that only sets the completion flag keeps the
/// title, completes the item, and clears the description, even where the
/// create payload had one.
pub proof fn lemma_create_then_patch(
    s: StoreState,
    id: u128,
    payload: PostTodoView,
    info: PatchTodoView,
)
    requires
        s.wf(),
        s.create_outcome(id, payload) is Ok,
    ensures
        s.create(id, payload).patch_outcome(id, info) == Ok::<TodoView, Error>(
            payload.open_with_id(id).patched(info),
        ),
        info == (PatchTodoView { title: None, description: None, completed: Some(true) })
            ==> s.create(id, payload).patch_outcome(id, info) == Ok::<TodoView, Error>(
            TodoView { id, title: payload.title, description: None, completed: true },
        ),
{
    let t = s.create(id, payload);
    lemma_step_keeps_wf(s, Op::Create { id, payload });
    assert(t.live[s.live.len() as int] == payload.open_with_id(id));
    t.lemma_position_is(id, s.live.len() as int);
}

} // verus!
