//! The mathematical model of the store: its state, and what each operation
//! makes of a state.

use vstd::prelude::*;
use crate::error::Error;
use crate::model::{PatchTodoView, PostTodoView, TodoView};

verus! {

/// The state of a store.
pub struct StoreState {
    /// The stored items, oldest first.
    pub live: Seq<TodoView>,
    /// The identifiers of the items that were deleted.
    pub retired: Set<u128>,
}

/// One mutating request to a store. A create carries the identifier that was
/// drawn for it.
pub enum Op {
    Create { id: u128, payload: PostTodoView },
    Patch { id: u128, info: PatchTodoView },
    Delete { id: u128 },
}

impl StoreState {
    /// The state of a store that never held anything.
    pub open spec fn empty() -> StoreState {
        StoreState { live: Seq::empty(), retired: Set::empty() }
    }

    /// Whether a stored item carries `id`.
    pub open spec fn holds(self, id: u128) -> bool {
        exists|i: int| 0 <= i < self.live.len() && (#[trigger] self.live[i]).id == id
    }

    /// Where the item that carries `id` stands among the stored items.
    pub open spec fn position(self, id: u128) -> int {
        choose|i: int| 0 <= i < self.live.len() && (#[trigger] self.live[i]).id == id
    }

    /// Whether `id` was ever given to an item of this store, stored or
    /// deleted.
    pub open spec fn issued(self, id: u128) -> bool {
        self.holds(id) || self.retired.contains(id)
    }

    /// The invariant of a store: no two stored items share an identifier, and
    /// no stored item carries the identifier of a deleted one.
    pub open spec fn wf(self) -> bool {
        &&& forall|i: int, j: int|
            0 <= i < j < self.live.len() ==> (#[trigger] self.live[i]).id != (
            #[trigger] self.live[j]).id
        &&& forall|i: int|
            0 <= i < self.live.len() ==> !self.retired.contains((#[trigger] self.live[i]).id)
    }

    /// Where a window that skips `skip` items starts.
    pub open spec fn window_start(self, skip: nat) -> int {
        if skip <= self.live.len() {
            skip as int
        } else {
            self.live.len() as int
        }
    }

    /// Where a window that skips `skip` items and returns at most `limit`
    /// ends.
    pub open spec fn window_end(self, skip: nat, limit: Option<nat>) -> int {
        let start = self.window_start(skip);
        match limit {
            Some(max) => if start + max <= self.live.len() {
                start + max
            } else {
                self.live.len() as int
            },
            None => self.live.len() as int,
        }
    }

    /// The stored items that a list request returns: those after the first
    /// `skip`, in order, up to `limit` of them.
    pub open spec fn window(self, skip: nat, limit: Option<nat>) -> Seq<TodoView> {
        self.live.subrange(self.window_start(skip), self.window_end(skip, limit))
    }

    /// The state after a create that was given the unused identifier `id`:
    /// the new item, not completed whatever the payload says, stands last.
    pub open spec fn create(self, id: u128, payload: PostTodoView) -> StoreState {
        StoreState { live: self.live.push(payload.open_with_id(id)), retired: self.retired }
    }

    /// What a create that was given the identifier `id` returns: the new
    /// item, or a fatal error if the identifier was issued before.
    pub open spec fn create_outcome(self, id: u128, payload: PostTodoView) -> Result<
        TodoView,
        Error,
    > {
        if self.issued(id) {
            Err(Error::DatabaseInternalFatal)
        } else {
            Ok(payload.open_with_id(id))
        }
    }

    /// The state after a patch of the item that carries `id`; the same state
    /// if there is no such item.
    pub open spec fn patch(self, id: u128, info: PatchTodoView) -> StoreState {
        if self.holds(id) {
            let at = self.position(id);
            StoreState {
                live: self.live.update(at, self.live[at].patched(info)),
                retired: self.retired,
            }
        } else {
            self
        }
    }

    /// What a patch of the item that carries `id` returns: the patched item,
    /// or the error that names `id` if there is no such item.
    pub open spec fn patch_outcome(self, id: u128, info: PatchTodoView) -> Result<
        TodoView,
        Error,
    > {
        if self.holds(id) {
            Ok(self.live[self.position(id)].patched(info))
        } else {
            Err(Error::PatchTodoNotFound { id })
        }
    }

    /// The state after a delete of the item that carries `id`: the item is
    /// gone, the others keep their order, and `id` is retired. The same state
    /// if there is no such item.
    pub open spec fn delete(self, id: u128) -> StoreState {
        if self.holds(id) {
            StoreState {
                live: self.live.remove(self.position(id)),
                retired: self.retired.insert(id),
            }
        } else {
            self
        }
    }

    /// What a delete of the item that carries `id` returns: the item as it
    /// last was, or the error that names `id` if there is no such item.
    pub open spec fn delete_outcome(self, id: u128) -> Result<TodoView, Error> {
        if self.holds(id) {
            Ok(self.live[self.position(id)])
        } else {
            Err(Error::DeleteTodoNotFound { id })
        }
    }

    /// The state after one request. A create whose identifier was issued
    /// before fails and leaves the state as it was.
    pub open spec fn step(self, op: Op) -> StoreState {
        match op {
            Op::Create { id, payload } => if self.issued(id) {
                self
            } else {
                self.create(id, payload)
            },
            Op::Patch { id, info } => self.patch(id, info),
            Op::Delete { id } => self.delete(id),
        }
    }

    /// The state after a series of requests, served in order.
    pub open spec fn run(self, ops: Seq<Op>) -> StoreState
        decreases ops.len(),
    {
        if ops.len() == 0 {
            self
        } else {
            self.run(ops.drop_last()).step(ops.last())
        }
    }

    /// In a well-formed state, the item found at `at` under the identifier
    /// `id` is the one that `position` names.
    pub proof fn lemma_position_is(self, id: u128, at: int)
        requires
            self.wf(),
            0 <= at < self.live.len(),
            self.live[at].id == id,
        ensures
            self.holds(id),
            self.position(id) == at,
    {
        let p = self.position(id);
        assert(0 <= p < self.live.len() && self.live[p].id == id);
        if p < at {
            assert(self.live[p].id != self.live[at].id);
        } else if at < p {
            assert(self.live[at].id != self.live[p].id);
        }
    }
}

} // verus!
