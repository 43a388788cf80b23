//! The store itself: the items in insertion order, and the four operations
//! on them.

use vstd::prelude::*;
use crate::error::Error;
use crate::ident::{fresh_id, is_random_id, lemma_random_id_is_not_nil};
use crate::model::{outcome_of, views, Pagination, PatchTodo, PostTodo, Todo, TodoView};
use crate::state::{Op, StoreState};

verus! {

/// An in-memory store of todo items.
pub struct ModelController {
    /// The stored items, oldest first.
    todos: Vec<Todo>,
    /// The identifiers of the items that were deleted.
    retired: Vec<u128>,
}

impl View for ModelController {
    type V = StoreState;

    closed spec fn view(&self) -> StoreState {
        StoreState { live: views(self.todos@), retired: self.retired@.to_set() }
    }
}

impl ModelController {
    /// The invariant of the store; see `StoreState::wf`. `new` establishes it
    /// and every operation keeps it.
    pub open spec fn wf(&self) -> bool {
        self@.wf()
    }

    /// An empty store.
    pub fn new() -> (store: ModelController)
        ensures
            store.wf(),
            store@ == StoreState::empty(),
    {
        let store = ModelController { todos: Vec::new(), retired: Vec::new() };
        proof {
            assert(store@.live =~= Seq::<TodoView>::empty());
            assert(store@.retired =~= Set::<u128>::empty());
        }
        store
    }

    /// Where the item that carries `id` is stored, if there is one.
    fn find(&self, id: u128) -> (found: Option<usize>)
        ensures
            match found {
                Some(at) => at < self@.live.len() && self@.live[at as int].id == id,
                None => !self@.holds(id),
            },
    {
        let mut i: usize = 0;
        while i < self.todos.len()
            invariant
                i <= self.todos.len(),
                forall|k: int| 0 <= k < i ==> (#[trigger] self@.live[k]).id != id,
            decreases self.todos.len() - i,
        {
            if self.todos[i].id() == id {
                return Some(i);
            }
            i += 1;
        }
        None
    }

    /// Whether `id` belonged to an item that was deleted.
    fn is_retired(&self, id: u128) -> (found: bool)
        ensures
            found == self@.retired.contains(id),
    {
        let mut i: usize = 0;
        while i < self.retired.len()
            invariant
                i <= self.retired.len(),
                forall|k: int| 0 <= k < i ==> self.retired@[k] != id,
            decreases self.retired.len() - i,
        {
            if self.retired[i] == id {
                return true;
            }
            i += 1;
        }
        false
    }

    /// Lists the stored items in insertion order, skipping the first
    /// `pagination.offset` and returning at most `pagination.fetch` of them.
    /// A missing offset skips nothing and a missing limit returns all that is
    /// left. Never fails.
    pub fn get_todos(&self, pagination: Pagination) -> (listed: Result<Vec<Todo>, Error>)
        ensures
            listed matches Ok(items) && {
                &&& views(items@) == self@.window(pagination.skip(), pagination.limit())
                &&& items@.len() == self@.window(pagination.skip(), pagination.limit()).len()
            },
    {
        let len = self.todos.len();
        let skip = match pagination.offset {
            Some(n) => n,
            None => 0,
        };
        let start = if skip <= len {
            skip
        } else {
            len
        };
        let end = match pagination.fetch {
            Some(max) => if max <= len - start {
                start + max
            } else {
                len
            },
            None => len,
        };
        let mut items: Vec<Todo> = Vec::new();
        let mut i = start;
        while i < end
            invariant
                start <= i <= end <= self.todos.len(),
                views(items@) == views(self.todos@).subrange(start as int, i as int),
            decreases end - i,
        {
            let ghost before = items@;
            let item = self.todos[i].clone();
            items.push(item);
            proof {
                assert(views(items@) =~= views(before).push(item@));
                assert(views(self.todos@).subrange(start as int, i + 1) =~= views(
                    self.todos@,
                ).subrange(start as int, i as int).push(self.todos[i as int]@));
            }
            i += 1;
        }
        Ok(items)
    }

    /// Stores a new item under the identifier `id`, which the caller drew.
    ///
    /// Succeeds exactly when `id` was never issued by this store. The new
    /// item is not completed, whatever the payload's flag says, and stands
    /// last. A used identifier is refused with `DatabaseInternalFatal` and
    /// leaves the store as it was.
    pub fn post_todo_with_id(&mut self, id: u128, todo: PostTodo) -> (created: Result<Todo, Error>)
        requires
            old(self).wf(),
        ensures
            final(self).wf(),
            outcome_of(created) == old(self)@.create_outcome(id, todo@),
            final(self)@ == old(self)@.step(Op::Create { id, payload: todo@ }),
            created is Ok ==> final(self)@.holds(id),
    {
        if self.find(id).is_some() || self.is_retired(id) {
            return Err(Error::DatabaseInternalFatal);
        }
        let item = Todo::new(id, todo.title, todo.description, false);
        let copy = item.clone();
        self.todos.push(item);
        proof {
            assert(self@.live =~= old(self)@.live.push(item@));
            assert(self@.live[old(self)@.live.len() as int].id == id);
        }
        Ok(copy)
    }

    /// Stores a new item under a newly drawn random identifier and returns
    /// it.
    ///
    /// The draw decides the outcome, as `post_todo_with_id` states for each
    /// identifier: the item is stored unless the drawn identifier was issued
    /// by this store before, which is reported as `DatabaseInternalFatal`.
    /// So the create can fail only on a store that has already issued an
    /// identifier with the layout of a random UUID; on every other store,
    /// a new one among them, it succeeds whatever is drawn.
    pub fn post_todo(&mut self, todo: PostTodo) -> (created: Result<Todo, Error>)
        requires
            old(self).wf(),
        ensures
            final(self).wf(),
            created is Err ==> exists|id: u128| #[trigger] is_random_id(id) && old(self)@.issued(id),
            match created {
                Ok(item) => {
                    &&& is_random_id(item@.id)
                    &&& item@.id != 0
                    &&& !old(self)@.issued(item@.id)
                    &&& item@ == todo@.open_with_id(item@.id)
                    &&& final(self)@ == old(self)@.create(item@.id, todo@)
                    &&& final(self)@.holds(item@.id)
                },
                Err(error) => error == Error::DatabaseInternalFatal && final(self)@ == old(self)@,
            },
    {
        let id = fresh_id();
        proof {
            lemma_random_id_is_not_nil(id);
        }
        let created = self.post_todo_with_id(id, todo);
        proof {
            if created is Err {
                assert(is_random_id(id) && old(self)@.issued(id));
            }
        }
        created
    }

    /// Patches the item that carries `id` and returns it as it then is.
    ///
    /// The title and the completion flag change only where the payload
    /// supplies them; the description is always replaced by the payload's,
    /// so a payload without one clears it. If no item carries `id`, fails
    /// with `PatchTodoNotFound` naming `id` and leaves the store as it was.
    pub fn patch_todo(&mut self, id: u128, info: PatchTodo) -> (patched: Result<Todo, Error>)
        requires
            old(self).wf(),
        ensures
            final(self).wf(),
            outcome_of(patched) == old(self)@.patch_outcome(id, info@),
            final(self)@ == old(self)@.patch(id, info@),
    {
        match self.find(id) {
            None => Err(Error::PatchTodoNotFound { id }),
            Some(at) => {
                proof {
                    old(self)@.lemma_position_is(id, at as int);
                }
                let mut item = self.todos[at].clone();
                item.patch(info);
                let copy = item.clone();
                self.todos.set(at, item);
                proof {
                    assert(self@.live =~= old(self)@.live.update(at as int, item@));
                }
                Ok(copy)
            },
        }
    }

    /// Removes the item that carries `id` and returns it as it last was.
    ///
    /// The other items keep their order, and `id` is never issued again. If
    /// no item carries `id`, fails with `DeleteTodoNotFound` naming `id` and
    /// leaves the store as it was.
    pub fn delete_todo(&mut self, id: u128) -> (deleted: Result<Todo, Error>)
        requires
            old(self).wf(),
        ensures
            final(self).wf(),
            outcome_of(deleted) == old(self)@.delete_outcome(id),
            final(self)@ == old(self)@.delete(id),
    {
        match self.find(id) {
            None => Err(Error::DeleteTodoNotFound { id }),
            Some(at) => {
                proof {
                    old(self)@.lemma_position_is(id, at as int);
                }
                let item = self.todos.remove(at);
                let ghost before = self.retired@;
                self.retired.push(id);
                proof {
                    assert(self@.live =~= old(self)@.live.remove(at as int));
                    assert forall|other: u128|
                        self.retired@.contains(other) <==> before.contains(other) || other
                            == id by {
                        if before.contains(other) {
                            let k = choose|k: int| 0 <= k < before.len() && before[k] == other;
                            assert(self.retired@[k] == other);
                        }
                        assert(self.retired@[before.len() as int] == id);
                    }
                    assert(self@.retired =~= old(self)@.retired.insert(id));
                }
                Ok(item)
            },
        }
    }
}

} // verus!
