//! The todo item, the payloads of the operations on it, and their
//! mathematical values.

use vstd::prelude::*;
use vstd::std_specs::convert::FromSpecImpl;
use crate::error::Error;
use crate::ident::{fresh_id, is_random_id, lemma_random_id_is_not_nil};

verus! {

/// The value of a todo item: what the contracts of this crate speak of.
pub struct TodoView {
    pub id: u128,
    pub title: Seq<char>,
    pub description: Option<Seq<char>>,
    pub completed: bool,
}

/// The value of a create payload.
pub struct PostTodoView {
    pub title: Seq<char>,
    pub description: Option<Seq<char>>,
    pub completed: Option<bool>,
}

/// The value of a patch payload.
pub struct PatchTodoView {
    pub title: Option<Seq<char>>,
    pub description: Option<Seq<char>>,
    pub completed: Option<bool>,
}

/// The characters of an optional text.
pub open spec fn text_of(text: Option<String>) -> Option<Seq<char>> {
    match text {
        Some(s) => Some(s@),
        None => None,
    }
}

/// The values of a series of items, in order.
pub open spec fn views(items: Seq<Todo>) -> Seq<TodoView> {
    items.map_values(|item: Todo| item@)
}

/// The value of what an operation returned: the value of the item, or the
/// error as it is.
pub open spec fn outcome_of(returned: Result<Todo, Error>) -> Result<TodoView, Error> {
    match returned {
        Ok(item) => Ok(item@),
        Err(error) => Err(error),
    }
}

impl TodoView {
    /// The item after a patch: title and completion change only where the
    /// payload supplies them; the description is always replaced by the
    /// payload's, so a payload without one clears it.
    pub open spec fn patched(self, info: PatchTodoView) -> TodoView {
        TodoView {
            id: self.id,
            title: match info.title {
                Some(t) => t,
                None => self.title,
            },
            description: info.description,
            completed: match info.completed {
                Some(c) => c,
                None => self.completed,
            },
        }
    }
}

impl PostTodoView {
    /// The item that this payload describes under the identifier `id`, with
    /// the payload's completion flag honoured and a missing one read as
    /// "not completed".
    pub open spec fn with_id(self, id: u128) -> TodoView {
        TodoView {
            id,
            title: self.title,
            description: self.description,
            completed: match self.completed {
                Some(c) => c,
                None => false,
            },
        }
    }

    /// The item that this payload describes under the identifier `id` when
    /// the completion flag is ignored: a new item that is not completed.
    pub open spec fn open_with_id(self, id: u128) -> TodoView {
        TodoView { id, title: self.title, description: self.description, completed: false }
    }
}

/// A todo item: a titled, optionally described task that can be completed.
#[derive(Debug, PartialEq, Eq)]
pub struct Todo {
    id: u128,
    title: String,
    description: Option<String>,
    completed: bool,
}

/// A window on a list of items: how many to skip, and how many to return at
/// most.
#[derive(Debug, Clone, Copy)]
pub struct Pagination {
    pub offset: Option<usize>,
    pub fetch: Option<usize>,
}

/// The payload of a create operation.
#[derive(Debug)]
pub struct PostTodo {
    pub title: String,
    pub description: Option<String>,
    pub completed: Option<bool>,
}

/// The payload of a patch operation.
#[derive(Debug)]
pub struct PatchTodo {
    pub title: Option<String>,
    pub description: Option<String>,
    pub completed: Option<bool>,
}

impl View for Todo {
    type V = TodoView;

    closed spec fn view(&self) -> TodoView {
        TodoView {
            id: self.id,
            title: self.title@,
            description: text_of(self.description),
            completed: self.completed,
        }
    }
}

impl View for PostTodo {
    type V = PostTodoView;

    open spec fn view(&self) -> PostTodoView {
        PostTodoView {
            title: self.title@,
            description: text_of(self.description),
            completed: self.completed,
        }
    }
}

impl View for PatchTodo {
    type V = PatchTodoView;

    open spec fn view(&self) -> PatchTodoView {
        PatchTodoView {
            title: text_of(self.title),
            description: text_of(self.description),
            completed: self.completed,
        }
    }
}

/// A count of items as a signed 64-bit row count: the count itself where it
/// fits, the largest row count where it does not.
pub open spec fn clamped_rows(count: nat) -> int {
    if count <= i64::MAX {
        count as int
    } else {
        i64::MAX as int
    }
}

/// Turns a count of items into a signed 64-bit row count, clamping a count
/// that does not fit to the largest one.
fn rows_of(count: usize) -> (rows: i64)
    ensures
        rows == clamped_rows(count as nat),
{
    if count as u64 <= 0x7fff_ffff_ffff_ffffu64 {
        count as i64
    } else {
        i64::MAX
    }
}

impl Pagination {
    /// How many items the window skips: the offset, or none if it is absent.
    pub open spec fn skip(&self) -> nat {
        match self.offset {
            Some(n) => n as nat,
            None => 0,
        }
    }

    /// How many items the window returns at most; `None` means no limit.
    pub open spec fn limit(&self) -> Option<nat> {
        match self.fetch {
            Some(n) => Some(n as nat),
            None => None,
        }
    }

    /// The number of rows to skip, for a backend that takes signed 64-bit
    /// row counts: the window's skip count, clamped to the largest such
    /// count. No table has more rows than that, so a clamped count still
    /// skips every row.
    pub fn offset_rows(&self) -> (rows: i64)
        ensures
            rows == clamped_rows(self.skip()),
    {
        match self.offset {
            Some(n) => rows_of(n),
            None => 0,
        }
    }

    /// The number of rows to fetch at most, for a backend that takes signed
    /// 64-bit row counts: the window's limit, clamped to the largest such
    /// count, or `None` where the window has no limit.
    pub fn fetch_rows(&self) -> (rows: Option<i64>)
        ensures
            rows == match self.limit() {
                Some(max) => Some(clamped_rows(max) as i64),
                None => None,
            },
    {
        match self.fetch {
            Some(n) => Some(rows_of(n)),
            None => None,
        }
    }
}

impl Todo {
    /// Builds an item from its four parts.
    pub fn new(id: u128, title: String, description: Option<String>, completed: bool) -> (todo:
        Todo)
        ensures
            todo@ == (TodoView {
                id,
                title: title@,
                description: text_of(description),
                completed,
            }),
    {
        Todo { id, title, description, completed }
    }

    /// Builds the item that a create payload describes under a given
    /// identifier.
    pub fn from_post(id: u128, value: PostTodo) -> (todo: Todo)
        ensures
            todo@ == value@.with_id(id),
    {
        let completed = match value.completed {
            Some(c) => c,
            None => false,
        };
        Todo { id, title: value.title, description: value.description, completed }
    }

    /// Applies a patch payload to this item.
    pub fn patch(&mut self, info: PatchTodo)
        ensures
            final(self)@ == old(self)@.patched(info@),
    {
        if let Some(t) = info.title {
            self.title = t;
        }
        self.description = info.description;
        if let Some(c) = info.completed {
            self.completed = c;
        }
    }

    /// The item's identifier.
    pub fn id(&self) -> (id: u128)
        ensures
            id == self@.id,
    {
        self.id
    }

    /// The item's title.
    pub fn title(&self) -> (title: &str)
        ensures
            title@ == self@.title,
    {
        self.title.as_str()
    }

    /// The item's description, if it has one.
    pub fn description(&self) -> (description: Option<&str>)
        ensures
            match description {
                Some(s) => self@.description == Some(s@),
                None => self@.description is None,
            },
    {
        match &self.description {
            Some(s) => Some(s.as_str()),
            None => None,
        }
    }

    /// Whether the item is completed.
    pub fn completed(&self) -> (completed: bool)
        ensures
            completed == self@.completed,
    {
        self.completed
    }
}

impl Clone for Todo {
    fn clone(&self) -> (copy: Todo)
        ensures
            copy@ == self@,
    {
        let description = match &self.description {
            Some(s) => Some(s.clone()),
            None => None,
        };
        Todo { id: self.id, title: self.title.clone(), description, completed: self.completed }
    }
}

impl FromSpecImpl<PostTodo> for Todo {
    /// The conversion draws a random identifier, so no function of the
    /// payload alone gives its result.
    open spec fn obeys_from_spec() -> bool {
        false
    }

    open spec fn from_spec(v: PostTodo) -> Todo {
        arbitrary()
    }
}

impl From<PostTodo> for Todo {
    /// Builds the item that a create payload describes under a newly drawn
    /// random identifier.
    fn from(value: PostTodo) -> (todo: Todo)
        ensures
            is_random_id(todo@.id),
            todo@.id != 0,
            todo@ == value@.with_id(todo@.id),
    {
        let id = fresh_id();
        proof {
            lemma_random_id_is_not_nil(id);
        }
        Todo::from_post(id, value)
    }
}

} // verus!
