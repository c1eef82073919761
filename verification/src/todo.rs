//! The one entity of the service and the two request payloads.

use vstd::prelude::*;

verus! {

/// A point in time: whole seconds since 1970-01-01T00:00:00Z and the
/// nanoseconds into that second. The service never computes with it; it takes
/// it from the table and hands it on.
#[derive(Clone, Copy, Debug, PartialEq, Eq, Structural)]
pub struct Timestamp {
    pub secs: i64,
    pub nanos: u32,
}

/// A task with a title, a completion flag and the moment it was created.
#[derive(Clone, Debug, PartialEq, Eq)]
pub struct Todo {
    pub id: i64,
    pub title: String,
    pub completed: bool,
    pub created_at: Timestamp,
}

/// A `Todo` as a mathematical value.
pub struct TodoView {
    pub id: int,
    pub title: Seq<char>,
    pub completed: bool,
    pub created_at: Timestamp,
}

impl View for Todo {
    type V = TodoView;

    open spec fn view(&self) -> TodoView {
        TodoView {
            id: self.id as int,
            title: self.title@,
            completed: self.completed,
            created_at: self.created_at,
        }
    }
}

impl Todo {
    /// A second copy of this row.
    pub fn duplicate(&self) -> (copy: Todo)
        ensures
            copy@ == self@,
    {
        Todo {
            id: self.id,
            title: self.title.clone(),
            completed: self.completed,
            created_at: self.created_at,
        }
    }
}

/// The body of a request that creates a row.
#[derive(Clone, Debug, PartialEq, Eq)]
pub struct CreateTodo {
    pub title: String,
}

/// The body of a request that updates a row.
#[derive(Clone, Copy, Debug, PartialEq, Eq)]
pub struct UpdateTodo {
    pub completed: bool,
}

} // verus!
