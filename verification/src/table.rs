//! The table as a mathematical object: a finite map from ids to rows and the
//! highest id ever given out. Each statement of the service is a function on
//! it.

use vstd::prelude::*;
use crate::error::is_row_not_found;
use crate::response::views;
use crate::todo::{Todo, TodoView};

verus! {

/// The rows of the table by id, and the highest id that was ever assigned.
pub struct Table {
    pub rows: Map<int, TodoView>,
    pub last_id: int,
}

impl Table {
    /// Finitely many rows, each stored under its own id, none with an id
    /// beyond the last one assigned.
    pub open spec fn wf(self) -> bool {
        &&& self.rows.dom().finite()
        &&& forall|id: int| #[trigger]
            self.rows.contains_key(id) ==> self.rows[id].id == id && id <= self.last_id
    }

    /// The table without rows, before any id was assigned.
    pub open spec fn empty() -> Table {
        Table { rows: Map::empty(), last_id: 0 }
    }

    /// Whether a row with this id exists.
    pub open spec fn contains(self, id: int) -> bool {
        self.rows.contains_key(id)
    }

    /// The row with this id, if there is one.
    pub open spec fn find(self, id: int) -> Option<TodoView> {
        if self.rows.contains_key(id) {
            Some(self.rows[id])
        } else {
            None
        }
    }

    /// Whether `row` may be the row that an insertion of `title` creates: its
    /// id lies beyond every id assigned so far, it carries the title, and it
    /// is not completed. The table picks the id and the time.
    pub open spec fn admits(self, row: TodoView, title: Seq<char>) -> bool {
        &&& row.id > self.last_id
        &&& row.title == title
        &&& !row.completed
    }

    /// The table after `row` was inserted.
    pub open spec fn insert(self, row: TodoView) -> Table {
        Table { rows: self.rows.insert(row.id, row), last_id: row.id }
    }

    /// The table after the completion flag of row `id` was set. Nothing else
    /// of the row changes, and nothing at all where the row is missing.
    pub open spec fn set_completed(self, id: int, completed: bool) -> Table {
        if self.rows.contains_key(id) {
            Table {
                rows: self.rows.insert(id, TodoView { completed, ..self.rows[id] }),
                last_id: self.last_id,
            }
        } else {
            self
        }
    }

    /// The table after row `id` was deleted. Its id is not given out again.
    pub open spec fn remove(self, id: int) -> Table {
        Table { rows: self.rows.remove(id), last_id: self.last_id }
    }

    /// The number of rows that deleting row `id` affects.
    pub open spec fn rows_affected(self, id: int) -> u64 {
        if self.rows.contains_key(id) {
            1
        } else {
            0
        }
    }

    /// Whether `listing` is the table read newest first: ids strictly
    /// descending, every entry a row of the table, every row an entry.
    pub open spec fn lists(self, listing: Seq<TodoView>) -> bool {
        &&& forall|i: int, j: int|
            0 <= i < j < listing.len() ==> #[trigger] listing[i].id > #[trigger] listing[j].id
        &&& forall|i: int|
            0 <= i < listing.len() ==> self.find(#[trigger] listing[i].id) == Some(listing[i])
        &&& forall|id: int| #[trigger]
            self.rows.contains_key(id) ==> exists|i: int|
                0 <= i < listing.len() && #[trigger] listing[i].id == id
    }

    /// The table after the rows of `created` were inserted one after the
    /// other.
    pub open spec fn insert_all(self, created: Seq<TodoView>) -> Table
        decreases created.len(),
    {
        if created.len() == 0 {
            self
        } else {
            self.insert_all(created.drop_last()).insert(created.last())
        }
    }

    /// Whether the rows of `created` may be the rows that as many insertions
    /// create, one after the other: each is admitted by the table that the
    /// ones before it left.
    pub open spec fn admits_all(self, created: Seq<TodoView>) -> bool
        decreases created.len(),
    {
        if created.len() == 0 {
            true
        } else {
            &&& self.admits_all(created.drop_last())
            &&& self.insert_all(created.drop_last()).admits(
                created.last(),
                created.last().title,
            )
        }
    }
}

/// Whether `fetched` is what the driver returns for a statement that is run
/// for exactly one row and finds `found`: the row, or its error for no row
/// where there is none.
pub open spec fn fetched_one(found: Option<TodoView>, fetched: Result<Todo, sqlx::Error>) -> bool {
    match found {
        Some(row) => fetched is Ok && fetched->Ok_0@ == row,
        None => fetched is Err && is_row_not_found(fetched->Err_0),
    }
}

/// Whether `fetched` is what the driver returns for a statement that is run
/// for all its rows and finds `listing`.
pub open spec fn fetched_all(listing: Seq<TodoView>, fetched: Result<Vec<Todo>, sqlx::Error>) -> bool {
    fetched is Ok && views(fetched->Ok_0@) == listing
}

/// Whether `executed` is what the driver returns for a statement that is run
/// for its count and affects `rows_affected` rows.
pub open spec fn executed(rows_affected: u64, executed: Result<u64, sqlx::Error>) -> bool {
    executed == Ok::<u64, sqlx::Error>(rows_affected)
}

} // verus!
