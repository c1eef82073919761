//! The table held in memory: the rows in a vector, newest first. It does to
//! its rows what `Table` says each statement does, and so can stand in for a
//! database wherever none is at hand.

use vstd::prelude::*;
use crate::response::views;
use crate::table::Table;
use crate::todo::{Timestamp, Todo, TodoView};

verus! {

/// Whether the ids of `rows` fall strictly from each row to the next.
spec fn descending(rows: Seq<Todo>) -> bool {
    forall|i: int, j: int| 0 <= i < j < rows.len() ==> (#[trigger] rows[i]).id > (#[trigger] rows[j]).id
}

/// Whether one of `rows` has this id.
spec fn has_row(rows: Seq<Todo>, id: int) -> bool {
    exists|i: int| 0 <= i < rows.len() && (#[trigger] rows[i]).id == id
}

/// Where in `rows` the row with this id stands.
spec fn position(rows: Seq<Todo>, id: int) -> int {
    choose|i: int| 0 <= i < rows.len() && (#[trigger] rows[i]).id == id
}

/// The table that `rows` and `last_id` stand for.
spec fn table_of(rows: Seq<Todo>, last_id: int) -> Table {
    Table {
        rows: Map::new(|id: int| has_row(rows, id), |id: int| rows[position(rows, id)]@),
        last_id,
    }
}

/// In a descending sequence a row is found under its id, and there only.
proof fn lemma_row_found(rows: Seq<Todo>, i: int)
    requires
        descending(rows),
        0 <= i < rows.len(),
    ensures
        has_row(rows, rows[i].id as int),
        position(rows, rows[i].id as int) == i,
        table_of(rows, 0).find(rows[i].id as int) == Some(rows[i]@),
{
    let p = position(rows, rows[i].id as int);
    assert(0 <= p < rows.len() && rows[p].id == rows[i].id);
    if p < i {
        assert(rows[p].id > rows[i].id);
    }
    if i < p {
        assert(rows[i].id > rows[p].id);
    }
}

/// A descending sequence whose ids stay within `last_id` stands for a well
/// formed table.
proof fn lemma_table_wf(rows: Seq<Todo>, last_id: int)
    requires
        descending(rows),
        forall|i: int| 0 <= i < rows.len() ==> (#[trigger] rows[i]).id <= last_id,
    ensures
        table_of(rows, last_id).wf(),
{
    let table = table_of(rows, last_id);
    let ids = rows.map_values(|row: Todo| row.id as int);
    assert(table.rows.dom() =~= ids.to_set()) by {
        assert forall|id: int| table.rows.dom().contains(id) implies ids.to_set().contains(
            id,
        ) by {
            let i = position(rows, id);
            assert(ids[i] == id);
        }
        assert forall|id: int| ids.to_set().contains(id) implies table.rows.dom().contains(
            id,
        ) by {
            let i = choose|i: int| 0 <= i < ids.len() && ids[i] == id;
            assert(rows[i].id == id);
        }
    }
    vstd::seq_lib::seq_to_set_is_finite(ids);
    assert forall|id: int| #[trigger] table.rows.contains_key(id) implies table.rows[id].id == id
        && id <= last_id by {
        let i = position(rows, id);
        assert(rows[i].id == id);
    }
}

/// The table in memory.
#[derive(Debug)]
pub struct TodoTable {
    rows: Vec<Todo>,
    last_id: i64,
}

impl View for TodoTable {
    type V = Table;

    closed spec fn view(&self) -> Table {
        table_of(self.rows@, self.last_id as int)
    }
}

impl TodoTable {
    /// The rows stand newest first, no id twice, none beyond the last one
    /// assigned. `new` establishes this and every method keeps it.
    pub closed spec fn wf(&self) -> bool {
        &&& descending(self.rows@)
        &&& forall|i: int| 0 <= i < self.rows@.len() ==> (#[trigger] self.rows@[i]).id <= self.last_id
    }

    /// A table without rows.
    pub fn new() -> (table: TodoTable)
        ensures
            table.wf(),
            table@ == Table::empty(),
            table@.wf(),
    {
        let table = TodoTable { rows: Vec::new(), last_id: 0 };
        proof {
            assert(table@.rows =~= Map::<int, TodoView>::empty());
            lemma_table_wf(table.rows@, 0);
        }
        table
    }

    /// Where the row with this id stands, if it exists.
    fn index_of(&self, id: i64) -> (found: Option<usize>)
        ensures
            match found {
                Some(i) => i < self.rows@.len() && self.rows@[i as int].id == id,
                None => !has_row(self.rows@, id as int),
            },
    {
        let mut i: usize = 0;
        while i < self.rows.len()
            invariant
                i <= self.rows@.len(),
                forall|k: int| 0 <= k < i ==> (#[trigger] self.rows@[k]).id != id,
            decreases self.rows@.len() - i,
        {
            if self.rows[i].id == id {
                return Some(i);
            }
            i += 1;
        }
        None
    }

    /// Every row, newest first.
    pub fn fetch_all(&self) -> (rows: Vec<Todo>)
        requires
            self.wf(),
        ensures
            self@.wf(),
            self@.lists(views(rows@)),
    {
        let mut out: Vec<Todo> = Vec::new();
        let mut i: usize = 0;
        while i < self.rows.len()
            invariant
                i <= self.rows@.len(),
                out@.len() == i,
                forall|k: int| 0 <= k < i ==> (#[trigger] out@[k])@ == self.rows@[k]@,
            decreases self.rows@.len() - i,
        {
            out.push(self.rows[i].duplicate());
            i += 1;
        }
        proof {
            lemma_table_wf(self.rows@, self.last_id as int);
            let listing = views(out@);
            assert forall|k: int| 0 <= k < listing.len() implies self@.find(
                (#[trigger] listing[k]).id,
            ) == Some(listing[k]) by {
                assert(listing[k] == out@[k]@);
                lemma_row_found(self.rows@, k);
            }
            assert forall|a: int, b: int| 0 <= a < b < listing.len() implies (#[trigger] listing[a]).id
                > (#[trigger] listing[b]).id by {
                assert(listing[a] == out@[a]@);
                assert(listing[b] == out@[b]@);
                assert(self.rows@[a].id > self.rows@[b].id);
            }
            assert forall|id: int| #[trigger] self@.rows.contains_key(id) implies exists|k: int|
                0 <= k < listing.len() && (#[trigger] listing[k]).id == id by {
                let k = position(self.rows@, id);
                assert(listing[k] == out@[k]@);
                assert(listing[k].id == id);
            }
        }
        out
    }

    /// The row with this id, if it exists.
    pub fn fetch_optional(&self, id: i64) -> (found: Option<Todo>)
        requires
            self.wf(),
        ensures
            self@.wf(),
            match found {
                Some(row) => self@.find(id as int) == Some(row@),
                None => self@.find(id as int) is None,
            },
    {
        proof {
            lemma_table_wf(self.rows@, self.last_id as int);
        }
        match self.index_of(id) {
            Some(i) => {
                proof {
                    lemma_row_found(self.rows@, i as int);
                }
                Some(self.rows[i].duplicate())
            },
            None => None,
        }
    }

    /// Inserts a row with this title, not completed, created at this time,
    /// under the id that follows the last one assigned, and returns it.
    /// Returns `None`, and leaves the table as it is, once the ids are used
    /// up.
    pub fn insert(&mut self, title: String, created_at: Timestamp) -> (inserted: Option<Todo>)
        requires
            old(self).wf(),
        ensures
            final(self).wf(),
            old(self)@.wf(),
            final(self)@.wf(),
            old(self)@.last_id < i64::MAX <==> inserted is Some,
            match inserted {
                Some(row) => {
                    &&& old(self)@.admits(row@, title@)
                    &&& row@.id == old(self)@.last_id + 1
                    &&& row@.created_at == created_at
                    &&& final(self)@ == old(self)@.insert(row@)
                },
                None => final(self)@ == old(self)@,
            },
    {
        proof {
            lemma_table_wf(self.rows@, self.last_id as int);
        }
        if self.last_id == i64::MAX {
            return None;
        }
        let id: i64 = self.last_id + 1;
        let row = Todo { id, title, completed: false, created_at };
        let copy = row.duplicate();
        let ghost before = self.rows@;
        self.last_id = id;
        self.rows.insert(0, row);
        proof {
            let after = self.rows@;
            assert(after[0] == row);
            assert forall|i: int| 1 <= i < after.len() implies after[i] == before[i - 1] by {}
            assert(descending(after)) by {
                assert forall|i: int, j: int| 0 <= i < j < after.len() implies (#[trigger] after[i]).id
                    > (#[trigger] after[j]).id by {
                    assert(after[j] == before[j - 1]);
                    if i > 0 {
                        assert(after[i] == before[i - 1]);
                    }
                }
            }
            assert forall|i: int| 0 <= i < after.len() implies (#[trigger] after[i]).id <= id by {
                if i > 0 {
                    assert(after[i] == before[i - 1]);
                }
            }
            lemma_table_wf(after, id as int);
            let lhs = table_of(after, id as int);
            let rhs = table_of(before, id - 1).insert(copy@);
            assert(lhs.rows =~= rhs.rows) by {
                assert forall|k: int| lhs.rows.contains_key(k) <==> rhs.rows.contains_key(k) by {
                    if has_row(after, k) {
                        let i = position(after, k);
                        if i > 0 {
                            assert(before[i - 1].id == k);
                        }
                    }
                    if has_row(before, k) {
                        let i = position(before, k);
                        assert(after[i + 1].id == k);
                    }
                    if k == id {
                        assert(after[0].id == k);
                    }
                }
                assert forall|k: int| lhs.rows.contains_key(k) implies lhs.rows[k]
                    == rhs.rows[k] by {
                    let i = position(after, k);
                    lemma_row_found(after, i);
                    if i > 0 {
                        lemma_row_found(before, i - 1);
                    }
                }
            }
        }
        Some(copy)
    }

    /// Sets the completion flag of the row with this id and returns the row
    /// as it then stands, or `None` where there is no such row.
    pub fn set_completed(&mut self, id: i64, completed: bool) -> (updated: Option<Todo>)
        requires
            old(self).wf(),
        ensures
            final(self).wf(),
            old(self)@.wf(),
            final(self)@.wf(),
            final(self)@ == old(self)@.set_completed(id as int, completed),
            match updated {
                Some(row) => final(self)@.find(id as int) == Some(row@),
                None => !old(self)@.contains(id as int),
            },
    {
        proof {
            lemma_table_wf(self.rows@, self.last_id as int);
        }
        match self.index_of(id) {
            Some(i) => {
                let ghost before = self.rows@;
                let current = &self.rows[i];
                let row = Todo {
                    id: current.id,
                    title: current.title.clone(),
                    completed,
                    created_at: current.created_at,
                };
                let copy = row.duplicate();
                self.rows.set(i, row);
                proof {
                    let after = self.rows@;
                    let last_id = self.last_id as int;
                    assert(descending(after)) by {
                        assert forall|a: int, b: int| 0 <= a < b < after.len() implies (#[trigger] after[a]).id
                            > (#[trigger] after[b]).id by {
                            assert(after[a].id == before[a].id);
                            assert(after[b].id == before[b].id);
                        }
                    }
                    assert forall|k: int| 0 <= k < after.len() implies (#[trigger] after[k]).id
                        <= last_id by {
                        assert(after[k].id == before[k].id);
                    }
                    lemma_table_wf(after, last_id);
                    lemma_row_found(before, i as int);
                    lemma_row_found(after, i as int);
                    let lhs = table_of(after, last_id);
                    let rhs = table_of(before, last_id).set_completed(id as int, completed);
                    assert(lhs.rows =~= rhs.rows) by {
                        assert forall|k: int| lhs.rows.contains_key(k) <==> rhs.rows.contains_key(
                            k,
                        ) by {
                            if has_row(after, k) {
                                let p = position(after, k);
                                assert(before[p].id == k);
                            }
                            if has_row(before, k) {
                                let p = position(before, k);
                                assert(after[p].id == k);
                            }
                        }
                        assert forall|k: int| lhs.rows.contains_key(k) implies lhs.rows[k]
                            == rhs.rows[k] by {
                            let p = position(after, k);
                            lemma_row_found(after, p);
                            lemma_row_found(before, p);
                        }
                    }
                }
                Some(copy)
            },
            None => None,
        }
    }

    /// Deletes the row with this id and returns how many rows went: one, or
    /// none where there is no such row.
    pub fn delete(&mut self, id: i64) -> (rows_affected: u64)
        requires
            old(self).wf(),
        ensures
            final(self).wf(),
            old(self)@.wf(),
            final(self)@.wf(),
            final(self)@ == old(self)@.remove(id as int),
            rows_affected == old(self)@.rows_affected(id as int),
    {
        proof {
            lemma_table_wf(self.rows@, self.last_id as int);
        }
        let ghost before = self.rows@;
        let ghost last_id = self.last_id as int;
        match self.index_of(id) {
            Some(i) => {
                self.rows.remove(i);
                proof {
                    let after = self.rows@;
                    assert forall|k: int| 0 <= k < after.len() implies after[k] == before[if k
                        < i {
                        k
                    } else {
                        k + 1
                    }] by {}
                    assert(descending(after)) by {
                        assert forall|a: int, b: int| 0 <= a < b < after.len() implies (#[trigger] after[a]).id
                            > (#[trigger] after[b]).id by {
                            let a0 = if a < i { a } else { a + 1 };
                            let b0 = if b < i { b } else { b + 1 };
                            assert(after[a] == before[a0]);
                            assert(after[b] == before[b0]);
                        }
                    }
                    assert forall|k: int| 0 <= k < after.len() implies (#[trigger] after[k]).id
                        <= last_id by {
                        let k0 = if k < i { k } else { k + 1 };
                        assert(after[k] == before[k0]);
                    }
                    lemma_table_wf(after, last_id);
                    lemma_row_found(before, i as int);
                    let lhs = table_of(after, last_id);
                    let rhs = table_of(before, last_id).remove(id as int);
                    assert(lhs.rows =~= rhs.rows) by {
                        assert forall|k: int| lhs.rows.contains_key(k) <==> rhs.rows.contains_key(
                            k,
                        ) by {
                            if has_row(after, k) {
                                let p = position(after, k);
                                let shifted = if p < i { p } else { p + 1 };
                                assert(before[shifted].id == k);
                                lemma_row_found(before, shifted);
                            }
                            if has_row(before, k) && k != id {
                                let p = position(before, k);
                                let kept = if p < i { p } else { p - 1 };
                                assert(after[kept].id == k);
                            }
                        }
                        assert forall|k: int| lhs.rows.contains_key(k) implies lhs.rows[k]
                            == rhs.rows[k] by {
                            let p = position(after, k);
                            let shifted = if p < i { p } else { p + 1 };
                            lemma_row_found(after, p);
                            lemma_row_found(before, shifted);
                        }
                    }
                }
                1
            },
            None => {
                proof {
                    assert(table_of(before, last_id).remove(id as int).rows =~= table_of(
                        before,
                        last_id,
                    ).rows);
                }
                0
            },
        }
    }
}

} // verus!
