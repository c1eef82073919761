//! What holds of the service whenever its table answers as `Table` says:
//! the laws that tie the handlers to one another.

use vstd::prelude::*;
use crate::error::AppError;
use crate::handlers::{
    create_todo_spec, delete_todo_spec, get_todo_spec, into_response_spec, list_todos_spec,
    update_todo_spec,
};
use crate::response::{BodyView, ResponseView, CREATED, NOT_FOUND, NO_CONTENT, OK};
use crate::table::{executed, fetched_all, fetched_one, Table};
use crate::todo::{Todo, TodoView};

verus! {

/// Inserting a row that the table admits keeps the table well formed, keeps
/// every other row as it was, and never reuses an id.
pub proof fn insert_keeps_table(table: Table, row: TodoView, title: Seq<char>)
    requires
        table.wf(),
        table.admits(row, title),
    ensures
        table.insert(row).wf(),
        !table.contains(row.id),
        table.insert(row).find(row.id) == Some(row),
        table.insert(row).last_id > table.last_id,
        table.insert(row).rows.dom().len() == table.rows.dom().len() + 1,
        forall|id: int| id != row.id ==> table.insert(row).find(id) == table.find(id),
{
    assert(!table.rows.contains_key(row.id));
}

/// Setting the completion flag keeps the table well formed and changes
/// nothing but that flag of that row: not its id, its title or its time of
/// creation, and no other row.
pub proof fn set_completed_keeps_table(table: Table, id: int, completed: bool)
    requires
        table.wf(),
    ensures
        table.set_completed(id, completed).wf(),
        table.set_completed(id, completed).last_id == table.last_id,
        table.set_completed(id, completed).rows.dom() == table.rows.dom(),
        table.contains(id) ==> table.set_completed(id, completed).find(id) == Some(
            TodoView { completed, ..table.rows[id] },
        ),
        forall|other: int|
            other != id ==> table.set_completed(id, completed).find(other) == table.find(other),
{
    let after = table.set_completed(id, completed);
    assert(after.rows.dom() =~= table.rows.dom());
}

/// Deleting keeps the table well formed, takes away that row and no other,
/// and leaves the last assigned id where it was, so that the id of a deleted
/// row is never assigned again.
pub proof fn remove_keeps_table(table: Table, id: int)
    requires
        table.wf(),
    ensures
        table.remove(id).wf(),
        table.remove(id).last_id == table.last_id,
        table.remove(id).find(id) is None,
        forall|other: int| other != id ==> table.remove(id).find(other) == table.find(other),
        table.remove(id).rows.dom().len() + table.rows_affected(id) == table.rows.dom().len(),
{
}

/// A row that was created is the row that a fetch by its id returns: the
/// creation answers 201 with a row of the given title that is not completed,
/// and the fetch answers 200 with that same row.
pub proof fn created_row_is_fetched(
    table: Table,
    title: Seq<char>,
    inserted: Result<Todo, sqlx::Error>,
    fetched: Result<Todo, sqlx::Error>,
)
    requires
        table.wf(),
        inserted is Ok,
        table.admits(inserted->Ok_0@, title),
        fetched_one(table.insert(inserted->Ok_0@).find(inserted->Ok_0@.id), fetched),
    ensures
        create_todo_spec(inserted) == Ok::<ResponseView, AppError>(
            ResponseView { status: CREATED, body: BodyView::Todo(inserted->Ok_0@) },
        ),
        get_todo_spec(fetched) == Ok::<ResponseView, AppError>(
            ResponseView { status: OK, body: BodyView::Todo(inserted->Ok_0@) },
        ),
        inserted->Ok_0@.title == title,
        !inserted->Ok_0@.completed,
{
}

/// A row that was deleted is gone: whatever the deletion answered, a fetch
/// by the same id afterwards answers 404.
pub proof fn deleted_row_is_not_found(
    table: Table,
    id: int,
    deleted: Result<u64, sqlx::Error>,
    fetched: Result<Todo, sqlx::Error>,
)
    requires
        table.wf(),
        executed(table.rows_affected(id), deleted),
        fetched_one(table.remove(id).find(id), fetched),
    ensures
        table.contains(id) ==> delete_todo_spec(deleted) == Ok::<ResponseView, AppError>(
            ResponseView { status: NO_CONTENT, body: BodyView::Empty },
        ),
        get_todo_spec(fetched) == Err::<ResponseView, AppError>(AppError::NotFound),
        into_response_spec(get_todo_spec(fetched)).status == NOT_FOUND,
{
}

/// An update shows in the next fetch: both answer 200 with the row as it was
/// but for the completion flag, which is the one asked for. The title is the
/// old one.
pub proof fn updated_row_is_fetched(
    table: Table,
    id: int,
    completed: bool,
    updated: Result<Todo, sqlx::Error>,
    fetched: Result<Todo, sqlx::Error>,
)
    requires
        table.wf(),
        table.contains(id),
        fetched_one(table.set_completed(id, completed).find(id), updated),
        fetched_one(table.set_completed(id, completed).find(id), fetched),
    ensures
        update_todo_spec(updated) == Ok::<ResponseView, AppError>(
            ResponseView {
                status: OK,
                body: BodyView::Todo(TodoView { completed, ..table.rows[id] }),
            },
        ),
        get_todo_spec(fetched) == update_todo_spec(updated),
        fetched->Ok_0@.completed == completed,
        fetched->Ok_0@.title == table.rows[id].title,
{
}

/// A row that does not exist is not found, whichever way it is asked for:
/// fetching, updating and deleting all answer 404, and the table stays as it
/// is.
pub proof fn missing_row_is_not_found(
    table: Table,
    id: int,
    completed: bool,
    fetched: Result<Todo, sqlx::Error>,
    updated: Result<Todo, sqlx::Error>,
    deleted: Result<u64, sqlx::Error>,
)
    requires
        table.wf(),
        !table.contains(id),
        fetched_one(table.find(id), fetched),
        fetched_one(table.set_completed(id, completed).find(id), updated),
        executed(table.rows_affected(id), deleted),
    ensures
        into_response_spec(get_todo_spec(fetched)).status == NOT_FOUND,
        into_response_spec(update_todo_spec(updated)).status == NOT_FOUND,
        into_response_spec(delete_todo_spec(deleted)).status == NOT_FOUND,
        table.set_completed(id, completed) == table,
        table.remove(id) == table,
{
    assert(table.remove(id).rows =~= table.rows);
}

/// Inserting rows one after the other keeps the table well formed, adds as
/// many rows as were inserted, and keeps each of them and each earlier row.
pub proof fn insert_all_keeps_table(table: Table, created: Seq<TodoView>)
    requires
        table.wf(),
        table.admits_all(created),
    ensures
        table.insert_all(created).wf(),
        table.insert_all(created).last_id >= table.last_id,
        table.insert_all(created).rows.dom().len() == table.rows.dom().len() + created.len(),
        forall|k: int|
            0 <= k < created.len() ==> table.insert_all(created).find(#[trigger] created[k].id)
                == Some(created[k]),
        forall|id: int| #[trigger]
            table.contains(id) ==> table.insert_all(created).find(id) == table.find(id),
    decreases created.len(),
{
    if created.len() > 0 {
        let earlier = created.drop_last();
        let before = table.insert_all(earlier);
        insert_all_keeps_table(table, earlier);
        insert_keeps_table(before, created.last(), created.last().title);
        assert forall|k: int| 0 <= k < created.len() implies table.insert_all(created).find(
            #[trigger] created[k].id,
        ) == Some(created[k]) by {
            if k < earlier.len() {
                assert(earlier[k] == created[k]);
                assert(before.find(earlier[k].id) == Some(earlier[k]));
            }
        }
    }
}

/// A listing has exactly one entry for each row of the table.
pub proof fn listing_has_every_row_once(table: Table, listing: Seq<TodoView>)
    requires
        table.wf(),
        table.lists(listing),
    ensures
        listing.len() == table.rows.dom().len(),
    decreases listing.len(),
{
    if listing.len() == 0 {
        assert(table.rows.dom() =~= Set::empty());
    } else {
        let newest = listing[0];
        let rest = listing.subrange(1, listing.len() as int);
        let smaller = table.remove(newest.id);
        assert(table.find(listing[0].id) == Some(listing[0]));
        assert(smaller.lists(rest)) by {
            assert forall|i: int| 0 <= i < rest.len() implies smaller.find(
                #[trigger] rest[i].id,
            ) == Some(rest[i]) by {
                assert(rest[i] == listing[i + 1]);
                assert(listing[0].id > listing[i + 1].id);
                assert(table.find(listing[i + 1].id) == Some(listing[i + 1]));
            }
            assert forall|id: int| #[trigger] smaller.rows.contains_key(id) implies exists|i: int|
                0 <= i < rest.len() && #[trigger] rest[i].id == id by {
                assert(table.rows.contains_key(id));
                let j = choose|j: int| 0 <= j < listing.len() && #[trigger] listing[j].id == id;
                assert(j != 0);
                assert(rest[j - 1] == listing[j]);
            }
            assert forall|i: int, j: int| 0 <= i < j < rest.len() implies #[trigger] rest[i].id
                > #[trigger] rest[j].id by {
                assert(rest[i] == listing[i + 1]);
                assert(rest[j] == listing[j + 1]);
            }
        }
        remove_keeps_table(table, newest.id);
        listing_has_every_row_once(smaller, rest);
    }
}

/// After `n` rows were created, a listing answers 200 with at least `n`
/// entries, newest first: each created row is among them, and so is each row
/// that was there before.
pub proof fn listing_after_creations(
    table: Table,
    created: Seq<TodoView>,
    listing: Seq<TodoView>,
    fetched: Result<Vec<Todo>, sqlx::Error>,
)
    requires
        table.wf(),
        table.admits_all(created),
        table.insert_all(created).lists(listing),
        fetched_all(listing, fetched),
    ensures
        list_todos_spec(fetched) == Ok::<ResponseView, AppError>(
            ResponseView { status: OK, body: BodyView::Todos(listing) },
        ),
        listing.len() == table.rows.dom().len() + created.len(),
        listing.len() >= created.len(),
        forall|i: int, j: int|
            0 <= i < j < listing.len() ==> #[trigger] listing[i].id > #[trigger] listing[j].id,
        forall|k: int|
            0 <= k < created.len() ==> exists|i: int|
                0 <= i < listing.len() && listing[i] == #[trigger] created[k],
{
    let after = table.insert_all(created);
    insert_all_keeps_table(table, created);
    listing_has_every_row_once(after, listing);
    assert forall|k: int| 0 <= k < created.len() implies exists|i: int|
        0 <= i < listing.len() && listing[i] == #[trigger] created[k] by {
        assert(after.find(created[k].id) == Some(created[k]));
        assert(after.rows.contains_key(created[k].id));
        let i = choose|i: int| 0 <= i < listing.len() && #[trigger] listing[i].id == created[k].id;
        assert(after.find(listing[i].id) == Some(listing[i]));
    }
}

} // verus!
