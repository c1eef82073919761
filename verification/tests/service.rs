use todo_service::error::AppError;
use todo_service::handlers::{
    create_todo, delete_todo, get_todo, into_response, list_todos, update_todo,
};
use todo_service::memory::TodoTable;
use todo_service::response::{Body, Response};
use todo_service::todo::{Timestamp, Todo};

const NOW: Timestamp = Timestamp { secs: 1_700_000_000, nanos: 0 };

fn one(found: Option<Todo>) -> Result<Todo, sqlx::Error> {
    found.ok_or(sqlx::Error::RowNotFound)
}

fn post(table: &mut TodoTable, title: &str) -> Response {
    let inserted = one(table.insert(title.to_string(), NOW));
    into_response(create_todo(inserted)).0
}

fn get(table: &TodoTable, id: i64) -> Response {
    into_response(get_todo(one(table.fetch_optional(id)))).0
}

fn patch(table: &mut TodoTable, id: i64, completed: bool) -> Response {
    into_response(update_todo(one(table.set_completed(id, completed)))).0
}

fn delete(table: &mut TodoTable, id: i64) -> Response {
    into_response(delete_todo(Ok(table.delete(id)))).0
}

fn list(table: &TodoTable) -> Vec<Todo> {
    match into_response(list_todos(Ok(table.fetch_all()))).0 {
        Response { status: 200, body: Body::Todos(rows) } => rows,
        other => panic!("unexpected {:?}", other),
    }
}

fn row_of(response: Response) -> Todo {
    match response.body {
        Body::Todo(row) => row,
        other => panic!("unexpected {:?}", other),
    }
}

#[test]
fn created_row_is_fetched_by_its_id() {
    let mut table = TodoTable::new();
    for title in ["", "a", "buy milk", "with \"quotes\" and \u{e9}"] {
        let created = post(&mut table, title);
        assert_eq!(created.status, 201);
        let row = row_of(created);
        assert_eq!(row.title, title);
        assert!(!row.completed);
        assert_eq!(row.created_at, NOW);
        let fetched = get(&table, row.id);
        assert_eq!(fetched, Response { status: 200, body: Body::Todo(row) });
    }
}

#[test]
fn ids_start_at_one_and_rise() {
    let mut table = TodoTable::new();
    assert_eq!(row_of(post(&mut table, "a")).id, 1);
    assert_eq!(row_of(post(&mut table, "b")).id, 2);
    assert_eq!(row_of(post(&mut table, "c")).id, 3);
}

#[test]
fn deleted_row_is_not_found() {
    let mut table = TodoTable::new();
    let id = row_of(post(&mut table, "a")).id;
    let other = row_of(post(&mut table, "b")).id;
    assert_eq!(delete(&mut table, id), Response { status: 204, body: Body::Empty });
    assert_eq!(get(&table, id), Response { status: 404, body: Body::Text("not found") });
    assert_eq!(get(&table, other).status, 200);
    assert_eq!(delete(&mut table, id).status, 404);
}

#[test]
fn deleted_id_is_not_assigned_again() {
    let mut table = TodoTable::new();
    let first = row_of(post(&mut table, "a")).id;
    assert_eq!(delete(&mut table, first).status, 204);
    let second = row_of(post(&mut table, "b")).id;
    assert!(second > first);
    assert_eq!(get(&table, first).status, 404);
}

#[test]
fn update_sets_the_flag_and_keeps_the_rest() {
    let mut table = TodoTable::new();
    let before = row_of(post(&mut table, "buy milk"));
    let updated = patch(&mut table, before.id, true);
    assert_eq!(updated.status, 200);
    let after = row_of(updated);
    assert!(after.completed);
    assert_eq!(after.title, "buy milk");
    assert_eq!(after.id, before.id);
    assert_eq!(after.created_at, before.created_at);
    assert_eq!(get(&table, before.id), Response { status: 200, body: Body::Todo(after) });
    let back = row_of(patch(&mut table, before.id, false));
    assert!(!back.completed);
    assert_eq!(back.title, "buy milk");
}

#[test]
fn missing_ids_are_not_found_every_way() {
    let mut table = TodoTable::new();
    post(&mut table, "a");
    for id in [-1, 0, 2, 1_000_000, i64::MAX, i64::MIN] {
        assert_eq!(get(&table, id).status, 404);
        assert_eq!(patch(&mut table, id, true).status, 404);
        assert_eq!(delete(&mut table, id).status, 404);
    }
    let rows = list(&table);
    assert_eq!(rows.len(), 1);
    assert!(!rows[0].completed);
}

#[test]
fn listing_is_newest_first() {
    let mut table = TodoTable::new();
    assert!(list(&table).is_empty());
    for n in 0..5 {
        post(&mut table, &format!("todo {}", n));
    }
    let rows = list(&table);
    assert_eq!(rows.len(), 5);
    let ids: Vec<i64> = rows.iter().map(|row| row.id).collect();
    assert_eq!(ids, vec![5, 4, 3, 2, 1]);
    assert_eq!(rows[0].title, "todo 4");
    assert_eq!(rows[4].title, "todo 0");
    delete(&mut table, 3);
    let ids: Vec<i64> = list(&table).iter().map(|row| row.id).collect();
    assert_eq!(ids, vec![5, 4, 2, 1]);
}

#[test]
fn buy_milk_from_creation_to_deletion() {
    let mut table = TodoTable::new();
    let created = post(&mut table, "buy milk");
    assert_eq!(created.status, 201);
    let row = row_of(created);
    assert_eq!(row.title, "buy milk");
    assert!(!row.completed);
    let id = row.id;
    let updated = patch(&mut table, id, true);
    assert_eq!(updated.status, 200);
    assert!(row_of(updated).completed);
    assert_eq!(delete(&mut table, id), Response { status: 204, body: Body::Empty });
    assert_eq!(get(&table, id).status, 404);
}

#[test]
fn failure_of_the_table_is_not_mistaken_for_a_missing_row() {
    let result = get_todo(Err(sqlx::Error::PoolTimedOut));
    assert!(matches!(result, Err(AppError::Sqlx(_))));
    assert_eq!(into_response(result).0.status, 500);
}
