use todo_service::statements::{
    delete_by_id, insert, select_all, select_by_id, update_completed, Arg, Fetch,
};
use todo_service::todo::{CreateTodo, UpdateTodo};

#[test]
fn select_all_orders_by_id_descending() {
    let statement = select_all();
    assert_eq!(
        statement.sql,
        "SELECT id, title, completed, created_at FROM todos ORDER BY id DESC"
    );
    assert!(statement.args.is_empty());
    assert_eq!(statement.fetch, Fetch::All);
}

#[test]
fn insert_binds_the_title() {
    let statement = insert(CreateTodo { title: "buy milk".to_string() });
    assert_eq!(
        statement.sql,
        "INSERT INTO todos (title) VALUES ($1) RETURNING id, title, completed, created_at"
    );
    assert_eq!(statement.args, vec![Arg::Text("buy milk".to_string())]);
    assert_eq!(statement.fetch, Fetch::One);
}

#[test]
fn select_by_id_binds_the_id() {
    let statement = select_by_id(-1);
    assert_eq!(
        statement.sql,
        "SELECT id, title, completed, created_at FROM todos WHERE id = $1"
    );
    assert_eq!(statement.args, vec![Arg::BigInt(-1)]);
    assert_eq!(statement.fetch, Fetch::One);
}

#[test]
fn update_binds_the_flag_before_the_id() {
    let statement = update_completed(42, UpdateTodo { completed: true });
    assert_eq!(
        statement.sql,
        "UPDATE todos SET completed = $1 WHERE id = $2 RETURNING id, title, completed, created_at"
    );
    assert_eq!(statement.args, vec![Arg::Bool(true), Arg::BigInt(42)]);
    assert_eq!(statement.fetch, Fetch::One);
    assert!(!statement.sql.contains("title ="));
}

#[test]
fn delete_binds_the_id_and_counts_rows() {
    let statement = delete_by_id(i64::MAX);
    assert_eq!(statement.sql, "DELETE FROM todos WHERE id = $1");
    assert_eq!(statement.args, vec![Arg::BigInt(i64::MAX)]);
    assert_eq!(statement.fetch, Fetch::Execute);
}
