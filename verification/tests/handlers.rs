use todo_service::error::AppError;
use todo_service::handlers::{
    create_todo, delete_todo, get_todo, health, into_response, list_todos, update_todo,
};
use todo_service::response::{Body, Response};
use todo_service::todo::{Timestamp, Todo};

fn sample(id: i64, title: &str, completed: bool) -> Todo {
    Todo {
        id,
        title: title.to_string(),
        completed,
        created_at: Timestamp { secs: 1_700_000_000 + id, nanos: 500 },
    }
}

#[test]
fn health_answers_ok() {
    let response = health();
    assert_eq!(response, Response { status: 200, body: Body::Text("ok") });
}

#[test]
fn row_not_found_becomes_not_found() {
    let err = AppError::from(sqlx::Error::RowNotFound);
    assert!(matches!(err, AppError::NotFound));
}

#[test]
fn other_driver_errors_are_kept() {
    let err = AppError::from(sqlx::Error::PoolTimedOut);
    assert!(matches!(err, AppError::Sqlx(sqlx::Error::PoolTimedOut)));
    let err = AppError::from(sqlx::Error::Protocol("bad frame".to_string()));
    match err {
        AppError::Sqlx(sqlx::Error::Protocol(text)) => assert_eq!(text, "bad frame"),
        other => panic!("unexpected {:?}", other),
    }
    let err = AppError::from(sqlx::Error::ColumnNotFound("title".to_string()));
    assert!(matches!(err, AppError::Sqlx(sqlx::Error::ColumnNotFound(_))));
}

#[test]
fn not_found_is_404_and_not_logged() {
    let (response, cause) = AppError::NotFound.into_response();
    assert_eq!(response, Response { status: 404, body: Body::Text("not found") });
    assert!(cause.is_none());
}

#[test]
fn storage_failure_is_500_and_logged_without_leaking() {
    let (response, cause) =
        AppError::Sqlx(sqlx::Error::Protocol("secret detail".to_string())).into_response();
    assert_eq!(response, Response { status: 500, body: Body::Text("database error") });
    match cause {
        Some(sqlx::Error::Protocol(text)) => assert_eq!(text, "secret detail"),
        other => panic!("unexpected {:?}", other),
    }
}

#[test]
fn list_answers_200_with_rows_in_order() {
    let rows = vec![sample(3, "c", false), sample(1, "a", true)];
    let response = list_todos(Ok(rows.clone())).unwrap();
    assert_eq!(response, Response { status: 200, body: Body::Todos(rows) });
}

#[test]
fn list_of_nothing_is_an_empty_array() {
    let response = list_todos(Ok(vec![])).unwrap();
    assert_eq!(response, Response { status: 200, body: Body::Todos(vec![]) });
}

#[test]
fn list_failure_is_500() {
    let result = list_todos(Err(sqlx::Error::PoolClosed));
    assert!(matches!(result, Err(AppError::Sqlx(sqlx::Error::PoolClosed))));
    let (response, cause) = into_response(result);
    assert_eq!(response.status, 500);
    assert_eq!(response.body, Body::Text("database error"));
    assert!(matches!(cause, Some(sqlx::Error::PoolClosed)));
}

#[test]
fn create_answers_201_with_the_row() {
    let row = sample(7, "buy milk", false);
    let response = create_todo(Ok(row.clone())).unwrap();
    assert_eq!(response, Response { status: 201, body: Body::Todo(row) });
}

#[test]
fn create_failure_is_500() {
    let (response, cause) = into_response(create_todo(Err(sqlx::Error::WorkerCrashed)));
    assert_eq!(response.status, 500);
    assert!(matches!(cause, Some(sqlx::Error::WorkerCrashed)));
}

#[test]
fn get_answers_200_with_the_row() {
    let row = sample(2, "walk", true);
    let response = get_todo(Ok(row.clone())).unwrap();
    assert_eq!(response, Response { status: 200, body: Body::Todo(row) });
}

#[test]
fn get_of_missing_row_is_404() {
    let result = get_todo(Err(sqlx::Error::RowNotFound));
    assert!(matches!(result, Err(AppError::NotFound)));
    let (response, cause) = into_response(result);
    assert_eq!(response, Response { status: 404, body: Body::Text("not found") });
    assert!(cause.is_none());
}

#[test]
fn get_failure_is_500() {
    let (response, _) = into_response(get_todo(Err(sqlx::Error::PoolTimedOut)));
    assert_eq!(response.status, 500);
}

#[test]
fn update_answers_200_with_the_row() {
    let row = sample(2, "walk", true);
    let response = update_todo(Ok(row.clone())).unwrap();
    assert_eq!(response, Response { status: 200, body: Body::Todo(row) });
}

#[test]
fn update_of_missing_row_is_404() {
    let (response, cause) = into_response(update_todo(Err(sqlx::Error::RowNotFound)));
    assert_eq!(response.status, 404);
    assert!(cause.is_none());
}

#[test]
fn delete_of_one_row_is_204_without_body() {
    let response = delete_todo(Ok(1)).unwrap();
    assert_eq!(response, Response { status: 204, body: Body::Empty });
}

#[test]
fn delete_of_no_row_is_404() {
    let result = delete_todo(Ok(0));
    assert!(matches!(result, Err(AppError::NotFound)));
    let (response, cause) = into_response(result);
    assert_eq!(response.status, 404);
    assert!(cause.is_none());
}

#[test]
fn delete_failure_is_500() {
    let (response, cause) = into_response(delete_todo(Err(sqlx::Error::PoolClosed)));
    assert_eq!(response.status, 500);
    assert!(cause.is_some());
}

#[test]
fn success_passes_through_the_response_layer() {
    let (response, cause) = into_response(Ok(Response { status: 204, body: Body::Empty }));
    assert_eq!(response, Response { status: 204, body: Body::Empty });
    assert!(cause.is_none());
}
