//! The six operations of the service. Each one is handed what the table
//! replied to its statement and decides what the caller is told.

use vstd::prelude::*;
use vstd::std_specs::convert::FromSpec;
use crate::error::AppError;
use crate::response::{views, Body, BodyView, Response, ResponseView, CREATED, NO_CONTENT, OK};
use crate::todo::Todo;

verus! {

/// What a handler returns, as a mathematical value.
pub type Outcome = Result<ResponseView, AppError>;

/// The result of a handler with its response taken by its view.
pub open spec fn outcome(result: Result<Response, AppError>) -> Outcome {
    match result {
        Ok(response) => Ok(response@),
        Err(err) => Err(err),
    }
}

/// The answer to a liveness probe: 200 with the body `ok`.
pub open spec fn health_spec() -> ResponseView {
    ResponseView { status: OK, body: BodyView::Text("ok"@) }
}

/// What listing answers: 200 with the rows in the order fetched, or the
/// error that the driver's error becomes.
pub open spec fn list_todos_spec(fetched: Result<Vec<Todo>, sqlx::Error>) -> Outcome {
    match fetched {
        Ok(rows) => Ok(ResponseView { status: OK, body: BodyView::Todos(views(rows@)) }),
        Err(err) => Err(AppError::from_spec(err)),
    }
}

/// What creating answers: 201 with the row that the table returned.
pub open spec fn create_todo_spec(inserted: Result<Todo, sqlx::Error>) -> Outcome {
    match inserted {
        Ok(row) => Ok(ResponseView { status: CREATED, body: BodyView::Todo(row@) }),
        Err(err) => Err(AppError::from_spec(err)),
    }
}

/// What fetching one row answers: 200 with the row, `NotFound` where the
/// driver reports that no row came back.
pub open spec fn get_todo_spec(fetched: Result<Todo, sqlx::Error>) -> Outcome {
    match fetched {
        Ok(row) => Ok(ResponseView { status: OK, body: BodyView::Todo(row@) }),
        Err(err) => Err(AppError::from_spec(err)),
    }
}

/// What updating answers: 200 with the row as it now stands, `NotFound`
/// where the statement returned no row.
pub open spec fn update_todo_spec(updated: Result<Todo, sqlx::Error>) -> Outcome {
    match updated {
        Ok(row) => Ok(ResponseView { status: OK, body: BodyView::Todo(row@) }),
        Err(err) => Err(AppError::from_spec(err)),
    }
}

/// What deleting answers: 204 without a body where a row went, `NotFound`
/// where the statement touched no row. The driver raises no error of its own
/// for that, so the count decides.
pub open spec fn delete_todo_spec(deleted: Result<u64, sqlx::Error>) -> Outcome {
    match deleted {
        Ok(rows_affected) => if rows_affected == 0 {
            Err(AppError::NotFound)
        } else {
            Ok(ResponseView { status: NO_CONTENT, body: BodyView::Empty })
        },
        Err(err) => Err(AppError::from_spec(err)),
    }
}

/// The response that a handler's result becomes: its own on success, the
/// error's otherwise.
pub open spec fn into_response_spec(result: Outcome) -> ResponseView {
    match result {
        Ok(response) => response,
        Err(err) => err.response(),
    }
}

/// The cause to log for a handler's result.
pub open spec fn logged_cause(result: Outcome) -> Option<sqlx::Error> {
    match result {
        Ok(_) => None,
        Err(err) => err.cause(),
    }
}

/// Answers a liveness probe. Touches no storage.
pub fn health() -> (response: Response)
    ensures
        response@ == health_spec(),
{
    Response { status: OK, body: Body::Text("ok") }
}

/// Answers a listing, given the rows fetched by `statements::select_all`.
pub fn list_todos(fetched: Result<Vec<Todo>, sqlx::Error>) -> (result: Result<Response, AppError>)
    ensures
        outcome(result) == list_todos_spec(fetched),
{
    match fetched {
        Ok(rows) => Ok(Response { status: OK, body: Body::Todos(rows) }),
        Err(err) => Err(AppError::from(err)),
    }
}

/// Answers a creation, given the row returned by `statements::insert`.
pub fn create_todo(inserted: Result<Todo, sqlx::Error>) -> (result: Result<Response, AppError>)
    ensures
        outcome(result) == create_todo_spec(inserted),
{
    match inserted {
        Ok(row) => Ok(Response { status: CREATED, body: Body::Todo(row) }),
        Err(err) => Err(AppError::from(err)),
    }
}

/// Answers a fetch by id, given the row returned by
/// `statements::select_by_id`.
pub fn get_todo(fetched: Result<Todo, sqlx::Error>) -> (result: Result<Response, AppError>)
    ensures
        outcome(result) == get_todo_spec(fetched),
{
    match fetched {
        Ok(row) => Ok(Response { status: OK, body: Body::Todo(row) }),
        Err(err) => Err(AppError::from(err)),
    }
}

/// Answers an update, given the row returned by
/// `statements::update_completed`.
pub fn update_todo(updated: Result<Todo, sqlx::Error>) -> (result: Result<Response, AppError>)
    ensures
        outcome(result) == update_todo_spec(updated),
{
    match updated {
        Ok(row) => Ok(Response { status: OK, body: Body::Todo(row) }),
        Err(err) => Err(AppError::from(err)),
    }
}

/// Answers a deletion, given the number of rows that
/// `statements::delete_by_id` affected.
pub fn delete_todo(deleted: Result<u64, sqlx::Error>) -> (result: Result<Response, AppError>)
    ensures
        outcome(result) == delete_todo_spec(deleted),
{
    match deleted {
        Ok(rows_affected) => {
            if rows_affected == 0 {
                return Err(AppError::NotFound);
            }
            Ok(Response { status: NO_CONTENT, body: Body::Empty })
        },
        Err(err) => Err(AppError::from(err)),
    }
}

/// Turns a handler's result into the response to send and the cause to log.
/// Both kinds of error end here; no handler recovers from one.
pub fn into_response(result: Result<Response, AppError>) -> (r: (Response, Option<sqlx::Error>))
    ensures
        r.0@ == into_response_spec(outcome(result)),
        r.1 == logged_cause(outcome(result)),
{
    match result {
        Ok(response) => (response, None),
        Err(err) => err.into_response(),
    }
}

} // verus!
