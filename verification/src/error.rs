//! The two ways in which a request can fail.

use vstd::prelude::*;
use vstd::std_specs::convert::FromSpecImpl;
use crate::response::{Body, BodyView, Response, ResponseView, INTERNAL_SERVER_ERROR, NOT_FOUND};

verus! {

/// The error type of `sqlx`, carried through untouched.
#[verifier::external_type_specification]
#[verifier::external_body]
pub struct ExSqlxError(sqlx::Error);

/// Whether an error of the driver is its variant `RowNotFound`: a query that
/// had to return a row returned none.
pub uninterp spec fn is_row_not_found(err: sqlx::Error) -> bool;

/// Tells the variant `sqlx::Error::RowNotFound` from all the others.
#[verifier::external_body]
fn row_not_found(err: &sqlx::Error) -> (found: bool)
    ensures
        found == is_row_not_found(*err),
{
    matches!(err, sqlx::Error::RowNotFound)
}

/// Why a request did not succeed.
#[derive(Debug)]
pub enum AppError {
    /// The row that the request names does not exist.
    NotFound,
    /// The database failed in any other way.
    Sqlx(sqlx::Error),
}

impl From<sqlx::Error> for AppError {
    fn from(err: sqlx::Error) -> (r: AppError) {
        if row_not_found(&err) {
            AppError::NotFound
        } else {
            AppError::Sqlx(err)
        }
    }
}

impl FromSpecImpl<sqlx::Error> for AppError {
    open spec fn obeys_from_spec() -> bool {
        true
    }

    open spec fn from_spec(err: sqlx::Error) -> AppError {
        if is_row_not_found(err) {
            AppError::NotFound
        } else {
            AppError::Sqlx(err)
        }
    }
}

impl AppError {
    /// The response that stands for this error, as a mathematical value: 404
    /// with a short fixed line for a missing row, 500 with another fixed line
    /// for everything else. Neither line says anything of the cause.
    pub open spec fn response(self) -> ResponseView {
        match self {
            AppError::NotFound => ResponseView {
                status: NOT_FOUND,
                body: BodyView::Text("not found"@),
            },
            AppError::Sqlx(_) => ResponseView {
                status: INTERNAL_SERVER_ERROR,
                body: BodyView::Text("database error"@),
            },
        }
    }

    /// The cause that an operator is to be told of: none for a missing row,
    /// which is routine, and the driver's error for a failure.
    pub open spec fn cause(self) -> Option<sqlx::Error> {
        match self {
            AppError::NotFound => None,
            AppError::Sqlx(err) => Some(err),
        }
    }

    /// Turns the error into its response and hands out the cause to log, if
    /// there is one. The cause never reaches the body.
    pub fn into_response(self) -> (r: (Response, Option<sqlx::Error>))
        ensures
            r.0@ == self.response(),
            r.1 == self.cause(),
    {
        match self {
            AppError::NotFound => (
                Response { status: NOT_FOUND, body: Body::Text("not found") },
                None,
            ),
            AppError::Sqlx(err) => (
                Response { status: INTERNAL_SERVER_ERROR, body: Body::Text("database error") },
                Some(err),
            ),
        }
    }
}

} // verus!
