//! What the service sends back: a status code and a body.

use vstd::prelude::*;
use crate::todo::{Todo, TodoView};

verus! {

/// 200 OK.
pub const OK: u16 = 200;

/// 201 Created.
pub const CREATED: u16 = 201;

/// 204 No Content.
pub const NO_CONTENT: u16 = 204;

/// 404 Not Found.
pub const NOT_FOUND: u16 = 404;

/// 500 Internal Server Error.
pub const INTERNAL_SERVER_ERROR: u16 = 500;

/// The body of a response, before it is written as text or JSON.
#[derive(Clone, Debug, PartialEq, Eq)]
pub enum Body {
    /// No body at all.
    Empty,
    /// A fixed line of plain text.
    Text(&'static str),
    /// One row, to be written as a JSON object.
    Todo(Todo),
    /// Rows in the order given, to be written as a JSON array.
    Todos(Vec<Todo>),
}

/// A `Body` as a mathematical value.
pub enum BodyView {
    Empty,
    Text(Seq<char>),
    Todo(TodoView),
    Todos(Seq<TodoView>),
}

/// The rows of a sequence, each as a mathematical value.
pub open spec fn views(rows: Seq<Todo>) -> Seq<TodoView> {
    rows.map_values(|row: Todo| row@)
}

impl View for Body {
    type V = BodyView;

    open spec fn view(&self) -> BodyView {
        match *self {
            Body::Empty => BodyView::Empty,
            Body::Text(text) => BodyView::Text(text@),
            Body::Todo(row) => BodyView::Todo(row@),
            Body::Todos(rows) => BodyView::Todos(views(rows@)),
        }
    }
}

/// A status code with a body.
#[derive(Clone, Debug, PartialEq, Eq)]
pub struct Response {
    pub status: u16,
    pub body: Body,
}

/// A `Response` as a mathematical value.
pub struct ResponseView {
    pub status: u16,
    pub body: BodyView,
}

impl View for Response {
    type V = ResponseView;

    open spec fn view(&self) -> ResponseView {
        ResponseView { status: self.status, body: self.body@ }
    }
}

} // verus!
