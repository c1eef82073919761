//! The five statements that the service sends to its table, each with the
//! values bound to its placeholders, in the order of the placeholders.

use vstd::prelude::*;
use crate::todo::{CreateTodo, UpdateTodo};

verus! {

/// Every row, newest first.
pub const SELECT_ALL: &'static str =
    "SELECT id, title, completed, created_at FROM todos ORDER BY id DESC";

/// A new row with the given title; the table fills in the rest.
pub const INSERT: &'static str =
    "INSERT INTO todos (title) VALUES ($1) RETURNING id, title, completed, created_at";

/// The row with the given id.
pub const SELECT_BY_ID: &'static str =
    "SELECT id, title, completed, created_at FROM todos WHERE id = $1";

/// Sets the completion flag of the row with the given id; no other column.
pub const UPDATE_COMPLETED: &'static str =
    "UPDATE todos SET completed = $1 WHERE id = $2 RETURNING id, title, completed, created_at";

/// Removes the row with the given id.
pub const DELETE_BY_ID: &'static str = "DELETE FROM todos WHERE id = $1";

/// A value bound to a placeholder.
#[derive(Clone, Debug, PartialEq, Eq)]
pub enum Arg {
    Text(String),
    Bool(bool),
    BigInt(i64),
}

/// An `Arg` as a mathematical value.
pub enum ArgView {
    Text(Seq<char>),
    Bool(bool),
    BigInt(int),
}

impl View for Arg {
    type V = ArgView;

    open spec fn view(&self) -> ArgView {
        match *self {
            Arg::Text(text) => ArgView::Text(text@),
            Arg::Bool(flag) => ArgView::Bool(flag),
            Arg::BigInt(number) => ArgView::BigInt(number as int),
        }
    }
}

/// How a statement is run: for all its rows, for exactly one row, or for the
/// number of rows it affects.
#[derive(Clone, Copy, Debug, PartialEq, Eq, Structural)]
pub enum Fetch {
    All,
    One,
    Execute,
}

/// A statement ready to be sent.
#[derive(Clone, Debug, PartialEq, Eq)]
pub struct Statement {
    pub sql: &'static str,
    pub args: Vec<Arg>,
    pub fetch: Fetch,
}

/// A `Statement` as a mathematical value.
pub struct StatementView {
    pub sql: Seq<char>,
    pub args: Seq<ArgView>,
    pub fetch: Fetch,
}

impl View for Statement {
    type V = StatementView;

    open spec fn view(&self) -> StatementView {
        StatementView {
            sql: self.sql@,
            args: self.args@.map_values(|arg: Arg| arg@),
            fetch: self.fetch,
        }
    }
}

/// The statement behind a listing. It binds nothing.
pub fn select_all() -> (statement: Statement)
    ensures
        statement@ == (StatementView { sql: SELECT_ALL@, args: seq![], fetch: Fetch::All }),
{
    let statement = Statement { sql: SELECT_ALL, args: Vec::new(), fetch: Fetch::All };
    assert(statement@.args =~= seq![]);
    statement
}

/// The statement behind a creation. It binds the title.
pub fn insert(payload: CreateTodo) -> (statement: Statement)
    ensures
        statement@ == (StatementView {
            sql: INSERT@,
            args: seq![ArgView::Text(payload.title@)],
            fetch: Fetch::One,
        }),
{
    let mut args: Vec<Arg> = Vec::new();
    args.push(Arg::Text(payload.title));
    let statement = Statement { sql: INSERT, args, fetch: Fetch::One };
    assert(statement@.args =~= seq![ArgView::Text(payload.title@)]);
    statement
}

/// The statement behind a fetch by id. It binds the id.
pub fn select_by_id(id: i64) -> (statement: Statement)
    ensures
        statement@ == (StatementView {
            sql: SELECT_BY_ID@,
            args: seq![ArgView::BigInt(id as int)],
            fetch: Fetch::One,
        }),
{
    let mut args: Vec<Arg> = Vec::new();
    args.push(Arg::BigInt(id));
    let statement = Statement { sql: SELECT_BY_ID, args, fetch: Fetch::One };
    assert(statement@.args =~= seq![ArgView::BigInt(id as int)]);
    statement
}

/// The statement behind an update. It binds the flag first and the id
/// second, as the placeholders stand in the text.
pub fn update_completed(id: i64, payload: UpdateTodo) -> (statement: Statement)
    ensures
        statement@ == (StatementView {
            sql: UPDATE_COMPLETED@,
            args: seq![ArgView::Bool(payload.completed), ArgView::BigInt(id as int)],
            fetch: Fetch::One,
        }),
{
    let mut args: Vec<Arg> = Vec::new();
    args.push(Arg::Bool(payload.completed));
    args.push(Arg::BigInt(id));
    let statement = Statement { sql: UPDATE_COMPLETED, args, fetch: Fetch::One };
    assert(statement@.args =~= seq![
        ArgView::Bool(payload.completed),
        ArgView::BigInt(id as int),
    ]);
    statement
}

/// The statement behind a deletion. It binds the id and is run for its
/// count of affected rows.
pub fn delete_by_id(id: i64) -> (statement: Statement)
    ensures
        statement@ == (StatementView {
            sql: DELETE_BY_ID@,
            args: seq![ArgView::BigInt(id as int)],
            fetch: Fetch::Execute,
        }),
{
    let mut args: Vec<Arg> = Vec::new();
    args.push(Arg::BigInt(id));
    let statement = Statement { sql: DELETE_BY_ID, args, fetch: Fetch::Execute };
    assert(statement@.args =~= seq![ArgView::BigInt(id as int)]);
    statement
}

} // verus!
