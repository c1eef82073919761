//! The core of a small to-do service: the statements it sends to its table,
//! what it answers once the table has replied, and the table itself as a
//! mathematical object.

pub mod error;
pub mod handlers;
pub mod laws;
pub mod memory;
pub mod response;
pub mod statements;
pub mod table;
pub mod todo;
