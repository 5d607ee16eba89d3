//! A small work-item tracker: tasks with parent and dependency links, free-form
//! memory notes, and the request dispatcher that serves both to an agent.
//!
//! The rules of the tracker are stated on plain values and proved:
//! [`task`] and [`memory`] say what every operation does to a table of rows,
//! [`task_table`] computes it, and [`task_laws`] and [`memory_laws`] draw the
//! consequences. [`store`] keeps the rows in a SQLite database, [`schema`]
//! plans its evolution, and [`mcp`] with [`tools`] and [`catalogue`] answers
//! the requests of the protocol server.

pub mod calls;
pub mod catalogue;
pub mod cli;
pub mod db;
pub mod error;
pub mod ident;
pub mod json;
pub mod mcp;
pub mod memory;
pub mod memory_laws;
pub mod schema;
pub mod selection;
pub mod setup;
pub mod status;
pub mod store;
pub mod task;
pub mod task_laws;
pub mod task_table;
pub mod text;
pub mod tools;
