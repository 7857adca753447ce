//! A small todo manager: tasks kept in an SQLite table, a verb-driven
//! dispatcher, and the decisions about what each action shows.

pub mod actions;
pub mod db;
pub mod text;
pub mod todo;
