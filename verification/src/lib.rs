//! A small local store of secrets: typed secret records, their decimal
//! identifiers, encryption of passwords under a master key, a table of
//! secrets kept in SQLite, and the state of the forms that create, update
//! and reveal secrets.

pub mod types;
pub mod crypto;
pub mod database;
pub mod forms;
pub mod session;
