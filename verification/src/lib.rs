//! Project bookkeeping on top of a task list: parsing of commands and
//! filters, project states, configuration overrides, query building,
//! table layout and the decisions taken around each replica operation.

pub mod cache;
pub mod config;
pub mod error;
pub mod export;
pub mod filters;
pub mod ident;
pub mod projwarrior;
pub mod query;
pub mod select;
pub mod state;
pub mod stored;
pub mod table;
pub mod tasks;
pub mod text;
