//! Session engine of an interactive SQL shell: line assembly, transaction
//! tracking and a bookmark store, with machine-checked contracts.

pub mod bookmarks;
pub mod cli;
pub mod config;
pub mod db;
pub mod display;
pub mod export;
pub mod populate;
pub mod repl;
pub mod shell;
pub mod text;
pub mod transactions;

pub use bookmarks::{Bookmark, BookmarkError, BookmarkManager};
pub use display::{OutputFormat, ProgressiveLoader, QueryCache, QueryOptions};
pub use populate::DataType;
pub use shell::ShellAction;
pub use transactions::{Intercept, Notice, TransactionManager, TransactionState};
