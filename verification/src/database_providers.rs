//! Backends that fulfil the execution contracts.

pub mod sqlite;

pub use sqlite::SqliteConnection;
pub use sqlite::SqliteQuery;
pub use sqlite::SqliteRow;
pub use sqlite::SqliteRows;
