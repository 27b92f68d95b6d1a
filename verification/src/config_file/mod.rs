//! Config file support: the file schema, loading helpers, the precedence
//! merge with the command line, hot-reload diffing and notification routing.

pub mod schema;
pub mod fields;
pub mod hot_reload;
pub mod merge;
pub mod load;
pub mod notify;
pub mod print;
