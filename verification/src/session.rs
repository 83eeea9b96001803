//! The context of a query: the catalog and schema it runs in, the SQL
//! dialect of its connection, and the extensions set for it.

pub mod context;
