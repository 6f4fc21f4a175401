//! An in-memory to-do list service core: items with a title, a completion
//! flag and a priority, held in a store whose ids always form the dense
//! sequence 1..N. The store operations (list, insert, toggle, update,
//! bulk-delete of completed items) and the request handlers around them are
//! verified; HTTP transport and JSON encoding live outside this crate.

pub mod handlers;
pub mod laws;
pub mod models;
pub mod store;
