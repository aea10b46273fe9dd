//! The index actor's verified core: index metadata records, identifiers and
//! their on-disk names, the live-index cache, the decisions of the index
//! store, and the routing of requests to the read and write lanes.

pub mod actor;
pub mod ident;
pub mod meta;
pub mod model;
pub mod store;
