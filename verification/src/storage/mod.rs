//! Storage: an index of data objects kept in bags, and of the storage
//! buckets that hold them.

pub mod model;
pub mod module;
pub mod types;
