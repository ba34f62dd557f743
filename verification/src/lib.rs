//! A small persistent alias store: named shell commands kept in a JSON
//! object on disk, with the routing logic that turns a command line into
//! a store operation.

pub mod codec;
pub mod config;
pub mod dispatch;
pub mod render;
pub mod store;

pub use store::AliasStore;
