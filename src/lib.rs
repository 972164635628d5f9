//! Verified core of a tool server for the Elm package ecosystem: query
//! validation, a read-through cache of the package catalogue, name search,
//! registry addresses, and the reading of compiler and dependency-tool output.

pub mod cache;
pub mod package;
pub mod query;
pub mod registry;
pub mod search;
pub mod service;
pub mod text;
pub mod tools;
