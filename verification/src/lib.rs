//! Connection registry and catalog introspection for a relational database
//! browser.
//!
//! The crate holds the decisions of the two operations a client performs,
//! opening a connection and paging through a table, as state machines whose
//! transitions are verified. The caller owns the network: it performs each
//! request a machine asks for and hands the answer back as an event.

pub mod catalog;
pub mod config;
pub mod connector;
pub mod convert;
pub mod json;
pub mod model;
pub mod page;
pub mod queries;
pub mod registry;
pub mod text;
