//! Core of an interactive launcher that manages per-instance collections of
//! engine data files: a generic add/toggle/remove collection-management
//! engine, and a hierarchical file/folder browser that resolves one
//! user-selected filesystem path.
//!
//! All user prompting and filesystem access live outside this crate; the
//! library holds the decisions, orderings and filters, each with a proved
//! contract.

pub mod asset;
pub mod browser;
pub mod collection;
pub mod duration;
pub mod engine;
pub mod errors;
pub mod menu;
pub mod paths;
pub mod text;
