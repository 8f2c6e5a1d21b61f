//! Marshaling primitives for a hierarchical accessibility-tree data model
//! crossing a C-compatible boundary.
//!
//! The crate covers the protocols that make the boundary memory-safe and
//! leak-free: opaque-handle lifetime management, optional-value encoding,
//! length-prefixed collection encoding, string ownership transfer with lossy
//! UTF-8 decoding, callback bridging for the three handler roles, and a
//! deduplicating capture log for diagnostics.

pub mod action;
pub mod bits;
pub mod bridge;
pub mod capture;
pub mod collection;
pub mod eq;
pub mod handle;
pub mod node;
pub mod optional;
pub mod record;
pub mod text;
pub mod tree;

