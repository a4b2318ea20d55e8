//! Capability grants for agent instances and their enforcement at the
//! host-call boundary.
//!
//! An agent holds a list of [`capability::Capability`] grants. A
//! [`error::Request`] is carried out only when some grant of the same kind
//! has a pattern that matches the request's text; `*` in a pattern matches
//! any run of bytes, the empty one included.
pub mod glob;
pub mod capability;
pub mod error;
pub mod sandbox;
pub mod enforce;
