//! Core of a small artifact gateway: a package is named by `(name, tag)`,
//! a manifest maps that pair to an object in a backing store, and the object
//! is relayed to the client chunk by chunk.
//!
//! Everything here is pure decision logic whose contracts Verus proves. The
//! program around it owns the sockets, the files and the store client: it
//! performs the actions these modules ask for and reports back what happened.

pub mod manifest;
pub mod resolver;
pub mod responder;
pub mod relay;
pub mod lifecycle;
