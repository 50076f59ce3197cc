//! Compilation-orchestration core of an interactive language service.
//!
//! A [`session::Compilation`] is an immutable, queryable snapshot of "what the
//! user's code currently means": a package store holding the core library, the
//! standard library and the user package, together with the diagnostics that
//! were collected while building it. The session is assembled either from a
//! set of whole-file sources (batch mode) or from an ordered sequence of
//! notebook cells (incremental mode); it then answers position-mapping and
//! cross-package resolution queries until it is explicitly recompiled.
//!
//! The front end itself (parser, name resolution, type checking), the library
//! builders, the lowering/capability pass and the lint engine are external
//! collaborators: their reports enter the session as plain values, and this
//! crate verifies how those reports are sequenced, gated and aggregated.

pub mod bytes;
pub mod config;
pub mod diagnostics;
pub mod laws;
pub mod session;
pub mod source_map;
pub mod span;
pub mod store;
