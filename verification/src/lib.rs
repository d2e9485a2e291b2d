//! A bridge between a native process, a second language runtime built beside
//! it, and a managed host that loads the two as one artifact.
//!
//! The library holds the rules of that bridge as verified functions on plain
//! values: which toolchain call builds the second component for a target,
//! how the shared structures travel as bytes, how each kind of remote call
//! proceeds, and under which names the entry points are published.

pub mod contract;
pub mod dispatch;
pub mod export;
pub mod orchestrator;
pub mod target;
pub mod text;
pub mod user;
pub mod wire;
