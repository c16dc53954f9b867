//! Validation pipeline for TypeScript snippets.
//!
//! The library decides how a possibly fragmentary snippet is normalized for
//! parsing, how the outcomes of the structural and semantic engine passes
//! are turned into a single accept/reject verdict, and which semantic
//! diagnostics are context-loss artifacts that must never surface. The
//! parsing engines themselves are external collaborators; callers run them,
//! each behind a fault barrier, and hand their reports to this library as
//! plain values.

pub mod normalize;
pub mod outcome;
pub mod pipeline;
pub mod text;
