//! A verified, incremental builder for smart-contract genesis documents.
//!
//! The builder accumulates typed state — multi-valued global state and
//! fungible owned-state assignments bound to transaction outputs — under the
//! authority of a schema and an interface implementation, and finalizes the
//! accumulated state into an immutable contract document.  The invariants it
//! enforces before the document becomes immutable (interface–schema–
//! implementation consistency, per-field type conformance, bounded non-empty
//! assignment sets, unique seals) are stated as contracts and proved.

pub mod accumulate;
pub mod builder;
pub mod chain;
pub mod contract;
pub mod interface;
pub mod laws;
pub mod reify;
pub mod schema;
pub mod seal;
pub mod state;
