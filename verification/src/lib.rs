//! A single-process, demand-driven incremental computation engine.
//!
//! Mutable inputs ("leaves") feed pure derivation functions whose results
//! ("branches") are cached and recomputed only when a transitively reachable
//! input has actually changed. Staleness is decided by comparing revision
//! stamps, never by dirty bits or counters: while a branch recomputes, a token
//! folds the revisions of every dependency it reads into a running maximum,
//! and the branch commits a new cached value only when that maximum exceeds
//! the revision of its previous recomputation.

pub mod branch;
pub mod dedup;
pub mod graph;
pub mod laws;
pub mod stamp;

pub use branch::{Branch, BranchToken, RootToken, Token, VerifyError};
pub use dedup::{vec_set_add, Presence};
pub use graph::{Graph, Leaf};
pub use stamp::{Current, Dependee, LastComputed, LastModified, LastVerified, Revision};
