//! Compile-time tracked invariants.
//!
//! An invariant is declared as a zero-sized marker type implementing
//! [`Invariant`], which carries a human-readable message and a number of
//! proof obligations. Each obligation is discharged by implementing
//! [`InvariantProof<N>`] for the marker at the source location where the
//! programmer establishes the invariant. Once every obligation is
//! discharged, the marker becomes usable as a witness for
//! `unwrap_under_invariant`, which extracts a value from an `Option` or a
//! `Result` on the strength of that invariant.

pub mod messages;
pub mod naming;
pub mod registry;
pub mod unwrapping;
pub mod witness;

pub use unwrapping::OptionExt;
pub use unwrapping::ResultExt;
pub use witness::Invariant;
pub use witness::InvariantProof;

pub use messages::absence_violation;
pub use messages::absence_violation_message;
pub use messages::error_violation;
pub use messages::error_violation_message;
