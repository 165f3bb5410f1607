//! The constraint-and-proof core of a STARK-based validity prover for
//! a CPU-style execution trace.
//!
//! Given a recorded execution — machine states per opcode kind and the
//! memory image they touched — the library computes each component's
//! public claim, generates its trace, totals the signed lookup
//! fractions of the logup argument, and checks the global soundness
//! identity: the fractions of every memory access, every supplied
//! table row weighted by its usage count, and every public memory cell
//! must sum to zero. The transcript hash and the generic commitment
//! backend stay outside; what they feed and consume is fixed here.

pub mod cairo_air;
pub mod channel;
pub mod components;
pub mod extension;
pub mod field;
pub mod gadgets;
pub mod logup;
pub mod mem;
pub mod relations;
pub mod state;
pub mod util;

pub use extension::{CM31, QM31};
pub use field::M31;
