//! The per-opcode and memory components of the constraint system.

use vstd::prelude::*;

pub mod add_mul_opcode;
pub mod addr_to_f31;
pub mod call_opcode;
pub mod ret_opcode;

verus! {

/// The commitment phase that holds the lookup interaction columns.
pub const LOOKUP_INTERACTION_PHASE: usize = 1;

} // verus!
