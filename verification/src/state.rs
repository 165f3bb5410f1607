//! The machine state of one execution step.

use vstd::prelude::*;

use crate::field::{M31, P};

verus! {

/// The registers of the machine at one step: allocation pointer, frame
/// pointer and program counter.
#[derive(Clone, Copy, PartialEq, Eq, Structural, Debug)]
pub struct VmState {
    /// The program counter.
    pub pc: u32,
    /// The allocation pointer.
    pub ap: u32,
    /// The frame pointer.
    pub fp: u32,
}

impl VmState {
    /// All registers are reduced trace values.
    pub open spec fn wf(self) -> bool {
        self.pc < P && self.ap < P && self.fp < P
    }
}

/// The opcode families of the machine's instruction set.
#[derive(Clone, Copy, PartialEq, Eq, Structural, Debug)]
pub enum OpcodeKind {
    /// Advance the allocation pointer by an operand.
    AddAp,
    /// Assert or deduce a memory value from an operation.
    Assert,
    /// Call a function, absolute or relative.
    Call,
    /// Jump to an absolute target.
    JmpAbs,
    /// Jump by a relative offset.
    JmpRel,
    /// Jump by a relative offset unless a condition is zero.
    Jnz,
    /// Return to the caller's frame.
    Ret,
}

/// The largest legal opcode number.
pub const MAX_OPCODE: u32 = 171;

/// The handler family of each opcode number: total over the legal
/// range, and nothing outside it. Each family covers one contiguous
/// block of the opcode table.
pub fn opcode_kind(op: M31) -> (r: Option<OpcodeKind>)
    ensures
        r is Some <==> op.value <= MAX_OPCODE,
        op.value < 17 ==> r == Some(OpcodeKind::AddAp),
        17 <= op.value < 85 ==> r == Some(OpcodeKind::Assert),
        85 <= op.value < 91 ==> r == Some(OpcodeKind::Call),
        91 <= op.value < 125 ==> r == Some(OpcodeKind::JmpAbs),
        125 <= op.value < 159 ==> r == Some(OpcodeKind::JmpRel),
        159 <= op.value < 171 ==> r == Some(OpcodeKind::Jnz),
        op.value == 171 ==> r == Some(OpcodeKind::Ret),
{
    if op.value < 17 {
        Some(OpcodeKind::AddAp)
    } else if op.value < 85 {
        Some(OpcodeKind::Assert)
    } else if op.value < 91 {
        Some(OpcodeKind::Call)
    } else if op.value < 125 {
        Some(OpcodeKind::JmpAbs)
    } else if op.value < 159 {
        Some(OpcodeKind::JmpRel)
    } else if op.value < 171 {
        Some(OpcodeKind::Jnz)
    } else if op.value == 171 {
        Some(OpcodeKind::Ret)
    } else {
        None
    }
}

} // verus!
