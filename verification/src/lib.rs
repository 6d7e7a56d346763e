//! Witness generation core for a small virtual machine.
//!
//! Every instruction the ALU executes leaves an auditable trail: the memory
//! cells it touched (as channel-tagged read/write events) and one higher-level
//! ALU event per instruction.  A downstream proof system cross-checks the two
//! event logs, so their shape — channels, ordering, one write per result —
//! is part of this crate's contracts.

use vstd::prelude::*;

pub mod alu;
pub mod memory;
pub mod ranges;
pub mod value;

verus! {

/// The error conditions the witness generator distinguishes.
///
/// `TagMismatch` and `Overflow` are per-instruction arithmetic conditions:
/// they are recorded on the ALU event's error flag and execution continues.
/// `RangeViolation` is structural: the memory store refuses the access and
/// leaves itself unchanged.
#[derive(Clone, Copy, Debug, PartialEq, Eq, Structural)]
pub enum WitgenError {
    TagMismatch,
    Overflow,
    RangeViolation,
}

} // verus!
