//! The range-checking component the memory store consults before it
//! finalizes a write: the value's bits must fit its declared tag, and the
//! address must lie in the VM's addressable range.

use vstd::prelude::*;

use crate::memory::{MemoryValue, FIELD_ORDER};

verus! {

/// The VM addresses the full 32-bit space, so every `u32` address lies in
/// range; the check stands as the seam where a narrower address space would
/// be enforced.
pub open spec fn address_in_range(addr: u32) -> bool {
    true
}

/// Decides whether `addr` lies in the VM's addressable range.
pub fn check_address_range(addr: u32) -> (r: bool)
    ensures
        r == address_in_range(addr),
{
    true
}

/// Decides whether `value`'s numeric content fits the width its tag
/// declares: the zero-width marker must be zero, a 1-bit value at most one,
/// and a field element below `FIELD_ORDER`; wider tags hold any bits of
/// their representation.
pub fn check_value_width(value: &MemoryValue) -> (r: bool)
    ensures
        r == value.wf(),
{
    match value {
        MemoryValue::U0(x) => *x == 0,
        MemoryValue::U1(x) => *x <= 1,
        MemoryValue::U8(_) => true,
        MemoryValue::U16(_) => true,
        MemoryValue::U32(_) => true,
        MemoryValue::U64(_) => true,
        MemoryValue::U128(_) => true,
        MemoryValue::FF(x) => *x < FIELD_ORDER,
    }
}

} // verus!
