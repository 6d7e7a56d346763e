//! Interface of the trace/column-identity collaborator: given a value's
//! originating column and trace, it resolves the polynomial-table identity
//! the lookup argument uses.  This core only routes channel, address, value
//! and clock per event, so the interface stays abstract here; the fixed
//! per-column channel binding itself lives in `alu::columns`.

use vstd::prelude::*;

use crate::memory::MemoryValue;

verus! {

/// Names the column a value belongs to.
pub trait Column {
    fn get_column(&self) -> String;
}

/// Names the trace a value belongs to.
pub trait Trace {
    fn get_trace(&self) -> String;
}

/// A value slot that knows its trace and column identity.
pub trait ValueWithColumn {
    type T: Trace;

    type C: Column;

    fn get_value(&self) -> &MemoryValue;

    fn update_value(&mut self, value: MemoryValue);
}

} // verus!
