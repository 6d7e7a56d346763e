//! The three operand slots of an instruction, each statically bound to its
//! memory channel: A reads on channel 0, B on channel 1, C writes on
//! channel 2.  A column lives for one instruction only.

use vstd::prelude::*;

use crate::memory::MemoryValue;

verus! {

/// A named operand slot carrying the tagged value it currently holds,
/// default-initialized to `U0(0)`.
pub enum ALUColumn {
    ColA(MemoryValue),
    ColB(MemoryValue),
    ColC(MemoryValue),
}

impl ALUColumn {
    /// The value the column currently holds.
    pub open spec fn value_spec(&self) -> MemoryValue {
        match self {
            ALUColumn::ColA(value) => *value,
            ALUColumn::ColB(value) => *value,
            ALUColumn::ColC(value) => *value,
        }
    }

    /// The memory channel the column is bound to, fixed by its name alone.
    pub open spec fn channel_spec(&self) -> u8 {
        match self {
            ALUColumn::ColA(_) => 0,
            ALUColumn::ColB(_) => 1,
            ALUColumn::ColC(_) => 2,
        }
    }

    /// The same column holding `value` instead.
    pub open spec fn with_value(self, value: MemoryValue) -> ALUColumn {
        match self {
            ALUColumn::ColA(_) => ALUColumn::ColA(value),
            ALUColumn::ColB(_) => ALUColumn::ColB(value),
            ALUColumn::ColC(_) => ALUColumn::ColC(value),
        }
    }

    /// A fresh operand-A column.
    #[allow(non_snake_case)]
    pub fn A() -> (c: ALUColumn)
        ensures
            c == ALUColumn::ColA(MemoryValue::U0(0)),
    {
        ALUColumn::ColA(MemoryValue::U0(0))
    }

    /// A fresh operand-B column.
    #[allow(non_snake_case)]
    pub fn B() -> (c: ALUColumn)
        ensures
            c == ALUColumn::ColB(MemoryValue::U0(0)),
    {
        ALUColumn::ColB(MemoryValue::U0(0))
    }

    /// A fresh result-C column.
    #[allow(non_snake_case)]
    pub fn C() -> (c: ALUColumn)
        ensures
            c == ALUColumn::ColC(MemoryValue::U0(0)),
    {
        ALUColumn::ColC(MemoryValue::U0(0))
    }

    /// Borrows the held value.
    pub fn value(&self) -> (r: &MemoryValue)
        ensures
            *r == self.value_spec(),
    {
        match self {
            ALUColumn::ColA(value) => value,
            ALUColumn::ColB(value) => value,
            ALUColumn::ColC(value) => value,
        }
    }

    /// Borrows the held value mutably; the column keeps its name (and so
    /// its channel) whatever is written through the borrow.
    pub fn value_mut(&mut self) -> (r: &mut MemoryValue)
        ensures
            *r == old(self).value_spec(),
            *final(self) == old(self).with_value(*final(r)),
    {
        match self {
            ALUColumn::ColA(value) => value,
            ALUColumn::ColB(value) => value,
            ALUColumn::ColC(value) => value,
        }
    }
}

} // verus!
