//! The operation adapter: every memory access the ALU makes goes through
//! it, so that the logged event always carries the accessing column's fixed
//! channel, whatever the opcode.  The memory store itself stays with the VM
//! driver and is borrowed for each access.

use vstd::prelude::*;

use crate::WitgenError;
use crate::alu::columns::ALUColumn;
use crate::memory::{MemoryChip, MemoryEvent, MemoryOp};
use crate::ranges;

verus! {

/// Mediates the memory accesses of one instruction.
pub struct ALUMemoryWrapper {}

impl ALUMemoryWrapper {
    /// A fresh adapter.
    pub fn new() -> (w: ALUMemoryWrapper) {
        ALUMemoryWrapper {  }
    }

    /// The channel the column is bound to.
    fn get_channel(column: &ALUColumn) -> (r: u8)
        ensures
            r == column.channel_spec(),
    {
        match column {
            ALUColumn::ColA(_) => 0,
            ALUColumn::ColB(_) => 1,
            ALUColumn::ColC(_) => 2,
        }
    }

    /// Reads `addr` on the column's channel and stores the fetched value
    /// into the column.  The store's contents are untouched; one Read event
    /// is staged.
    pub fn read(&self, memory: &mut MemoryChip, addr: u32, column: &mut ALUColumn)
        ensures
            final(memory).mem() == old(memory).mem(),
            final(memory).committed_log() == old(memory).committed_log(),
            final(memory).clock() == old(memory).clock(),
            final(memory).staged_log() == old(memory).staged_log().push(
                (MemoryEvent {
                    clk: old(memory).clock(),
                    channel: old(column).channel_spec(),
                    addr,
                    value: MemoryChip::lookup(old(memory).mem(), addr),
                    operation: MemoryOp::Read,
                }),
            ),
            *final(column) == old(column).with_value(MemoryChip::lookup(old(memory).mem(), addr)),
            old(memory).inv() ==> final(memory).inv(),
    {
        let value = memory.read(addr, Self::get_channel(column));
        *column.value_mut() = value;
    }

    /// Writes the column's held value to `addr` on the column's channel.
    /// The store range-checks the access: a rejected one comes back as
    /// `RangeViolation` with the store unchanged.
    pub fn write(&self, memory: &mut MemoryChip, addr: u32, column: &ALUColumn) -> (r: Result<
        (),
        WitgenError,
    >)
        ensures
            if column.value_spec().wf() && ranges::address_in_range(addr) {
                &&& r == Ok::<(), WitgenError>(())
                &&& final(memory).mem() == old(memory).mem().insert(addr, column.value_spec())
                &&& final(memory).committed_log() == old(memory).committed_log()
                &&& final(memory).clock() == old(memory).clock()
                &&& final(memory).staged_log() == old(memory).staged_log().push(
                    (MemoryEvent {
                        clk: old(memory).clock(),
                        channel: column.channel_spec(),
                        addr,
                        value: column.value_spec(),
                        operation: MemoryOp::Write,
                    }),
                )
            } else {
                &&& r == Err::<(), WitgenError>(WitgenError::RangeViolation)
                &&& *final(memory) == *old(memory)
            },
            old(memory).inv() ==> final(memory).inv(),
    {
        memory.write(addr, Self::get_channel(column), column.value())
    }
}

} // verus!
