//! The ALU engine: executes one instruction at a time against the driver's
//! memory store, acquiring operands A and B through the operation adapter,
//! computing the opcode's result, writing it to C, and appending one ALU
//! event per instruction to its own append-only log.
//!
//! An arithmetic failure (tag mismatch, overflow) never aborts the
//! instruction: the event's error flag records it and the fixed placeholder
//! `U0(0)` is written, so every instruction leaves exactly one ALU event
//! and exactly three memory events.

pub mod columns;
pub mod interactions;

use vstd::prelude::*;

use crate::memory::{lemma_add_result_wf, MemoryChip, MemoryEvent, MemoryOp, MemoryValue};
use columns::ALUColumn;
use interactions::ALUMemoryWrapper;

verus! {

/// Opcode identifier of width-checked addition.
pub const OPCODE_ADD: u8 = 0;

/// Opcode identifier of width-aware unsigned less-than.
pub const OPCODE_LT: u8 = 1;

/// One record per executed instruction: the cycle, the opcode, the three
/// addresses, the three values observed for A, B and C, and the error flag.
#[derive(Clone, Copy, Debug, PartialEq, Eq, Structural)]
pub struct ALUEvent {
    pub clk: u64,
    pub opcode: u8,
    pub addr_a: u32,
    pub addr_b: u32,
    pub addr_c: u32,
    pub a: MemoryValue,
    pub b: MemoryValue,
    pub c: MemoryValue,
    pub error: bool,
}

/// Result value and error flag of the ADD opcode on operands `a` and `b`:
/// the width-checked sum, or the placeholder `U0(0)` with the error flag
/// set on a tag mismatch or an overflow.
pub open spec fn add_outcome(a: MemoryValue, b: MemoryValue) -> (MemoryValue, bool) {
    match a.spec_add(b) {
        Ok(c) => (c, false),
        Err(_) => (MemoryValue::U0(0), true),
    }
}

/// Result value and error flag of the LT opcode on operands `a` and `b`:
/// `U1(1)` or `U1(0)` by true unsigned comparison, or the placeholder
/// `U0(0)` with the error flag set on a tag mismatch.
pub open spec fn lt_outcome(a: MemoryValue, b: MemoryValue) -> (MemoryValue, bool) {
    match a.spec_lt(b) {
        Ok(is_lt) => (if is_lt { MemoryValue::U1(1) } else { MemoryValue::U1(0) }, false),
        Err(_) => (MemoryValue::U0(0), true),
    }
}

/// The three memory events one instruction stages, in program order: the
/// reads of A and B on channels 0 and 1, then the write of C on channel 2.
pub open spec fn instruction_memory_events(
    clk: u64,
    addr_a: u32,
    addr_b: u32,
    addr_c: u32,
    a: MemoryValue,
    b: MemoryValue,
    c: MemoryValue,
) -> Seq<MemoryEvent> {
    seq![
        (MemoryEvent { clk, channel: 0, addr: addr_a, value: a, operation: MemoryOp::Read }),
        (MemoryEvent { clk, channel: 1, addr: addr_b, value: b, operation: MemoryOp::Read }),
        (MemoryEvent { clk, channel: 2, addr: addr_c, value: c, operation: MemoryOp::Write }),
    ]
}

/// The ALU event describing the same instruction.
pub open spec fn instruction_alu_event(
    clk: u64,
    opcode: u8,
    addr_a: u32,
    addr_b: u32,
    addr_c: u32,
    a: MemoryValue,
    b: MemoryValue,
    c: MemoryValue,
    error: bool,
) -> ALUEvent {
    ALUEvent { clk, opcode, addr_a, addr_b, addr_c, a, b, c, error }
}

/// Triple-event invariant: whatever the opcode and outcome, an
/// instruction's memory footprint is exactly three events — two reads then
/// one write — on channels 0, 1 and 2, at the ALU event's addresses,
/// carrying the ALU event's values, all in the ALU event's cycle.
pub proof fn lemma_triple_event(
    clk: u64,
    opcode: u8,
    addr_a: u32,
    addr_b: u32,
    addr_c: u32,
    a: MemoryValue,
    b: MemoryValue,
    c: MemoryValue,
    error: bool,
)
    ensures
        ({
            let evs = instruction_memory_events(clk, addr_a, addr_b, addr_c, a, b, c);
            let ev = instruction_alu_event(clk, opcode, addr_a, addr_b, addr_c, a, b, c, error);
            &&& evs.len() == 3
            &&& evs[0] == (MemoryEvent {
                clk: ev.clk,
                channel: 0,
                addr: ev.addr_a,
                value: ev.a,
                operation: MemoryOp::Read,
            })
            &&& evs[1] == (MemoryEvent {
                clk: ev.clk,
                channel: 1,
                addr: ev.addr_b,
                value: ev.b,
                operation: MemoryOp::Read,
            })
            &&& evs[2] == (MemoryEvent {
                clk: ev.clk,
                channel: 2,
                addr: ev.addr_c,
                value: ev.c,
                operation: MemoryOp::Write,
            })
        }),
{
}

/// For operands of one tag, LT computes the comparison: the result is
/// `U1(1)` exactly when the first value is numerically below the second,
/// `U1(0)` otherwise, and the error flag stays clear.
pub proof fn lemma_lt_correct(x: MemoryValue, y: MemoryValue)
    requires
        x.tag_spec() == y.tag_spec(),
    ensures
        lt_outcome(x, y).1 == false,
        lt_outcome(x, y).0 == if x.as_nat() < y.as_nat() {
            MemoryValue::U1(1)
        } else {
            MemoryValue::U1(0)
        },
{
}

/// An ADD whose mathematical sum exceeds the operands' width sets the error
/// flag and yields the fixed placeholder `U0(0)` — a defined value, never
/// an arbitrary one.
pub proof fn lemma_overflow_flagged(x: MemoryValue, y: MemoryValue)
    requires
        x.tag_spec() == y.tag_spec(),
        x.tag_spec() != crate::memory::MemoryTag::FF,
        x.as_nat() + y.as_nat() > MemoryValue::tag_max(x.tag_spec()),
    ensures
        add_outcome(x, y) == (MemoryValue::U0(0), true),
{
}

/// The ALU engine, owner of the per-instruction event log.
pub struct ALUChip {
    events: Vec<ALUEvent>,
}

impl ALUChip {
    /// The events of the instructions executed so far, in issue order.
    pub closed spec fn log(&self) -> Seq<ALUEvent> {
        self.events@
    }

    /// A fresh engine with an empty log.
    pub fn new() -> (chip: ALUChip)
        ensures
            chip.log() == Seq::<ALUEvent>::empty(),
    {
        ALUChip { events: Vec::new() }
    }

    /// The ALU event log, for the driver to drain into the trace.
    pub fn event_log(&self) -> (r: &Vec<ALUEvent>)
        ensures
            r@ == self.log(),
    {
        &self.events
    }

    /// Executes `ADD addr_c <- addr_a + addr_b` against the driver's store:
    /// reads A and B on channels 0 and 1, computes the width-checked sum
    /// (on a tag mismatch or an overflow, flags the error and takes the
    /// placeholder `U0(0)` instead), writes the result to C on channel 2,
    /// and appends one ALU event carrying the whole step.
    pub fn add(&mut self, memory: &mut MemoryChip, addr_a: u32, addr_b: u32, addr_c: u32)
        requires
            old(memory).inv(),
        ensures
            ({
                let a = MemoryChip::lookup(old(memory).mem(), addr_a);
                let b = MemoryChip::lookup(old(memory).mem(), addr_b);
                let c = add_outcome(a, b).0;
                let error = add_outcome(a, b).1;
                &&& final(memory).mem() == old(memory).mem().insert(addr_c, c)
                &&& final(memory).committed_log() == old(memory).committed_log()
                &&& final(memory).clock() == old(memory).clock()
                &&& final(memory).inv()
                &&& final(memory).staged_log() == old(memory).staged_log()
                    + instruction_memory_events(old(memory).clock(), addr_a, addr_b, addr_c, a, b, c)
                &&& final(self).log() == old(self).log().push(
                    instruction_alu_event(
                        old(memory).clock(),
                        OPCODE_ADD,
                        addr_a,
                        addr_b,
                        addr_c,
                        a,
                        b,
                        c,
                        error,
                    ),
                )
            }),
    {
        let wrapper = ALUMemoryWrapper::new();
        let mut a = ALUColumn::A();
        let mut b = ALUColumn::B();
        let mut c = ALUColumn::C();

        wrapper.read(memory, addr_a, &mut a);
        wrapper.read(memory, addr_b, &mut b);

        let (result, error) = match (*a.value()).add(*b.value()) {
            Ok(value) => (value, false),
            Err(_) => (MemoryValue::U0(0), true),
        };
        proof {
            lemma_add_result_wf(a.value_spec(), b.value_spec());
        }
        *c.value_mut() = result;

        let clk = memory.current_clk();
        let status = wrapper.write(memory, addr_c, &c);
        proof {
            // The result of a checked operation is well-formed, so the range
            // check accepts the write: no partially committed instruction.
            assert(status is Ok);
        }

        self.events.push(
            ALUEvent {
                clk,
                opcode: OPCODE_ADD,
                addr_a,
                addr_b,
                addr_c,
                a: *a.value(),
                b: *b.value(),
                c: *c.value(),
                error,
            },
        );
    }

    /// Executes `LT addr_c <- addr_a < addr_b` against the driver's store:
    /// reads A and B, compares them as unsigned numbers of one width (on a
    /// tag mismatch, flags the error and takes the placeholder `U0(0)`),
    /// writes the 1-bit result to C, and appends one ALU event.
    pub fn lt(&mut self, memory: &mut MemoryChip, addr_a: u32, addr_b: u32, addr_c: u32)
        requires
            old(memory).inv(),
        ensures
            ({
                let a = MemoryChip::lookup(old(memory).mem(), addr_a);
                let b = MemoryChip::lookup(old(memory).mem(), addr_b);
                let c = lt_outcome(a, b).0;
                let error = lt_outcome(a, b).1;
                &&& final(memory).mem() == old(memory).mem().insert(addr_c, c)
                &&& final(memory).committed_log() == old(memory).committed_log()
                &&& final(memory).clock() == old(memory).clock()
                &&& final(memory).inv()
                &&& final(memory).staged_log() == old(memory).staged_log()
                    + instruction_memory_events(old(memory).clock(), addr_a, addr_b, addr_c, a, b, c)
                &&& final(self).log() == old(self).log().push(
                    instruction_alu_event(
                        old(memory).clock(),
                        OPCODE_LT,
                        addr_a,
                        addr_b,
                        addr_c,
                        a,
                        b,
                        c,
                        error,
                    ),
                )
            }),
    {
        let wrapper = ALUMemoryWrapper::new();
        let mut a = ALUColumn::A();
        let mut b = ALUColumn::B();
        let mut c = ALUColumn::C();

        wrapper.read(memory, addr_a, &mut a);
        wrapper.read(memory, addr_b, &mut b);

        let (result, error) = match (*a.value()).less_than(*b.value()) {
            Ok(is_lt) => (
                if is_lt {
                    MemoryValue::U1(1)
                } else {
                    MemoryValue::U1(0)
                },
                false,
            ),
            Err(_) => (MemoryValue::U0(0), true),
        };
        *c.value_mut() = result;

        let clk = memory.current_clk();
        let status = wrapper.write(memory, addr_c, &c);
        proof {
            // The result of a checked operation is well-formed, so the range
            // check accepts the write: no partially committed instruction.
            assert(status is Ok);
        }

        self.events.push(
            ALUEvent {
                clk,
                opcode: OPCODE_LT,
                addr_a,
                addr_b,
                addr_c,
                a: *a.value(),
                b: *b.value(),
                c: *c.value(),
                error,
            },
        );
    }
}

} // verus!
