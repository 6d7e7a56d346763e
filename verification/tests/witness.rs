use avm_witgen_ng::alu::columns::ALUColumn;
use avm_witgen_ng::alu::{ALUChip, OPCODE_ADD, OPCODE_LT};
use avm_witgen_ng::memory::{MemoryChip, MemoryOp, MemoryTag, MemoryValue, FIELD_ORDER};
use avm_witgen_ng::ranges::{check_address_range, check_value_width};
use avm_witgen_ng::WitgenError;

#[test]
fn tag_of_each_variant() {
    assert_eq!(MemoryValue::U0(0).tag(), MemoryTag::U0);
    assert_eq!(MemoryValue::U1(1).tag(), MemoryTag::U1);
    assert_eq!(MemoryValue::U8(7).tag(), MemoryTag::U8);
    assert_eq!(MemoryValue::U16(7).tag(), MemoryTag::U16);
    assert_eq!(MemoryValue::U32(7).tag(), MemoryTag::U32);
    assert_eq!(MemoryValue::U64(7).tag(), MemoryTag::U64);
    assert_eq!(MemoryValue::U128(7).tag(), MemoryTag::U128);
    assert_eq!(MemoryValue::FF(7).tag(), MemoryTag::FF);
}

#[test]
fn add_preserves_tag() {
    let x = MemoryValue::U16(300);
    let y = MemoryValue::U16(14);
    let sum = x.add(y).unwrap();
    assert_eq!(sum.tag(), x.tag());
    assert_eq!(sum, MemoryValue::U16(314));
}

#[test]
fn add_mismatched_tags_is_flagged_not_a_crash() {
    assert_eq!(
        MemoryValue::U8(3).add(MemoryValue::U16(4)),
        Err(WitgenError::TagMismatch)
    );
    assert_eq!(
        MemoryValue::FF(3).add(MemoryValue::U64(4)),
        Err(WitgenError::TagMismatch)
    );
}

#[test]
fn add_overflow_is_explicit() {
    assert_eq!(
        MemoryValue::U8(250).add(MemoryValue::U8(10)),
        Err(WitgenError::Overflow)
    );
    assert_eq!(
        MemoryValue::U64(u64::MAX).add(MemoryValue::U64(1)),
        Err(WitgenError::Overflow)
    );
    assert_eq!(
        MemoryValue::U1(1).add(MemoryValue::U1(1)),
        Err(WitgenError::Overflow)
    );
    assert_eq!(
        MemoryValue::U0(0).add(MemoryValue::U0(0)),
        Ok(MemoryValue::U0(0))
    );
}

#[test]
fn field_addition_reduces_instead_of_overflowing() {
    assert_eq!(
        MemoryValue::FF(FIELD_ORDER - 1).add(MemoryValue::FF(1)),
        Ok(MemoryValue::FF(0))
    );
    assert_eq!(
        MemoryValue::FF(FIELD_ORDER - 1).add(MemoryValue::FF(FIELD_ORDER - 1)),
        Ok(MemoryValue::FF(FIELD_ORDER - 2))
    );
    assert_eq!(
        MemoryValue::FF(5).add(MemoryValue::FF(6)),
        Ok(MemoryValue::FF(11))
    );
}

#[test]
fn sub_checks_width_and_tags() {
    assert_eq!(
        MemoryValue::U8(10).sub(MemoryValue::U8(3)),
        Ok(MemoryValue::U8(7))
    );
    assert_eq!(
        MemoryValue::U8(3).sub(MemoryValue::U8(10)),
        Err(WitgenError::Overflow)
    );
    assert_eq!(
        MemoryValue::U8(3).sub(MemoryValue::U32(1)),
        Err(WitgenError::TagMismatch)
    );
    assert_eq!(
        MemoryValue::FF(0).sub(MemoryValue::FF(1)),
        Ok(MemoryValue::FF(FIELD_ORDER - 1))
    );
}

#[test]
fn less_than_compares_numerically() {
    assert_eq!(MemoryValue::U8(3).less_than(MemoryValue::U8(4)), Ok(true));
    assert_eq!(MemoryValue::U8(4).less_than(MemoryValue::U8(3)), Ok(false));
    assert_eq!(MemoryValue::U8(4).less_than(MemoryValue::U8(4)), Ok(false));
    assert_eq!(
        MemoryValue::U128(1).less_than(MemoryValue::U128(u128::MAX)),
        Ok(true)
    );
    assert_eq!(
        MemoryValue::U8(1).less_than(MemoryValue::U16(2)),
        Err(WitgenError::TagMismatch)
    );
}

#[test]
fn range_checks() {
    assert!(check_address_range(0));
    assert!(check_address_range(u32::MAX));
    assert!(check_value_width(&MemoryValue::U0(0)));
    assert!(!check_value_width(&MemoryValue::U0(1)));
    assert!(check_value_width(&MemoryValue::U1(1)));
    assert!(!check_value_width(&MemoryValue::U1(2)));
    assert!(check_value_width(&MemoryValue::FF(FIELD_ORDER - 1)));
    assert!(!check_value_width(&MemoryValue::FF(FIELD_ORDER)));
}

#[test]
fn default_read_is_zero_marker() {
    let mut memory = MemoryChip::new();
    let value = memory.read(12345, 0);
    assert_eq!(value, MemoryValue::U0(0));
    let events = memory.staged_events();
    assert_eq!(events.len(), 1);
    assert_eq!(events[0].operation, MemoryOp::Read);
    assert_eq!(events[0].addr, 12345);
    assert_eq!(events[0].value, MemoryValue::U0(0));
}

#[test]
fn write_then_read_round_trip() {
    let mut memory = MemoryChip::new();
    memory.write(7, 2, &MemoryValue::U32(99)).unwrap();
    let value = memory.read(7, 0);
    assert_eq!(value, MemoryValue::U32(99));
}

#[test]
fn idempotent_overwrite() {
    let mut memory = MemoryChip::new();
    memory.write(5, 2, &MemoryValue::U8(42)).unwrap();
    memory.write(5, 2, &MemoryValue::U8(42)).unwrap();
    let events = memory.staged_events();
    assert_eq!(events.len(), 2);
    assert_eq!(events[0].operation, MemoryOp::Write);
    assert_eq!(events[1].operation, MemoryOp::Write);
    assert_eq!(events[0].value, MemoryValue::U8(42));
    assert_eq!(events[1].value, MemoryValue::U8(42));
    let value = memory.read(5, 0);
    assert_eq!(value, MemoryValue::U8(42));
}

#[test]
fn rejected_write_leaves_store_unchanged() {
    let mut memory = MemoryChip::new();
    memory.write(3, 2, &MemoryValue::U1(1)).unwrap();
    let staged_before = memory.staged_events().len();
    assert_eq!(
        memory.write(3, 2, &MemoryValue::U1(2)),
        Err(WitgenError::RangeViolation)
    );
    assert_eq!(
        memory.write(3, 2, &MemoryValue::FF(FIELD_ORDER)),
        Err(WitgenError::RangeViolation)
    );
    assert_eq!(memory.staged_events().len(), staged_before);
    let value = memory.read(3, 0);
    assert_eq!(value, MemoryValue::U1(1));
}

#[test]
fn advance_cycle_commits_and_advances_clock() {
    let mut memory = MemoryChip::new();
    assert_eq!(memory.current_clk(), 0);
    memory.write(1, 2, &MemoryValue::U8(9)).unwrap();
    memory.read(1, 0);
    assert_eq!(memory.committed_events().len(), 0);
    assert_eq!(memory.staged_events().len(), 2);
    memory.advance_cycle();
    assert_eq!(memory.current_clk(), 1);
    assert_eq!(memory.committed_events().len(), 2);
    assert_eq!(memory.staged_events().len(), 0);
    assert_eq!(memory.committed_events()[0].clk, 0);
    let value = memory.read(1, 0);
    assert_eq!(value, MemoryValue::U8(9));
    assert_eq!(memory.staged_events()[0].clk, 1);
}

#[test]
fn columns_start_at_zero_on_their_channels() {
    let a = ALUColumn::A();
    let b = ALUColumn::B();
    let c = ALUColumn::C();
    assert_eq!(*a.value(), MemoryValue::U0(0));
    assert_eq!(*b.value(), MemoryValue::U0(0));
    assert_eq!(*c.value(), MemoryValue::U0(0));
    assert!(matches!(a, ALUColumn::ColA(_)));
    assert!(matches!(b, ALUColumn::ColB(_)));
    assert!(matches!(c, ALUColumn::ColC(_)));
}

#[test]
fn value_mut_overwrites_in_place() {
    let mut c = ALUColumn::C();
    *c.value_mut() = MemoryValue::U8(7);
    assert_eq!(*c.value(), MemoryValue::U8(7));
    assert!(matches!(c, ALUColumn::ColC(_)));
}

#[test]
fn alu_add_example() {
    let mut memory = MemoryChip::new();
    memory.write(0, 0, &MemoryValue::U8(3)).unwrap();
    memory.write(1, 0, &MemoryValue::U8(4)).unwrap();
    memory.advance_cycle();

    let mut alu = ALUChip::new();
    alu.add(&mut memory, 0, 1, 2);

    let events = alu.event_log();
    assert_eq!(events.len(), 1);
    let event = &events[0];
    assert_eq!(event.opcode, OPCODE_ADD);
    assert_eq!(event.a, MemoryValue::U8(3));
    assert_eq!(event.b, MemoryValue::U8(4));
    assert_eq!(event.c, MemoryValue::U8(7));
    assert!(!event.error);
    assert_eq!(event.clk, 1);

    let staged = memory.staged_events();
    assert_eq!(staged.len(), 3);
    assert_eq!(staged[0].operation, MemoryOp::Read);
    assert_eq!(staged[0].channel, 0);
    assert_eq!(staged[0].addr, 0);
    assert_eq!(staged[0].value, MemoryValue::U8(3));
    assert_eq!(staged[1].operation, MemoryOp::Read);
    assert_eq!(staged[1].channel, 1);
    assert_eq!(staged[1].addr, 1);
    assert_eq!(staged[1].value, MemoryValue::U8(4));
    assert_eq!(staged[2].operation, MemoryOp::Write);
    assert_eq!(staged[2].channel, 2);
    assert_eq!(staged[2].addr, 2);
    assert_eq!(staged[2].value, MemoryValue::U8(7));
}

#[test]
fn alu_lt_computes_comparison() {
    let mut memory = MemoryChip::new();
    memory.write(0, 0, &MemoryValue::U16(40)).unwrap();
    memory.write(1, 0, &MemoryValue::U16(9)).unwrap();
    let mut alu = ALUChip::new();

    alu.lt(&mut memory, 0, 1, 2);
    assert_eq!(alu.event_log()[0].opcode, OPCODE_LT);
    assert_eq!(alu.event_log()[0].c, MemoryValue::U1(0));
    assert!(!alu.event_log()[0].error);

    alu.lt(&mut memory, 1, 0, 3);
    assert_eq!(alu.event_log()[1].c, MemoryValue::U1(1));
    assert!(!alu.event_log()[1].error);

    alu.lt(&mut memory, 0, 0, 4);
    assert_eq!(alu.event_log()[2].c, MemoryValue::U1(0));
    assert!(!alu.event_log()[2].error);
}

#[test]
fn alu_lt_mismatched_tags_flagged() {
    let mut memory = MemoryChip::new();
    memory.write(0, 0, &MemoryValue::U8(1)).unwrap();
    memory.write(1, 0, &MemoryValue::U16(2)).unwrap();
    let mut alu = ALUChip::new();
    alu.lt(&mut memory, 0, 1, 2);
    let event = &alu.event_log()[0];
    assert!(event.error);
    assert_eq!(event.c, MemoryValue::U0(0));
}

#[test]
fn alu_overflow_flagged_with_defined_result() {
    let mut memory = MemoryChip::new();
    memory.write(0, 0, &MemoryValue::U8(250)).unwrap();
    memory.write(1, 0, &MemoryValue::U8(10)).unwrap();
    let mut alu = ALUChip::new();
    alu.add(&mut memory, 0, 1, 2);
    let event = &alu.event_log()[0];
    assert!(event.error);
    assert_eq!(event.c, MemoryValue::U0(0));
    let staged = memory.staged_events();
    assert_eq!(staged[staged.len() - 1].value, MemoryValue::U0(0));
}

#[test]
fn alu_mismatch_flagged_with_defined_result() {
    let mut memory = MemoryChip::new();
    memory.write(0, 0, &MemoryValue::U8(1)).unwrap();
    memory.write(1, 0, &MemoryValue::FF(1)).unwrap();
    let mut alu = ALUChip::new();
    alu.add(&mut memory, 0, 1, 2);
    let event = &alu.event_log()[0];
    assert!(event.error);
    assert_eq!(event.c, MemoryValue::U0(0));
}

#[test]
fn channel_fixity_across_opcodes() {
    let mut memory = MemoryChip::new();
    memory.write(0, 0, &MemoryValue::U8(3)).unwrap();
    memory.write(1, 0, &MemoryValue::U8(4)).unwrap();
    memory.advance_cycle();
    let base = memory.staged_events().len();
    assert_eq!(base, 0);

    let mut alu = ALUChip::new();
    alu.add(&mut memory, 0, 1, 2);
    alu.lt(&mut memory, 0, 1, 3);

    let staged = memory.staged_events();
    assert_eq!(staged.len(), 6);
    for step in 0..2 {
        assert_eq!(staged[3 * step].channel, 0);
        assert_eq!(staged[3 * step].operation, MemoryOp::Read);
        assert_eq!(staged[3 * step + 1].channel, 1);
        assert_eq!(staged[3 * step + 1].operation, MemoryOp::Read);
        assert_eq!(staged[3 * step + 2].channel, 2);
        assert_eq!(staged[3 * step + 2].operation, MemoryOp::Write);
    }
}

#[test]
fn triple_event_matches_alu_event() {
    let mut memory = MemoryChip::new();
    memory.write(10, 0, &MemoryValue::U64(5)).unwrap();
    memory.write(20, 0, &MemoryValue::U64(6)).unwrap();
    memory.advance_cycle();

    let mut alu = ALUChip::new();
    alu.add(&mut memory, 10, 20, 30);

    let event = &alu.event_log()[0];
    let staged = memory.staged_events();
    assert_eq!(staged.len(), 3);
    assert_eq!(
        (staged[0].addr, staged[0].value, staged[0].operation),
        (event.addr_a, event.a, MemoryOp::Read)
    );
    assert_eq!(
        (staged[1].addr, staged[1].value, staged[1].operation),
        (event.addr_b, event.b, MemoryOp::Read)
    );
    assert_eq!(
        (staged[2].addr, staged[2].value, staged[2].operation),
        (event.addr_c, event.c, MemoryOp::Write)
    );
    assert_eq!(staged[0].clk, event.clk);
    assert_eq!(staged[1].clk, event.clk);
    assert_eq!(staged[2].clk, event.clk);
}

#[test]
fn ordering_scenario_add_then_lt() {
    let mut memory = MemoryChip::new();
    memory.write(0, 0, &MemoryValue::U8(3)).unwrap();
    memory.write(1, 0, &MemoryValue::U8(4)).unwrap();
    memory.advance_cycle();

    let mut alu = ALUChip::new();
    alu.add(&mut memory, 0, 1, 2);
    memory.advance_cycle();
    alu.lt(&mut memory, 2, 1, 3);
    memory.advance_cycle();

    // Program order across both instructions, ADD's footprint first.
    let committed = memory.committed_events();
    assert_eq!(committed.len(), 8);
    let add_events = &committed[2..5];
    let lt_events = &committed[5..8];
    assert_eq!(add_events[2].operation, MemoryOp::Write);
    assert_eq!(add_events[2].addr, 2);
    assert_eq!(add_events[2].value, MemoryValue::U8(7));
    // The second instruction's read of address 2 observes the first's write.
    assert_eq!(lt_events[0].operation, MemoryOp::Read);
    assert_eq!(lt_events[0].addr, 2);
    assert_eq!(lt_events[0].value, MemoryValue::U8(7));
    // 7 < 4 is false.
    assert_eq!(lt_events[2].value, MemoryValue::U1(0));
    assert!(lt_events[0].clk > add_events[0].clk);

    assert_eq!(alu.event_log().len(), 2);
    assert_eq!(alu.event_log()[0].c, MemoryValue::U8(7));
    assert_eq!(alu.event_log()[1].c, MemoryValue::U1(0));
}
