use num_bigint::BigInt;
use sierra_to_casm::ap_change::ApChange;
use sierra_to_casm::builder::CodeBuilder;
use sierra_to_casm::immediate::Immediate;
use sierra_to_casm::instruction::{
    DerefOrImmediate, Hint, Instruction, InstructionBody, JumpTarget, ResOperand, StatementIdx,
};
use sierra_to_casm::invocation::{BranchChanges, CompiledInvocation};
use sierra_to_casm::reference::{CellRef, ReferenceExpression, Register};
use sierra_to_casm::relocation::{Relocation, RelocationEntry, RelocationTable};

/// The integer that the two limbs stand for.
fn value_of(imm: Immediate) -> BigInt {
    BigInt::from(imm.high) * BigInt::from(2).pow(128) + BigInt::from(imm.low)
}

fn entry(instruction_idx: usize, statement: usize) -> RelocationEntry {
    RelocationEntry {
        instruction_idx,
        relocation: Relocation::RelativeStatementId(StatementIdx(statement)),
    }
}

#[test]
fn cells_are_made_from_base_and_offset() {
    assert_eq!(CellRef::ap(-3), CellRef { register: Register::AP, offset: -3 });
    assert_eq!(CellRef::fp(4), CellRef { register: Register::FP, offset: 4 });
    assert_ne!(CellRef::ap(4), CellRef::fp(4));
}

#[test]
fn shifting_moves_the_offset_and_keeps_the_base() {
    assert_eq!(CellRef::fp(2).shifted(1), CellRef::fp(3));
    assert_eq!(CellRef::ap(-7).shifted(-2), CellRef::ap(-9));
    assert_eq!(CellRef::ap(5).shifted(0), CellRef::ap(5));
    assert_eq!(CellRef::fp(i16::MAX - 1).shifted(1), CellRef::fp(i16::MAX));
    assert_eq!(CellRef::ap(i16::MIN + 1).shifted(-1), CellRef::ap(i16::MIN));
    assert_eq!(CellRef::ap(-7).shifted(-2).shifted(5), CellRef::ap(-7).shifted(3));
}

#[test]
fn shifts_out_of_range_do_not_fit() {
    assert!(CellRef::fp(i16::MAX).fits_shift(0));
    assert!(!CellRef::fp(i16::MAX).fits_shift(1));
    assert!(CellRef::fp(i16::MAX).fits_shift(i16::MIN));
    assert!(!CellRef::ap(i16::MIN).fits_shift(-1));
    assert!(CellRef::ap(i16::MIN).fits_shift(i16::MAX));
    assert!(!CellRef::ap(-1).fits_shift(i16::MIN));
    assert!(CellRef::ap(0).fits_shift(i16::MIN));
}

#[test]
fn an_advance_renames_cells_of_the_allocation_pointer_only() {
    assert_eq!(CellRef::ap(-2).apply_ap_change(3), CellRef::ap(-5));
    assert_eq!(CellRef::ap(-2).apply_ap_change(0), CellRef::ap(-2));
    assert_eq!(CellRef::ap(10).apply_ap_change(10), CellRef::ap(0));
    assert_eq!(CellRef::fp(-2).apply_ap_change(3), CellRef::fp(-2));
    assert_eq!(CellRef::fp(i16::MIN).apply_ap_change(u16::MAX), CellRef::fp(i16::MIN));
    assert_eq!(CellRef::ap(i16::MAX).apply_ap_change(u16::MAX), CellRef::ap(i16::MIN));
    assert_eq!(
        CellRef::ap(-2).apply_ap_change(1).apply_ap_change(2),
        CellRef::ap(-2).apply_ap_change(3)
    );
}

#[test]
fn advances_out_of_range_do_not_fit() {
    assert!(CellRef::ap(i16::MIN).fits_advance(0));
    assert!(!CellRef::ap(i16::MIN).fits_advance(1));
    assert!(CellRef::ap(i16::MIN + 3).fits_advance(3));
    assert!(!CellRef::ap(i16::MIN + 3).fits_advance(4));
    assert!(CellRef::ap(i16::MAX).fits_advance(u16::MAX));
    assert!(!CellRef::ap(i16::MAX - 1).fits_advance(u16::MAX));
    assert!(CellRef::fp(i16::MIN).fits_advance(u16::MAX));
}

#[test]
fn the_limit_is_two_to_the_128() {
    assert_eq!(value_of(Immediate::uint128_limit()), BigInt::from(2).pow(128));
    assert_eq!(value_of(Immediate::uint128_limit()), BigInt::from(u128::MAX) + 1);
    assert_eq!(Immediate::uint128_limit(), Immediate { high: 1, low: 0 });
}

#[test]
fn constants_have_the_value_they_are_made_from() {
    for n in [0u128, 1, 7, u64::MAX as u128, u128::MAX] {
        assert_eq!(value_of(Immediate::from_u128(n)), BigInt::from(n));
        assert_eq!(Immediate::from_u128(n), Immediate { high: 0, low: n });
    }
    for n in [0i128, 1, -1, -2, 42, -42, i128::MAX, i128::MIN, i128::MIN + 1] {
        assert_eq!(value_of(Immediate::from_i128(n)), BigInt::from(n));
    }
    assert_eq!(Immediate::from_i128(-1), Immediate { high: -1, low: u128::MAX });
    assert_eq!(Immediate::from_i128(5), Immediate::from_u128(5));
}

#[test]
fn an_instruction_takes_one_word_and_one_more_for_a_constant() {
    let cell = CellRef::ap(0);
    let one = Immediate::from_u128(1);
    let size = |rhs: ResOperand| Instruction::assert_eq(cell, rhs).body.op_size();
    assert_eq!(size(ResOperand::Deref(cell)), 1);
    assert_eq!(size(ResOperand::DoubleDeref(cell)), 1);
    assert_eq!(size(ResOperand::Sum(cell, DerefOrImmediate::Deref(cell))), 1);
    assert_eq!(size(ResOperand::Immediate(one)), 2);
    assert_eq!(size(ResOperand::Sum(cell, DerefOrImmediate::Immediate(one))), 2);
    assert_eq!(Instruction::jump_rel(one).body.op_size(), 2);
    assert_eq!(Instruction::jump_nz(cell, one).body.op_size(), 2);
    assert_eq!(Instruction::jump_to(StatementIdx(3)).body.op_size(), 2);
    assert_eq!(Instruction::jump_to(StatementIdx(3)).advancing().body.op_size(), 2);
}

#[test]
fn instructions_are_built_plain_and_then_marked() {
    let dst = CellRef::ap(-1);
    let rhs = ResOperand::Sum(CellRef::fp(2), DerefOrImmediate::Deref(CellRef::ap(-4)));
    let plain = Instruction::assert_eq(dst, rhs);
    assert_eq!(
        plain,
        Instruction { body: InstructionBody::AssertEq { dst, rhs }, inc_ap: false, hint: None }
    );
    assert_eq!(plain.advancing(), Instruction { inc_ap: true, ..plain });
    assert_eq!(plain.advancing().advancing(), plain.advancing());
    let hint = Hint::TestLessThan {
        dst,
        lhs: DerefOrImmediate::Deref(CellRef::ap(0)),
        rhs: DerefOrImmediate::Immediate(Immediate::uint128_limit()),
    };
    assert_eq!(plain.hinted(hint), Instruction { hint: Some(hint), ..plain });
    assert_eq!(plain.hinted(hint).advancing(), plain.advancing().hinted(hint));
    let offset = Immediate::from_u128(9);
    assert_eq!(
        Instruction::jump_rel(offset).body,
        InstructionBody::Jump { condition: None, target: JumpTarget::Relative(offset) }
    );
    assert_eq!(
        Instruction::jump_nz(dst, offset).body,
        InstructionBody::Jump { condition: Some(dst), target: JumpTarget::Relative(offset) }
    );
    assert_eq!(
        Instruction::jump_to(StatementIdx(6)).body,
        InstructionBody::Jump { condition: None, target: JumpTarget::Statement(StatementIdx(6)) }
    );
    assert!(!Instruction::jump_nz(dst, offset).inc_ap);
    assert_eq!(Instruction::jump_to(StatementIdx(6)).hint, None);
}

#[test]
fn only_jumps_to_statements_leave() {
    let cell = CellRef::fp(0);
    let offset = Immediate::from_u128(0);
    assert_eq!(Instruction::jump_to(StatementIdx(6)).leaves_to(), Some(StatementIdx(6)));
    assert_eq!(
        Instruction::jump_to(StatementIdx(0)).advancing().leaves_to(),
        Some(StatementIdx(0))
    );
    assert_eq!(Instruction::jump_rel(offset).leaves_to(), None);
    assert_eq!(Instruction::jump_nz(cell, offset).leaves_to(), None);
    assert_eq!(Instruction::assert_eq(cell, ResOperand::Deref(cell)).leaves_to(), None);
}

#[test]
fn the_next_statement_is_one_further() {
    assert_eq!(StatementIdx(0).next(), StatementIdx(1));
    assert_eq!(StatementIdx(41).next(), StatementIdx(42));
    assert_eq!(StatementIdx(usize::MAX - 1).next(), StatementIdx(usize::MAX));
}

#[test]
fn the_advance_of_a_run_counts_its_marked_instructions() {
    let cell = CellRef::ap(0);
    let plain = Instruction::assert_eq(cell, ResOperand::Deref(cell));
    let marked = plain.advancing();
    assert_eq!(ApChange::of_run(&vec![]), ApChange::Known(0));
    assert_eq!(ApChange::of_run(&vec![plain]), ApChange::Known(0));
    assert_eq!(ApChange::of_run(&vec![marked]), ApChange::Known(1));
    assert_eq!(ApChange::of_run(&vec![marked, plain, marked, marked, plain]), ApChange::Known(3));
    assert_eq!(ApChange::of_run(&vec![plain; 100]), ApChange::Known(0));
    assert_eq!(ApChange::of_run(&vec![marked; 100]), ApChange::Known(100));
    let first = vec![marked, plain, marked];
    let second = vec![plain, marked];
    let both: Vec<Instruction> = first.iter().chain(second.iter()).copied().collect();
    assert_eq!(ApChange::of_run(&both), ApChange::Known(3));
    assert_ne!(ApChange::of_run(&both), ApChange::Unknown);
}

#[test]
fn the_table_keeps_the_order_of_its_entries() {
    let mut table = RelocationTable::new();
    assert_eq!(table.entries, vec![]);
    table.add(4, StatementIdx(1));
    assert_eq!(table.entries, vec![entry(4, 1)]);
    table.add(2, StatementIdx(9));
    table.add(4, StatementIdx(1));
    assert_eq!(table.entries, vec![entry(4, 1), entry(2, 9), entry(4, 1)]);
}

#[test]
fn the_builder_enters_jumps_to_statements_as_they_come() {
    let cell = CellRef::ap(0);
    let plain = Instruction::assert_eq(cell, ResOperand::DoubleDeref(cell)).advancing();
    let inner = Instruction::jump_nz(cell, Immediate::from_u128(4));
    let code = vec![
        Instruction::jump_to(StatementIdx(7)),
        plain,
        inner,
        Instruction::jump_to(StatementIdx(3)).advancing(),
        Instruction::jump_rel(Immediate::from_u128(0)),
        Instruction::jump_to(StatementIdx(7)),
    ];
    let mut builder = CodeBuilder::new();
    for instruction in &code {
        builder.push(*instruction);
    }
    let (instructions, relocations) = builder.finish();
    assert_eq!(instructions, code);
    assert_eq!(relocations, vec![entry(0, 7), entry(3, 3), entry(5, 7)]);
}

#[test]
fn an_empty_builder_gives_nothing() {
    let (instructions, relocations) = CodeBuilder::new().finish();
    assert_eq!(instructions, vec![]);
    assert_eq!(relocations, vec![]);
}

#[test]
fn an_invocation_lists_its_two_exits_in_order() {
    let first = BranchChanges::new(vec![], ApChange::Known(1));
    let second = BranchChanges::new(
        vec![ReferenceExpression::Deref(CellRef::ap(-1))],
        ApChange::Known(2),
    );
    let code = vec![Instruction::jump_to(StatementIdx(1))];
    let compiled =
        CompiledInvocation::two_way(code.clone(), vec![entry(0, 1)], first.clone(), second.clone());
    assert_eq!(
        compiled,
        CompiledInvocation {
            instructions: code,
            relocations: vec![entry(0, 1)],
            results: vec![first, second.clone()],
        }
    );
    assert_eq!(
        second,
        BranchChanges {
            refs: vec![ReferenceExpression::Deref(CellRef::ap(-1))],
            ap_change: ApChange::Known(2),
        }
    );
}
