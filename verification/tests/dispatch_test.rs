use sierra_to_casm::ap_change::ApChange;
use sierra_to_casm::compiler::{can_compile, compile, Operation};
use sierra_to_casm::instruction::{InstructionBody, JumpTarget, StatementIdx};
use sierra_to_casm::invocation::{CompiledInvocation, InvocationError};
use sierra_to_casm::reference::{CellRef, ReferenceExpression, Register};
use sierra_to_casm::relocation::{Relocation, RelocationEntry};
use sierra_to_casm::uint128::comparison::{compile_le, compile_lt};
use sierra_to_casm::uint128::equality::compile_eq;
use sierra_to_casm::uint128::overflow::{compile_overflow_add, compile_overflow_sub};

const NAMES: [&str; 5] =
    ["uint128_overflow_add", "uint128_overflow_sub", "uint128_eq", "uint128_lt", "uint128_le"];

fn ap(offset: i16) -> CellRef {
    CellRef { register: Register::AP, offset }
}

fn fp(offset: i16) -> CellRef {
    CellRef { register: Register::FP, offset }
}

fn inputs_for(name: &str) -> Vec<CellRef> {
    if name == "uint128_eq" {
        vec![ap(-2), fp(3)]
    } else {
        vec![fp(-3), ap(-2), ap(-1)]
    }
}

fn checked(name: &str, inputs: &Vec<CellRef>, statement: usize) -> CompiledInvocation {
    assert!(can_compile(name, inputs, StatementIdx(statement)));
    compile(name, inputs, StatementIdx(statement)).unwrap()
}

fn known(change: ApChange) -> usize {
    match change {
        ApChange::Known(n) => n,
        ApChange::Unknown => panic!("the advance of an exit is not known"),
    }
}

#[test]
fn unknown_names_are_refused() {
    for name in ["", "uint128", "uint128_mul", "uint128_eq ", " uint128_eq", "UINT128_EQ",
        "uint128_overflow_ad", "uint128_overflow_adds", "uint128_lte", "felt_add"]
    {
        for inputs in [vec![], vec![fp(0), fp(1)], vec![fp(0), fp(1), fp(2)]] {
            assert!(can_compile(name, &inputs, StatementIdx(0)));
            assert_eq!(
                compile(name, &inputs, StatementIdx(0)),
                Err(InvocationError::UnknownOperation)
            );
        }
        assert_eq!(Operation::from_name(name), None);
    }
}

#[test]
fn wrong_number_of_inputs_is_refused() {
    for name in NAMES {
        let expected = if name == "uint128_eq" { 2 } else { 3 };
        for actual in 0..6usize {
            if actual == expected {
                continue;
            }
            let inputs: Vec<CellRef> = (0..actual).map(|i| fp(i as i16)).collect();
            assert!(can_compile(name, &inputs, StatementIdx(7)));
            assert_eq!(
                compile(name, &inputs, StatementIdx(7)),
                Err(InvocationError::WrongNumberOfArguments { expected, actual })
            );
        }
    }
}

#[test]
fn wrong_number_of_inputs_is_refused_at_the_last_statement() {
    let inputs = vec![ap(i16::MIN)];
    for name in NAMES {
        let expected = if name == "uint128_eq" { 2 } else { 3 };
        assert!(can_compile(name, &inputs, StatementIdx(usize::MAX)));
        assert_eq!(
            compile(name, &inputs, StatementIdx(usize::MAX)),
            Err(InvocationError::WrongNumberOfArguments { expected, actual: 1 })
        );
    }
}

#[test]
fn every_operation_compiles_on_its_own_number_of_inputs() {
    for name in NAMES {
        let compiled = checked(name, &inputs_for(name), 0);
        assert_eq!(compiled.results.len(), 2);
        assert_eq!(compiled.relocations.len(), 1);
    }
}

#[test]
fn names_and_operations_correspond() {
    let all = [
        (Operation::OverflowAdd, "uint128_overflow_add", 3),
        (Operation::OverflowSub, "uint128_overflow_sub", 3),
        (Operation::Eq, "uint128_eq", 2),
        (Operation::Lt, "uint128_lt", 3),
        (Operation::Le, "uint128_le", 3),
    ];
    for (operation, name, arity) in all {
        assert_eq!(operation.name(), name);
        assert_eq!(Operation::from_name(name), Some(operation));
        assert_eq!(operation.arity(), arity);
    }
}

#[test]
fn dispatch_agrees_with_the_operations_themselves() {
    let three = vec![ap(-5), fp(2), ap(-9)];
    let two = vec![ap(-5), fp(2)];
    let at = StatementIdx(11);
    assert_eq!(compile("uint128_overflow_add", &three, at), compile_overflow_add(&three, at));
    assert_eq!(compile("uint128_overflow_sub", &three, at), compile_overflow_sub(&three, at));
    assert_eq!(compile("uint128_eq", &two, at), compile_eq(&two, at));
    assert_eq!(compile("uint128_lt", &three, at), compile_lt(&three, at));
    assert_eq!(compile("uint128_le", &three, at), compile_le(&three, at));
    assert_eq!(Operation::Lt.compile(&three, at), compile_lt(&three, at));
    assert_ne!(compile_lt(&three, at), compile_le(&three, at));
    assert_ne!(compile_overflow_add(&three, at), compile_overflow_sub(&three, at));
}

#[test]
fn the_relocation_names_the_next_statement() {
    for name in NAMES {
        for statement in [0usize, 1, 41, usize::MAX - 1] {
            let compiled = checked(name, &inputs_for(name), statement);
            let jump_at = compiled.relocations[0].instruction_idx;
            assert_eq!(
                compiled.relocations,
                vec![RelocationEntry {
                    instruction_idx: jump_at,
                    relocation: Relocation::RelativeStatementId(StatementIdx(statement + 1)),
                }]
            );
            assert_eq!(
                compiled.instructions[jump_at].body,
                InstructionBody::Jump {
                    condition: None,
                    target: JumpTarget::Statement(StatementIdx(statement + 1)),
                }
            );
        }
    }
}

#[test]
fn the_last_statement_has_no_next() {
    for name in NAMES {
        assert!(!can_compile(name, &inputs_for(name), StatementIdx(usize::MAX)));
        assert!(can_compile(name, &inputs_for(name), StatementIdx(usize::MAX - 1)));
    }
}

#[test]
fn inputs_that_cannot_be_renamed_do_not_fit() {
    let at = StatementIdx(0);
    let low = i16::MIN;
    // The range-check pointer is renamed after three allocations.
    for name in ["uint128_overflow_add", "uint128_overflow_sub", "uint128_lt", "uint128_le"] {
        assert!(!can_compile(name, &vec![ap(low + 2), fp(0), fp(1)], at));
        assert!(can_compile(name, &vec![ap(low + 3), fp(0), fp(1)], at));
        assert!(can_compile(name, &vec![fp(low), fp(0), fp(1)], at));
    }
    // The operands of the overflowing operations and of the equality test are
    // only used before the first allocation.
    assert!(can_compile("uint128_overflow_add", &vec![fp(0), ap(low), ap(low)], at));
    assert!(can_compile("uint128_overflow_sub", &vec![fp(0), ap(low), ap(low)], at));
    assert!(can_compile("uint128_eq", &vec![ap(low), ap(low)], at));
    // `a < b` renames `a` after one allocation and `b` after two.
    assert!(!can_compile("uint128_lt", &vec![fp(0), ap(low), fp(1)], at));
    assert!(can_compile("uint128_lt", &vec![fp(0), ap(low + 1), fp(1)], at));
    assert!(!can_compile("uint128_lt", &vec![fp(0), fp(1), ap(low + 1)], at));
    assert!(can_compile("uint128_lt", &vec![fp(0), fp(1), ap(low + 2)], at));
    // `a <= b` renames `a` after two allocations and `b` after one.
    assert!(!can_compile("uint128_le", &vec![fp(0), ap(low + 1), fp(1)], at));
    assert!(can_compile("uint128_le", &vec![fp(0), ap(low + 2), fp(1)], at));
    assert!(!can_compile("uint128_le", &vec![fp(0), fp(1), ap(low)], at));
    assert!(can_compile("uint128_le", &vec![fp(0), fp(1), ap(low + 1)], at));
}

#[test]
fn inputs_at_the_edge_are_renamed_exactly() {
    let low = i16::MIN;
    let compiled = checked("uint128_lt", &vec![ap(low + 3), ap(low + 1), ap(low + 2)], 0);
    assert_eq!(
        compiled.results[0].refs,
        vec![ReferenceExpression::DerefPlus(ap(low + 1), 1)]
    );
    assert_eq!(compiled.results[1].refs, vec![ReferenceExpression::DerefPlus(ap(low), 1)]);
    let high = i16::MAX;
    let compiled = checked("uint128_overflow_sub", &vec![ap(high), ap(high), ap(high)], 0);
    assert_eq!(
        compiled.results[0].refs,
        vec![
            ReferenceExpression::DerefPlus(ap(high - 2), 1),
            ReferenceExpression::Deref(ap(-1)),
        ]
    );
    assert_eq!(
        compiled.results[1].refs,
        vec![
            ReferenceExpression::DerefPlus(ap(high - 3), 1),
            ReferenceExpression::Deref(ap(-1)),
        ]
    );
}

#[test]
fn wrapping_costs_one_more_allocation() {
    for name in ["uint128_overflow_add", "uint128_overflow_sub"] {
        for inputs in [vec![fp(2), fp(1), ap(-7)], vec![ap(-2), ap(-1), fp(7)], vec![ap(-9); 3]] {
            let compiled = checked(name, &inputs, 3);
            assert_eq!(
                known(compiled.results[1].ap_change),
                known(compiled.results[0].ap_change) + 1
            );
        }
    }
}

#[test]
fn comparisons_advance_two_and_three() {
    for name in ["uint128_lt", "uint128_le"] {
        for inputs in [vec![fp(-5), ap(-7), ap(-6)], vec![ap(-3), fp(-4), fp(-5)]] {
            let compiled = checked(name, &inputs, 3);
            let mut advances =
                vec![known(compiled.results[0].ap_change), known(compiled.results[1].ap_change)];
            assert_eq!(advances[0] + advances[1], 5);
            advances.sort();
            assert_eq!(advances, vec![2, 3]);
        }
    }
}

#[test]
fn equality_has_no_outputs_and_advances_once() {
    for inputs in [vec![fp(-4), fp(-3)], vec![ap(-1), ap(-2)], vec![ap(i16::MIN), fp(i16::MAX)]] {
        let compiled = checked("uint128_eq", &inputs, 0);
        for branch in &compiled.results {
            assert!(branch.refs.is_empty());
            assert_eq!(branch.ap_change, ApChange::Known(1));
        }
    }
}

#[test]
fn compiling_twice_gives_the_same() {
    for name in NAMES {
        let inputs = inputs_for(name);
        assert_eq!(checked(name, &inputs, 5), checked(name, &inputs, 5));
        assert_eq!(
            format!("{:?}", checked(name, &inputs, 5)),
            format!("{:?}", checked(name, &inputs, 5))
        );
    }
    assert_eq!(
        compile("nothing", &vec![], StatementIdx(0)),
        compile("nothing", &vec![], StatementIdx(0))
    );
}

#[test]
fn relocations_and_statement_jumps_correspond() {
    for name in NAMES {
        let compiled = checked(name, &inputs_for(name), 8);
        for entry in &compiled.relocations {
            let Relocation::RelativeStatementId(statement) = entry.relocation;
            assert_eq!(
                compiled.instructions[entry.instruction_idx].body,
                InstructionBody::Jump { condition: None, target: JumpTarget::Statement(statement) }
            );
        }
        for (index, instruction) in compiled.instructions.iter().enumerate() {
            let entries =
                compiled.relocations.iter().filter(|entry| entry.instruction_idx == index).count();
            let leaves = matches!(
                instruction.body,
                InstructionBody::Jump { target: JumpTarget::Statement(_), .. }
            );
            assert_eq!(entries, if leaves { 1 } else { 0 });
        }
    }
}

#[test]
fn the_conditional_jump_lands_on_the_other_block() {
    // (name, index of the conditional jump, index of the instruction it leads to)
    let shapes = [
        ("uint128_overflow_add", 1usize, 5usize),
        ("uint128_overflow_sub", 1, 5),
        ("uint128_eq", 1, 3),
        ("uint128_lt", 0, 5),
        ("uint128_le", 0, 4),
    ];
    for (name, test, target) in shapes {
        let compiled = checked(name, &inputs_for(name), 0);
        let words: usize =
            compiled.instructions[test..target].iter().map(|i| i.body.op_size()).sum();
        match compiled.instructions[test].body {
            InstructionBody::Jump { condition: Some(_), target: JumpTarget::Relative(offset) } => {
                assert_eq!(offset.high, 0);
                assert_eq!(offset.low, words as u128);
            }
            other => panic!("{:?} is no conditional jump", other),
        }
        let taken = compiled.instructions[..=test]
            .iter()
            .chain(compiled.instructions[target..].iter())
            .filter(|i| i.inc_ap)
            .count();
        let fallthrough = compiled.instructions[..target].iter().filter(|i| i.inc_ap).count();
        assert_eq!(compiled.results[0].ap_change, ApChange::Known(taken));
        assert_eq!(compiled.results[1].ap_change, ApChange::Known(fallthrough));
    }
}
