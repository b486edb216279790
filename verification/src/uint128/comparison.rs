//! The tests `a < b` and `a <= b`.

use crate::ap_change::{advances, ApChange};
use crate::builder::CodeBuilder;
use crate::immediate::{lemma_small_value, Immediate};
use crate::instruction::{
    code_size, DerefOrImmediate, Hint, Instruction, ResOperand, StatementIdx,
};
use crate::invocation::{
    outcome_view, BranchChanges, BranchView, CompiledInvocation, CompiledView, InvocationError,
};
use crate::reference::{CellRef, ReferenceExpression};
use crate::relocation::RelocationEntry;
use crate::uint128::layout::{fallthrough_path, laid_out, taken_path};
use crate::uint128::{range_check, range_check_instruction};
use vstd::prelude::*;

verus! {

/// The hinted conditional jump of a comparison: the prover says in
/// `[ap + 0]` how the operands compare, and the jump skips `skip` words if it
/// says one.
pub open spec fn jump_if(hint: Hint, skip: u128) -> Instruction {
    Instruction::jump_nz(CellRef::ap(0), Immediate::from_u128(skip)).advancing().hinted(hint)
}

/// `[ap + 0] = [cell] + 1, ap++;`
pub open spec fn successor_of(cell: CellRef) -> Instruction {
    Instruction::assert_eq(
        CellRef::ap(0),
        ResOperand::Sum(cell, DerefOrImmediate::Immediate(Immediate::from_u128(1))),
    ).advancing()
}

/// `[larger] = [ap + 0] + [smaller], ap++;`: the fresh cell takes the
/// difference, which the range check that follows shows not to be negative.
pub open spec fn difference_of(larger: CellRef, smaller: CellRef) -> Instruction {
    Instruction::assert_eq(
        larger,
        ResOperand::Sum(CellRef::ap(0), DerefOrImmediate::Deref(smaller)),
    ).advancing()
}

/// One exit of a comparison: its one output is the advanced range-check
/// pointer, named as it is after `advance` allocations.
pub open spec fn comparison_exit(range_check_ptr: CellRef, advance: nat) -> BranchView {
    BranchView {
        refs: seq![ReferenceExpression::DerefPlus(range_check_ptr.after_advance(advance), 1)],
        ap_change: ApChange::Known(advance as usize),
    }
}

/// The two exits of a comparison, after so many allocations on the exit the
/// jump leads to and so many on the other.
pub open spec fn comparison_results(
    range_check_ptr: CellRef,
    taken: nat,
    fallthrough: nat,
) -> Seq<BranchView> {
    seq![
        comparison_exit(range_check_ptr, taken),
        comparison_exit(range_check_ptr, fallthrough),
    ]
}

/// The code of the test `a < b`. The prover says whether `b <= a`. If it
/// says no, `b` is shown to be at least `a + 1`; if yes, `a` is shown to be
/// at least `b`.
pub open spec fn lt_code(
    range_check_ptr: CellRef,
    a: CellRef,
    b: CellRef,
    next: StatementIdx,
) -> Seq<Instruction> {
    seq![
        jump_if(
            Hint::TestLessThanOrEqual {
                dst: CellRef::ap(0),
                lhs: DerefOrImmediate::Deref(b),
                rhs: DerefOrImmediate::Deref(a),
            },
            8,
        ),
        successor_of(a.after_advance(1)),
        difference_of(b.after_advance(2), CellRef::ap(-1i16)),
        range_check(range_check_ptr.after_advance(3)),
        Instruction::jump_to(next),
        difference_of(a.after_advance(1), b.after_advance(1)),
        range_check(range_check_ptr.after_advance(2)),
    ]
}

/// What compiling the test `a < b` yields: on three inputs (the range-check
/// pointer, `a`, `b`) its code, the one relocation, and the two exits; on
/// any other number of inputs the error that says so.
pub open spec fn lt_outcome(inputs: Seq<CellRef>, statement: StatementIdx) -> Result<
    CompiledView,
    InvocationError,
> {
    if inputs.len() != 3 {
        Err(InvocationError::WrongNumberOfArguments { expected: 3, actual: inputs.len() as usize })
    } else {
        Ok(
            CompiledView {
                instructions: lt_code(inputs[0], inputs[1], inputs[2], statement.next()),
                relocations: seq![RelocationEntry::to_statement(4, statement.next())],
                results: comparison_results(inputs[0], 2, 3),
            },
        )
    }
}

/// Whether the code of `a < b` can be written down: the next statement has
/// an index, and the inputs can be renamed as far as the code needs.
pub open spec fn lt_fits(inputs: Seq<CellRef>, statement: StatementIdx) -> bool {
    inputs.len() == 3 ==> {
        &&& statement.0 < usize::MAX
        &&& inputs[0].survives(3)
        &&& inputs[1].survives(1)
        &&& inputs[2].survives(2)
    }
}

/// The code of the test `a <= b`. The prover says whether `b < a`. If it
/// says no, `b` is shown to be at least `a`; if yes, `a` is shown to be at
/// least `b + 1`.
pub open spec fn le_code(
    range_check_ptr: CellRef,
    a: CellRef,
    b: CellRef,
    next: StatementIdx,
) -> Seq<Instruction> {
    seq![
        jump_if(
            Hint::TestLessThan {
                dst: CellRef::ap(0),
                lhs: DerefOrImmediate::Deref(b),
                rhs: DerefOrImmediate::Deref(a),
            },
            6,
        ),
        difference_of(b.after_advance(1), a.after_advance(1)),
        range_check(range_check_ptr.after_advance(2)),
        Instruction::jump_to(next),
        successor_of(b.after_advance(1)),
        difference_of(a.after_advance(2), CellRef::ap(-1i16)),
        range_check(range_check_ptr.after_advance(3)),
    ]
}

/// What compiling the test `a <= b` yields: on three inputs (the range-check
/// pointer, `a`, `b`) its code, the one relocation, and the two exits; on
/// any other number of inputs the error that says so.
pub open spec fn le_outcome(inputs: Seq<CellRef>, statement: StatementIdx) -> Result<
    CompiledView,
    InvocationError,
> {
    if inputs.len() != 3 {
        Err(InvocationError::WrongNumberOfArguments { expected: 3, actual: inputs.len() as usize })
    } else {
        Ok(
            CompiledView {
                instructions: le_code(inputs[0], inputs[1], inputs[2], statement.next()),
                relocations: seq![RelocationEntry::to_statement(3, statement.next())],
                results: comparison_results(inputs[0], 3, 2),
            },
        )
    }
}

/// Whether the code of `a <= b` can be written down: the next statement has
/// an index, and the inputs can be renamed as far as the code needs.
pub open spec fn le_fits(inputs: Seq<CellRef>, statement: StatementIdx) -> bool {
    inputs.len() == 3 ==> {
        &&& statement.0 < usize::MAX
        &&& inputs[0].survives(3)
        &&& inputs[1].survives(2)
        &&& inputs[2].survives(1)
    }
}

/// Compiles the test `a < b` at `statement`.
pub fn compile_lt(inputs: &Vec<CellRef>, statement: StatementIdx) -> (outcome: Result<
    CompiledInvocation,
    InvocationError,
>)
    requires
        lt_fits(inputs@, statement),
    ensures
        outcome_view(outcome) == lt_outcome(inputs@, statement),
{
    if inputs.len() != 3 {
        return Err(
            InvocationError::WrongNumberOfArguments { expected: 3, actual: inputs.len() },
        );
    }
    let range_check_ptr = inputs[0];
    let a = inputs[1];
    let b = inputs[2];
    let next = statement.next();
    let successor = successor_instruction(a.apply_ap_change(1));
    let above = difference_instruction(b.apply_ap_change(2), CellRef::ap(-1i16));
    let above_checked = range_check_instruction(range_check_ptr.apply_ap_change(3));
    let leave = Instruction::jump_to(next);
    let below = difference_instruction(a.apply_ap_change(1), b.apply_ap_change(1));
    let below_checked = range_check_instruction(range_check_ptr.apply_ap_change(2));
    let jump_size: usize = 2;
    let skip = jump_size + successor.body.op_size() + above.body.op_size()
        + above_checked.body.op_size() + leave.body.op_size();
    let test = Instruction::jump_nz(
        CellRef::ap(0),
        Immediate::from_u128(skip as u128),
    ).advancing().hinted(
        Hint::TestLessThanOrEqual {
            dst: CellRef::ap(0),
            lhs: DerefOrImmediate::Deref(b),
            rhs: DerefOrImmediate::Deref(a),
        },
    );
    let mut code = CodeBuilder::new();
    code.push(test);
    code.push(successor);
    code.push(above);
    code.push(above_checked);
    code.push(leave);
    code.push(below);
    code.push(below_checked);
    let (instructions, relocations) = code.finish();
    let taken = vec![test, below, below_checked];
    let fallthrough = vec![test, successor, above, above_checked, leave];
    proof {
        reveal_with_fuel(advances, 6);
        assert(advances(taken@) == 2);
        assert(advances(fallthrough@) == 3);
    }
    let first = comparison_branch(range_check_ptr, 2, &taken);
    let second = comparison_branch(range_check_ptr, 3, &fallthrough);
    let compiled = CompiledInvocation::two_way(instructions, relocations, first, second);
    proof {
        assert(compiled@.instructions =~= lt_code(range_check_ptr, a, b, next));
        assert(compiled@.relocations =~= seq![RelocationEntry::to_statement(4, next)]);
        assert(compiled@.results =~= comparison_results(range_check_ptr, 2, 3));
    }
    Ok(compiled)
}

/// Compiles the test `a <= b` at `statement`.
pub fn compile_le(inputs: &Vec<CellRef>, statement: StatementIdx) -> (outcome: Result<
    CompiledInvocation,
    InvocationError,
>)
    requires
        le_fits(inputs@, statement),
    ensures
        outcome_view(outcome) == le_outcome(inputs@, statement),
{
    if inputs.len() != 3 {
        return Err(
            InvocationError::WrongNumberOfArguments { expected: 3, actual: inputs.len() },
        );
    }
    let range_check_ptr = inputs[0];
    let a = inputs[1];
    let b = inputs[2];
    let next = statement.next();
    let above = difference_instruction(b.apply_ap_change(1), a.apply_ap_change(1));
    let above_checked = range_check_instruction(range_check_ptr.apply_ap_change(2));
    let leave = Instruction::jump_to(next);
    let successor = successor_instruction(b.apply_ap_change(1));
    let below = difference_instruction(a.apply_ap_change(2), CellRef::ap(-1i16));
    let below_checked = range_check_instruction(range_check_ptr.apply_ap_change(3));
    let jump_size: usize = 2;
    let skip = jump_size + above.body.op_size() + above_checked.body.op_size()
        + leave.body.op_size();
    let test = Instruction::jump_nz(
        CellRef::ap(0),
        Immediate::from_u128(skip as u128),
    ).advancing().hinted(
        Hint::TestLessThan {
            dst: CellRef::ap(0),
            lhs: DerefOrImmediate::Deref(b),
            rhs: DerefOrImmediate::Deref(a),
        },
    );
    let mut code = CodeBuilder::new();
    code.push(test);
    code.push(above);
    code.push(above_checked);
    code.push(leave);
    code.push(successor);
    code.push(below);
    code.push(below_checked);
    let (instructions, relocations) = code.finish();
    let taken = vec![test, successor, below, below_checked];
    let fallthrough = vec![test, above, above_checked, leave];
    proof {
        reveal_with_fuel(advances, 6);
        assert(advances(taken@) == 3);
        assert(advances(fallthrough@) == 2);
    }
    let first = comparison_branch(range_check_ptr, 3, &taken);
    let second = comparison_branch(range_check_ptr, 2, &fallthrough);
    let compiled = CompiledInvocation::two_way(instructions, relocations, first, second);
    proof {
        assert(compiled@.instructions =~= le_code(range_check_ptr, a, b, next));
        assert(compiled@.relocations =~= seq![RelocationEntry::to_statement(3, next)]);
        assert(compiled@.results =~= comparison_results(range_check_ptr, 3, 2));
    }
    Ok(compiled)
}

/// The exit of a comparison that is reached along `run`.
fn comparison_branch(range_check_ptr: CellRef, advance: u16, run: &Vec<Instruction>) -> (branch:
    BranchChanges)
    requires
        range_check_ptr.survives(advance as nat),
        advances(run@) == advance,
    ensures
        branch@ == comparison_exit(range_check_ptr, advance as nat),
{
    let refs = vec![ReferenceExpression::DerefPlus(range_check_ptr.apply_ap_change(advance), 1)];
    proof {
        assert(refs@ =~= comparison_exit(range_check_ptr, advance as nat).refs);
    }
    BranchChanges::new(refs, ApChange::of_run(run))
}

/// `[ap + 0] = [cell] + 1, ap++;`
fn successor_instruction(cell: CellRef) -> (instruction: Instruction)
    ensures
        instruction == successor_of(cell),
{
    Instruction::assert_eq(
        CellRef::ap(0),
        ResOperand::Sum(cell, DerefOrImmediate::Immediate(Immediate::from_u128(1))),
    ).advancing()
}

/// `[larger] = [ap + 0] + [smaller], ap++;`
fn difference_instruction(larger: CellRef, smaller: CellRef) -> (instruction: Instruction)
    ensures
        instruction == difference_of(larger, smaller),
{
    Instruction::assert_eq(
        larger,
        ResOperand::Sum(CellRef::ap(0), DerefOrImmediate::Deref(smaller)),
    ).advancing()
}

/// There are two exits, both with a known advance: one of two and one of
/// three, so five in all.
pub open spec fn exit_advances_are_two_and_three(results: Seq<BranchView>) -> bool {
    &&& results.len() == 2
    &&& results[0].ap_change is Known
    &&& results[1].ap_change is Known
    &&& results[0].ap_change->Known_0 + results[1].ap_change->Known_0 == 5
    &&& {
        ||| results[0].ap_change->Known_0 == 2 && results[1].ap_change->Known_0 == 3
        ||| results[0].ap_change->Known_0 == 3 && results[1].ap_change->Known_0 == 2
    }
}

/// The two exits of a comparison have advanced the allocation pointer twice
/// and three times, in one order or the other, which makes five together.
pub proof fn lemma_comparison_advances(inputs: Seq<CellRef>, statement: StatementIdx)
    requires
        inputs.len() == 3,
    ensures
        lt_outcome(inputs, statement) is Ok,
        le_outcome(inputs, statement) is Ok,
        exit_advances_are_two_and_three(lt_outcome(inputs, statement)->Ok_0.results),
        exit_advances_are_two_and_three(le_outcome(inputs, statement)->Ok_0.results),
{
}

/// In the code of the two comparisons the jump stands first; it skips four
/// instructions in `a < b` and three in `a <= b`. Each exit reports as its
/// advance the number of advancing instructions on its path.
pub proof fn lemma_comparison_layout(inputs: Seq<CellRef>, statement: StatementIdx)
    requires
        inputs.len() == 3,
    ensures
        laid_out(lt_outcome(inputs, statement)->Ok_0, 0, 5, statement.next()),
        laid_out(le_outcome(inputs, statement)->Ok_0, 0, 4, statement.next()),
{
    let next = statement.next();
    reveal_with_fuel(advances, 6);
    reveal_with_fuel(code_size, 6);
    lemma_small_value(8);
    lemma_small_value(6);
    let lt = lt_code(inputs[0], inputs[1], inputs[2], next);
    assert(taken_path(lt, 0, 5) =~= seq![lt[0], lt[5], lt[6]]);
    assert(fallthrough_path(lt, 5) =~= seq![lt[0], lt[1], lt[2], lt[3], lt[4]]);
    assert(lt.subrange(0, 5) =~= seq![lt[0], lt[1], lt[2], lt[3], lt[4]]);
    let le = le_code(inputs[0], inputs[1], inputs[2], next);
    assert(taken_path(le, 0, 4) =~= seq![le[0], le[4], le[5], le[6]]);
    assert(fallthrough_path(le, 4) =~= seq![le[0], le[1], le[2], le[3]]);
    assert(le.subrange(0, 4) =~= seq![le[0], le[1], le[2], le[3]]);
}

} // verus!
