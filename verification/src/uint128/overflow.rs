//! Addition and subtraction that report whether the result wrapped around.

use crate::ap_change::{advances, ApChange};
use crate::builder::CodeBuilder;
use crate::immediate::{lemma_small_value, Immediate};
use crate::instruction::{
    code_size, DerefOrImmediate, Hint, Instruction, ResOperand, StatementIdx,
};
use crate::invocation::{
    outcome_view, BranchChanges, BranchView, CompiledInvocation, CompiledView, InvocationError,
};
use crate::reference::{CellRef, ReferenceExpression};
use crate::relocation::RelocationEntry;
use crate::uint128::layout::{fallthrough_path, laid_out, taken_path};
use crate::uint128::{range_check, range_check_instruction};
use vstd::prelude::*;

verus! {

/// The hinted conditional jump of the two overflowing operations: the prover
/// says in `[ap - 1]` whether `[ap + 0]` is below `2^128`, and the jump skips
/// the `skip` words of the wrapping block if so.
pub open spec fn jump_unless_overflow(skip: u128) -> Instruction {
    Instruction::jump_nz(CellRef::ap(-1i16), Immediate::from_u128(skip)).advancing().hinted(
        Hint::TestLessThan {
            dst: CellRef::ap(-1i16),
            lhs: DerefOrImmediate::Deref(CellRef::ap(0)),
            rhs: DerefOrImmediate::Immediate(Immediate::uint128_limit()),
        },
    )
}

/// The two exits of an overflowing operation: the advanced range-check
/// pointer and the result, after two allocations where nothing wrapped and
/// after three where it did.
pub open spec fn overflow_results(range_check_ptr: CellRef) -> Seq<BranchView> {
    seq![
        BranchView {
            refs: seq![
                ReferenceExpression::DerefPlus(range_check_ptr.after_advance(2), 1),
                ReferenceExpression::Deref(CellRef::ap(-1i16)),
            ],
            ap_change: ApChange::Known(2),
        },
        BranchView {
            refs: seq![
                ReferenceExpression::DerefPlus(range_check_ptr.after_advance(3), 1),
                ReferenceExpression::Deref(CellRef::ap(-1i16)),
            ],
            ap_change: ApChange::Known(3),
        },
    ]
}

/// The code of the overflowing addition of `a` and `b`.
pub open spec fn overflow_add_code(
    range_check_ptr: CellRef,
    a: CellRef,
    b: CellRef,
    next: StatementIdx,
) -> Seq<Instruction> {
    seq![
        Instruction::assert_eq(
            CellRef::ap(1),
            ResOperand::Sum(a, DerefOrImmediate::Deref(b)),
        ).advancing(),
        jump_unless_overflow(7),
        Instruction::assert_eq(
            CellRef::ap(-1i16),
            ResOperand::Sum(
                CellRef::ap(0),
                DerefOrImmediate::Immediate(Immediate::uint128_limit()),
            ),
        ).advancing(),
        range_check(range_check_ptr.after_advance(3)),
        Instruction::jump_to(next),
        range_check(range_check_ptr.after_advance(2)),
    ]
}

/// What compiling the overflowing addition yields: on three inputs (the
/// range-check pointer, `a`, `b`) its code, the one relocation, and the two
/// exits; on any other number of inputs the error that says so.
pub open spec fn overflow_add_outcome(inputs: Seq<CellRef>, statement: StatementIdx) -> Result<
    CompiledView,
    InvocationError,
> {
    if inputs.len() != 3 {
        Err(InvocationError::WrongNumberOfArguments { expected: 3, actual: inputs.len() as usize })
    } else {
        Ok(
            CompiledView {
                instructions: overflow_add_code(inputs[0], inputs[1], inputs[2], statement.next()),
                relocations: seq![RelocationEntry::to_statement(4, statement.next())],
                results: overflow_results(inputs[0]),
            },
        )
    }
}

/// The code of the overflowing subtraction of `b` from `a`.
pub open spec fn overflow_sub_code(
    range_check_ptr: CellRef,
    a: CellRef,
    b: CellRef,
    next: StatementIdx,
) -> Seq<Instruction> {
    seq![
        Instruction::assert_eq(
            a,
            ResOperand::Sum(CellRef::ap(1), DerefOrImmediate::Deref(b)),
        ).advancing(),
        jump_unless_overflow(7),
        Instruction::assert_eq(
            CellRef::ap(0),
            ResOperand::Sum(
                CellRef::ap(-1i16),
                DerefOrImmediate::Immediate(Immediate::uint128_limit()),
            ),
        ).advancing(),
        range_check(range_check_ptr.after_advance(3)),
        Instruction::jump_to(next),
        range_check(range_check_ptr.after_advance(2)),
    ]
}

/// What compiling the overflowing subtraction yields: on three inputs (the
/// range-check pointer, `a`, `b`) its code, the one relocation, and the two
/// exits; on any other number of inputs the error that says so.
pub open spec fn overflow_sub_outcome(inputs: Seq<CellRef>, statement: StatementIdx) -> Result<
    CompiledView,
    InvocationError,
> {
    if inputs.len() != 3 {
        Err(InvocationError::WrongNumberOfArguments { expected: 3, actual: inputs.len() as usize })
    } else {
        Ok(
            CompiledView {
                instructions: overflow_sub_code(inputs[0], inputs[1], inputs[2], statement.next()),
                relocations: seq![RelocationEntry::to_statement(4, statement.next())],
                results: overflow_results(inputs[0]),
            },
        )
    }
}

/// Whether the code of an overflowing operation can be written down: the
/// next statement has an index, and the range-check pointer can be renamed
/// after three allocations.
pub open spec fn overflow_fits(inputs: Seq<CellRef>, statement: StatementIdx) -> bool {
    inputs.len() == 3 ==> statement.0 < usize::MAX && inputs[0].survives(3)
}

/// Compiles the overflowing addition at `statement`.
pub fn compile_overflow_add(inputs: &Vec<CellRef>, statement: StatementIdx) -> (outcome: Result<
    CompiledInvocation,
    InvocationError,
>)
    requires
        overflow_fits(inputs@, statement),
    ensures
        outcome_view(outcome) == overflow_add_outcome(inputs@, statement),
{
    if inputs.len() != 3 {
        return Err(
            InvocationError::WrongNumberOfArguments { expected: 3, actual: inputs.len() },
        );
    }
    let range_check_ptr = inputs[0];
    let a = inputs[1];
    let b = inputs[2];
    let sum = Instruction::assert_eq(
        CellRef::ap(1),
        ResOperand::Sum(a, DerefOrImmediate::Deref(b)),
    ).advancing();
    let wrap = Instruction::assert_eq(
        CellRef::ap(-1i16),
        ResOperand::Sum(
            CellRef::ap(0),
            DerefOrImmediate::Immediate(Immediate::uint128_limit()),
        ),
    ).advancing();
    Ok(finish_overflow(range_check_ptr, sum, wrap, statement.next()))
}

/// Compiles the overflowing subtraction at `statement`.
pub fn compile_overflow_sub(inputs: &Vec<CellRef>, statement: StatementIdx) -> (outcome: Result<
    CompiledInvocation,
    InvocationError,
>)
    requires
        overflow_fits(inputs@, statement),
    ensures
        outcome_view(outcome) == overflow_sub_outcome(inputs@, statement),
{
    if inputs.len() != 3 {
        return Err(
            InvocationError::WrongNumberOfArguments { expected: 3, actual: inputs.len() },
        );
    }
    let range_check_ptr = inputs[0];
    let a = inputs[1];
    let b = inputs[2];
    let difference = Instruction::assert_eq(
        a,
        ResOperand::Sum(CellRef::ap(1), DerefOrImmediate::Deref(b)),
    ).advancing();
    let wrap = Instruction::assert_eq(
        CellRef::ap(0),
        ResOperand::Sum(
            CellRef::ap(-1i16),
            DerefOrImmediate::Immediate(Immediate::uint128_limit()),
        ),
    ).advancing();
    Ok(finish_overflow(range_check_ptr, difference, wrap, statement.next()))
}

/// Lays out an overflowing operation around its two own instructions: the
/// one that computes and the one that wraps.
fn finish_overflow(
    range_check_ptr: CellRef,
    compute: Instruction,
    wrap: Instruction,
    next: StatementIdx,
) -> (compiled: CompiledInvocation)
    requires
        range_check_ptr.survives(3),
        compute.inc_ap,
        wrap.inc_ap,
        compute.statement_target() is None,
        wrap.statement_target() is None,
        wrap.body.size() == 2,
    ensures
        compiled@ == (CompiledView {
            instructions: seq![
                compute,
                jump_unless_overflow(7),
                wrap,
                range_check(range_check_ptr.after_advance(3)),
                Instruction::jump_to(next),
                range_check(range_check_ptr.after_advance(2)),
            ],
            relocations: seq![RelocationEntry::to_statement(4, next)],
            results: overflow_results(range_check_ptr),
        }),
{
    let wrapped = range_check_instruction(range_check_ptr.apply_ap_change(3));
    let leave = Instruction::jump_to(next);
    let plain = range_check_instruction(range_check_ptr.apply_ap_change(2));
    let jump_size: usize = 2;
    let skip = jump_size + wrap.body.op_size() + wrapped.body.op_size() + leave.body.op_size();
    let test = Instruction::jump_nz(
        CellRef::ap(-1i16),
        Immediate::from_u128(skip as u128),
    ).advancing().hinted(
        Hint::TestLessThan {
            dst: CellRef::ap(-1i16),
            lhs: DerefOrImmediate::Deref(CellRef::ap(0)),
            rhs: DerefOrImmediate::Immediate(Immediate::uint128_limit()),
        },
    );
    let mut code = CodeBuilder::new();
    code.push(compute);
    code.push(test);
    code.push(wrap);
    code.push(wrapped);
    code.push(leave);
    code.push(plain);
    let (instructions, relocations) = code.finish();
    let taken = vec![compute, test, plain];
    let fallthrough = vec![compute, test, wrap, wrapped, leave];
    proof {
        reveal_with_fuel(advances, 6);
        assert(advances(taken@) == 2);
        assert(advances(fallthrough@) == 3);
    }
    let (first, second) = overflow_branches(range_check_ptr, &taken, &fallthrough);
    let compiled = CompiledInvocation::two_way(instructions, relocations, first, second);
    proof {
        assert(compiled@.instructions =~= seq![
            compute,
            jump_unless_overflow(7),
            wrap,
            range_check(range_check_ptr.after_advance(3)),
            Instruction::jump_to(next),
            range_check(range_check_ptr.after_advance(2)),
        ]);
        assert(compiled@.relocations =~= seq![RelocationEntry::to_statement(4, next)]);
        assert(compiled@.results =~= overflow_results(range_check_ptr));
    }
    compiled
}

/// The two exits of an overflowing operation.
fn overflow_branches(
    range_check_ptr: CellRef,
    taken: &Vec<Instruction>,
    fallthrough: &Vec<Instruction>,
) -> (branches: (BranchChanges, BranchChanges))
    requires
        range_check_ptr.survives(3),
    ensures
        branches.0@ == (BranchView {
            refs: overflow_results(range_check_ptr)[0].refs,
            ap_change: ApChange::Known(advances(taken@) as usize),
        }),
        branches.1@ == (BranchView {
            refs: overflow_results(range_check_ptr)[1].refs,
            ap_change: ApChange::Known(advances(fallthrough@) as usize),
        }),
{
    let result = ReferenceExpression::Deref(CellRef::ap(-1i16));
    let first = BranchChanges::new(
        vec![ReferenceExpression::DerefPlus(range_check_ptr.apply_ap_change(2), 1), result],
        ApChange::of_run(taken),
    );
    let second = BranchChanges::new(
        vec![ReferenceExpression::DerefPlus(range_check_ptr.apply_ap_change(3), 1), result],
        ApChange::of_run(fallthrough),
    );
    (first, second)
}

/// There are two exits, both with a known advance, and the second has
/// advanced once more than the first.
pub open spec fn exit_advances_differ_by_one(results: Seq<BranchView>) -> bool {
    &&& results.len() == 2
    &&& results[0].ap_change is Known
    &&& results[1].ap_change is Known
    &&& results[1].ap_change->Known_0 == results[0].ap_change->Known_0 + 1
}

/// On the exit where the result wrapped, an overflowing operation has
/// advanced the allocation pointer exactly once more than on the exit where
/// it did not.
pub proof fn lemma_wrapping_costs_one_more(inputs: Seq<CellRef>, statement: StatementIdx)
    requires
        inputs.len() == 3,
    ensures
        overflow_add_outcome(inputs, statement) is Ok,
        overflow_sub_outcome(inputs, statement) is Ok,
        exit_advances_differ_by_one(overflow_add_outcome(inputs, statement)->Ok_0.results),
        exit_advances_differ_by_one(overflow_sub_outcome(inputs, statement)->Ok_0.results),
{
}

/// In the code of the two overflowing operations the jump stands second and
/// skips three instructions. Each exit reports as its advance the number of
/// advancing instructions on its path.
pub proof fn lemma_overflow_layout(inputs: Seq<CellRef>, statement: StatementIdx)
    requires
        inputs.len() == 3,
    ensures
        laid_out(overflow_add_outcome(inputs, statement)->Ok_0, 1, 5, statement.next()),
        laid_out(overflow_sub_outcome(inputs, statement)->Ok_0, 1, 5, statement.next()),
{
    let next = statement.next();
    lemma_small_value(7);
    lemma_paths_of_six(overflow_add_code(inputs[0], inputs[1], inputs[2], next));
    lemma_paths_of_six(overflow_sub_code(inputs[0], inputs[1], inputs[2], next));
}

/// The two paths and the skipped block of six instructions that branch at
/// the second of them over the three that follow.
proof fn lemma_paths_of_six(code: Seq<Instruction>)
    requires
        code.len() == 6,
    ensures
        advances(taken_path(code, 1, 5)) == code[0].advance() + code[1].advance()
            + code[5].advance(),
        advances(fallthrough_path(code, 5)) == code[0].advance() + code[1].advance()
            + code[2].advance() + code[3].advance() + code[4].advance(),
        code_size(code.subrange(1, 5)) == code[1].body.size() + code[2].body.size()
            + code[3].body.size() + code[4].body.size(),
{
    reveal_with_fuel(advances, 6);
    reveal_with_fuel(code_size, 5);
    assert(taken_path(code, 1, 5) =~= seq![code[0], code[1], code[5]]);
    assert(fallthrough_path(code, 5) =~= seq![code[0], code[1], code[2], code[3], code[4]]);
    assert(code.subrange(1, 5) =~= seq![code[1], code[2], code[3], code[4]]);
}

} // verus!
