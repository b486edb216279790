//! The test whether two values are equal.

use crate::ap_change::{advances, ApChange};
use crate::builder::CodeBuilder;
use crate::immediate::{lemma_small_value, Immediate};
use crate::instruction::{code_size, DerefOrImmediate, Instruction, ResOperand, StatementIdx};
use crate::invocation::{
    outcome_view, BranchChanges, BranchView, CompiledInvocation, CompiledView, InvocationError,
};
use crate::reference::CellRef;
use crate::relocation::RelocationEntry;
use crate::uint128::layout::{fallthrough_path, laid_out, taken_path};
use vstd::prelude::*;

verus! {

/// The code of the equality test of `a` and `b`: their difference goes to a
/// fresh cell, and the jump, which lands right behind the code, is taken
/// when it is not zero.
pub open spec fn eq_code(a: CellRef, b: CellRef, next: StatementIdx) -> Seq<Instruction> {
    seq![
        Instruction::assert_eq(
            a,
            ResOperand::Sum(CellRef::ap(0), DerefOrImmediate::Deref(b)),
        ).advancing(),
        Instruction::jump_nz(CellRef::ap(-1i16), Immediate::from_u128(4)),
        Instruction::jump_to(next),
    ]
}

/// The two exits of the equality test: no outputs, one allocation.
pub open spec fn eq_results() -> Seq<BranchView> {
    seq![
        BranchView { refs: Seq::empty(), ap_change: ApChange::Known(1) },
        BranchView { refs: Seq::empty(), ap_change: ApChange::Known(1) },
    ]
}

/// What compiling the equality test yields: on two inputs (`a`, `b`) its
/// code, the one relocation, and the two exits; on any other number of
/// inputs the error that says so.
pub open spec fn eq_outcome(inputs: Seq<CellRef>, statement: StatementIdx) -> Result<
    CompiledView,
    InvocationError,
> {
    if inputs.len() != 2 {
        Err(InvocationError::WrongNumberOfArguments { expected: 2, actual: inputs.len() as usize })
    } else {
        Ok(
            CompiledView {
                instructions: eq_code(inputs[0], inputs[1], statement.next()),
                relocations: seq![RelocationEntry::to_statement(2, statement.next())],
                results: eq_results(),
            },
        )
    }
}

/// Whether the code of the equality test can be written down: the next
/// statement has an index.
pub open spec fn eq_fits(inputs: Seq<CellRef>, statement: StatementIdx) -> bool {
    inputs.len() == 2 ==> statement.0 < usize::MAX
}

/// Compiles the equality test at `statement`.
pub fn compile_eq(inputs: &Vec<CellRef>, statement: StatementIdx) -> (outcome: Result<
    CompiledInvocation,
    InvocationError,
>)
    requires
        eq_fits(inputs@, statement),
    ensures
        outcome_view(outcome) == eq_outcome(inputs@, statement),
{
    if inputs.len() != 2 {
        return Err(
            InvocationError::WrongNumberOfArguments { expected: 2, actual: inputs.len() },
        );
    }
    let a = inputs[0];
    let b = inputs[1];
    let difference = Instruction::assert_eq(
        a,
        ResOperand::Sum(CellRef::ap(0), DerefOrImmediate::Deref(b)),
    ).advancing();
    let leave = Instruction::jump_to(statement.next());
    let jump_size: usize = 2;
    let skip = jump_size + leave.body.op_size();
    let test = Instruction::jump_nz(CellRef::ap(-1i16), Immediate::from_u128(skip as u128));
    let mut code = CodeBuilder::new();
    code.push(difference);
    code.push(test);
    code.push(leave);
    let (instructions, relocations) = code.finish();
    let taken = vec![difference, test];
    let fallthrough = vec![difference, test, leave];
    proof {
        reveal_with_fuel(advances, 4);
        assert(advances(taken@) == 1);
        assert(advances(fallthrough@) == 1);
    }
    let first = BranchChanges::new(Vec::new(), ApChange::of_run(&taken));
    let second = BranchChanges::new(Vec::new(), ApChange::of_run(&fallthrough));
    let compiled = CompiledInvocation::two_way(instructions, relocations, first, second);
    proof {
        assert(compiled@.instructions =~= eq_code(a, b, statement.next()));
        assert(compiled@.relocations =~= seq![RelocationEntry::to_statement(2, statement.next())]);
        assert(compiled@.results =~= eq_results());
    }
    Ok(compiled)
}

/// Whatever cells are compared, both exits of the equality test have no
/// output and have advanced the allocation pointer once.
pub proof fn lemma_eq_exits(inputs: Seq<CellRef>, statement: StatementIdx)
    requires
        inputs.len() == 2,
    ensures
        eq_outcome(inputs, statement) is Ok,
        ({
            let results = eq_outcome(inputs, statement)->Ok_0.results;
            &&& results.len() == 2
            &&& results[0].refs.len() == 0
            &&& results[1].refs.len() == 0
            &&& results[0].ap_change == ApChange::Known(1)
            &&& results[1].ap_change == ApChange::Known(1)
        }),
{
}

/// In the code of the equality test the jump stands second and skips the
/// one jump to the next statement, so it lands right behind the code. Each
/// exit reports as its advance the number of advancing instructions on its
/// path.
pub proof fn lemma_eq_layout(inputs: Seq<CellRef>, statement: StatementIdx)
    requires
        inputs.len() == 2,
    ensures
        laid_out(eq_outcome(inputs, statement)->Ok_0, 1, 3, statement.next()),
{
    let code = eq_code(inputs[0], inputs[1], statement.next());
    reveal_with_fuel(advances, 4);
    reveal_with_fuel(code_size, 3);
    lemma_small_value(4);
    assert(taken_path(code, 1, 3) =~= seq![code[0], code[1]]);
    assert(fallthrough_path(code, 3) =~= seq![code[0], code[1], code[2]]);
    assert(code.subrange(1, 3) =~= seq![code[1], code[2]]);
}

} // verus!
