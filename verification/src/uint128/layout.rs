//! The shape all five operations share: a conditional jump over a first
//! block, and two paths through the code.

use crate::ap_change::{advances, ApChange};
use crate::instruction::{code_size, Instruction, InstructionBody, JumpTarget, StatementIdx};
use crate::invocation::CompiledView;
use vstd::prelude::*;

verus! {

/// The code branches in two at `test`: the instruction there is a
/// conditional jump over exactly the words from itself up to the
/// instruction at `target`, and the block it skips ends in the jump to
/// `next`. Where `target` is the length of the code, the jump lands right
/// behind it.
pub open spec fn branches_at(
    code: Seq<Instruction>,
    test: int,
    target: int,
    next: StatementIdx,
) -> bool {
    &&& 0 <= test < target - 1
    &&& target <= code.len()
    &&& code[test].body matches InstructionBody::Jump {
        condition: Some(_),
        target: JumpTarget::Relative(offset),
    } && offset.value() == code_size(code.subrange(test, target))
    &&& code[target - 1] == Instruction::jump_to(next)
}

/// The instructions that run when the jump at `test` is taken.
pub open spec fn taken_path(code: Seq<Instruction>, test: int, target: int) -> Seq<Instruction> {
    code.take(test + 1) + code.skip(target)
}

/// The instructions that run when the jump at `test` is not taken.
pub open spec fn fallthrough_path(code: Seq<Instruction>, target: int) -> Seq<Instruction> {
    code.take(target)
}

/// The operation is laid out as a branch at `test` over the code up to
/// `target`, and its two exits report the advances along the two paths: the
/// first those of the path that takes the jump, the second those of the
/// path that does not.
pub open spec fn laid_out(
    compiled: CompiledView,
    test: int,
    target: int,
    next: StatementIdx,
) -> bool {
    &&& branches_at(compiled.instructions, test, target, next)
    &&& compiled.results.len() == 2
    &&& compiled.results[0].ap_change == ApChange::Known(
        advances(taken_path(compiled.instructions, test, target)) as usize,
    )
    &&& compiled.results[1].ap_change == ApChange::Known(
        advances(fallthrough_path(compiled.instructions, target)) as usize,
    )
}

} // verus!
