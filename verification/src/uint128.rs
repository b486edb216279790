//! The five primitives on 128-bit unsigned integers.
//!
//! Each has two exits. Its code starts with a conditional jump that skips
//! the first block; the exit that the jump leads to is listed first. The
//! block that is skipped ends in a jump to the statement after the
//! operation, which the assembler of the whole program resolves; the other
//! block runs off the end of the code.
//!
//! The inputs name cells as seen before the first instruction. A cell based
//! on the allocation pointer is renamed wherever it is used after the
//! pointer has advanced.

pub mod comparison;
pub mod equality;
pub mod layout;
pub mod overflow;

use crate::instruction::{Instruction, ResOperand, StatementIdx};
use crate::reference::CellRef;
use crate::relocation::{relocations_match, RelocationEntry};
use crate::uint128::comparison::{le_code, lt_code};
use crate::uint128::equality::eq_code;
use crate::uint128::overflow::{overflow_add_code, overflow_sub_code};
use vstd::prelude::*;

verus! {

/// `[ap - 1] = [[pointer]];`: the value just computed is written to the cell
/// that the range-check pointer points at, which bounds it by `2^128`.
pub open spec fn range_check(pointer: CellRef) -> Instruction {
    Instruction::assert_eq(CellRef::ap(-1i16), ResOperand::DoubleDeref(pointer))
}

/// `[ap - 1] = [[pointer]];`
pub(crate) fn range_check_instruction(pointer: CellRef) -> (instruction: Instruction)
    ensures
        instruction == range_check(pointer),
{
    Instruction::assert_eq(CellRef::ap(-1i16), ResOperand::DoubleDeref(pointer))
}

/// The relocation table of each of the five operations matches its code:
/// the one jump to the next statement has the one entry, which points at it.
pub proof fn lemma_relocations_match_code(
    range_check_ptr: CellRef,
    a: CellRef,
    b: CellRef,
    next: StatementIdx,
)
    ensures
        relocations_match(
            overflow_add_code(range_check_ptr, a, b, next),
            seq![RelocationEntry::to_statement(4, next)],
        ),
        relocations_match(
            overflow_sub_code(range_check_ptr, a, b, next),
            seq![RelocationEntry::to_statement(4, next)],
        ),
        relocations_match(eq_code(a, b, next), seq![RelocationEntry::to_statement(2, next)]),
        relocations_match(
            lt_code(range_check_ptr, a, b, next),
            seq![RelocationEntry::to_statement(4, next)],
        ),
        relocations_match(
            le_code(range_check_ptr, a, b, next),
            seq![RelocationEntry::to_statement(3, next)],
        ),
{
    let entry_at_4 = seq![RelocationEntry::to_statement(4, next)];
    let entry_at_3 = seq![RelocationEntry::to_statement(3, next)];
    let entry_at_2 = seq![RelocationEntry::to_statement(2, next)];
    assert(entry_at_4[0].instruction_idx == 4);
    assert(entry_at_3[0].instruction_idx == 3);
    assert(entry_at_2[0].instruction_idx == 2);
}

} // verus!
