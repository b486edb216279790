//! The instructions of the machine and the hints attached to them.

use crate::immediate::Immediate;
use crate::reference::CellRef;
use vstd::prelude::*;

verus! {

/// The position of a statement in the program being compiled.
#[derive(Clone, Copy, Debug, PartialEq, Eq, Hash)]
pub struct StatementIdx(pub usize);

/// An operand that is either read from a cell or written into the
/// instruction.
#[derive(Clone, Copy, Debug, PartialEq, Eq, Hash)]
pub enum DerefOrImmediate {
    Deref(CellRef),
    Immediate(Immediate),
}

/// The right-hand side of an equation.
#[derive(Clone, Copy, Debug, PartialEq, Eq, Hash)]
pub enum ResOperand {
    /// `[cell]`
    Deref(CellRef),
    /// `[[cell]]`: the content of the cell whose address `cell` holds.
    DoubleDeref(CellRef),
    /// A constant.
    Immediate(Immediate),
    /// `[cell] + operand`
    Sum(CellRef, DerefOrImmediate),
}

/// A value that the prover writes into `dst` before the instruction runs.
/// Nothing forces the written value to be the stated one: the instructions
/// that follow have to.
#[derive(Clone, Copy, Debug, PartialEq, Eq, Hash)]
pub enum Hint {
    /// `dst` is 1 if `lhs < rhs`, else 0.
    TestLessThan { dst: CellRef, lhs: DerefOrImmediate, rhs: DerefOrImmediate },
    /// `dst` is 1 if `lhs <= rhs`, else 0.
    TestLessThanOrEqual { dst: CellRef, lhs: DerefOrImmediate, rhs: DerefOrImmediate },
}

/// Where a jump goes.
#[derive(Clone, Copy, Debug, PartialEq, Eq, Hash)]
pub enum JumpTarget {
    /// So many memory words from the jump itself; it stays inside the
    /// compiled operation or lands right behind it.
    Relative(Immediate),
    /// The start of a statement, whose distance is not known yet. Until the
    /// program is laid out the instruction carries the offset zero.
    Statement(StatementIdx),
}

#[derive(Clone, Copy, Debug, PartialEq, Eq, Hash)]
pub enum InstructionBody {
    /// `dst = rhs`: execution fails unless both sides are equal; a side that
    /// is still unset is thereby set.
    AssertEq { dst: CellRef, rhs: ResOperand },
    /// `jmp target` or, with a condition, `jmp target if [condition] != 0`.
    Jump { condition: Option<CellRef>, target: JumpTarget },
}

/// One instruction: what it does, whether the allocation pointer advances by
/// one after it, and the hint that runs before it.
#[derive(Clone, Copy, Debug, PartialEq, Eq, Hash)]
pub struct Instruction {
    pub body: InstructionBody,
    pub inc_ap: bool,
    pub hint: Option<Hint>,
}

impl StatementIdx {
    /// The statement that follows this one.
    pub open spec fn spec_next(self) -> StatementIdx {
        StatementIdx((self.0 + 1) as usize)
    }

    #[verifier::when_used_as_spec(spec_next)]
    pub fn next(self) -> (following: StatementIdx)
        requires
            self.0 < usize::MAX,
        ensures
            following == self.spec_next(),
            following.0 == self.0 + 1,
    {
        StatementIdx(self.0 + 1)
    }
}

impl ResOperand {
    /// Whether a constant is written into the instruction.
    pub open spec fn holds_immediate(self) -> bool {
        match self {
            ResOperand::Immediate(_) => true,
            ResOperand::Sum(_, DerefOrImmediate::Immediate(_)) => true,
            _ => false,
        }
    }
}

impl InstructionBody {
    /// The number of memory words the instruction takes: one, and one more
    /// for a constant. A jump always carries its offset as a constant.
    pub open spec fn size(self) -> nat {
        match self {
            InstructionBody::AssertEq { dst, rhs } => if rhs.holds_immediate() {
                2
            } else {
                1
            },
            InstructionBody::Jump { .. } => 2,
        }
    }

    pub fn op_size(&self) -> (words: usize)
        ensures
            words == self.size(),
    {
        match self {
            InstructionBody::AssertEq { dst: _, rhs } => match rhs {
                ResOperand::Immediate(_) => 2,
                ResOperand::Sum(_, DerefOrImmediate::Immediate(_)) => 2,
                _ => 1,
            },
            InstructionBody::Jump { .. } => 2,
        }
    }
}

impl Instruction {
    /// `dst = rhs;`
    pub open spec fn spec_assert_eq(dst: CellRef, rhs: ResOperand) -> Instruction {
        Instruction { body: InstructionBody::AssertEq { dst, rhs }, inc_ap: false, hint: None }
    }

    /// `jmp rel offset;`
    pub open spec fn spec_jump_rel(offset: Immediate) -> Instruction {
        Instruction {
            body: InstructionBody::Jump { condition: None, target: JumpTarget::Relative(offset) },
            inc_ap: false,
            hint: None,
        }
    }

    /// `jmp rel offset if [condition] != 0;`
    pub open spec fn spec_jump_nz(condition: CellRef, offset: Immediate) -> Instruction {
        Instruction {
            body: InstructionBody::Jump {
                condition: Some(condition),
                target: JumpTarget::Relative(offset),
            },
            inc_ap: false,
            hint: None,
        }
    }

    /// The jump to the start of `statement`.
    pub open spec fn spec_jump_to(statement: StatementIdx) -> Instruction {
        Instruction {
            body: InstructionBody::Jump {
                condition: None,
                target: JumpTarget::Statement(statement),
            },
            inc_ap: false,
            hint: None,
        }
    }

    /// The same instruction followed by `ap++`.
    pub open spec fn spec_advancing(self) -> Instruction {
        Instruction { inc_ap: true, ..self }
    }

    /// The same instruction with `hint` run before it.
    pub open spec fn spec_hinted(self, hint: Hint) -> Instruction {
        Instruction { hint: Some(hint), ..self }
    }

    pub open spec fn is_jump(self) -> bool {
        self.body is Jump
    }

    /// The statement a jump goes to, for a jump that leaves the operation.
    pub open spec fn statement_target(self) -> Option<StatementIdx> {
        match self.body {
            InstructionBody::Jump { condition, target: JumpTarget::Statement(statement) } => Some(
                statement,
            ),
            _ => None,
        }
    }

    /// How far the instruction moves the allocation pointer.
    pub open spec fn advance(self) -> nat {
        if self.inc_ap {
            1
        } else {
            0
        }
    }

    #[verifier::when_used_as_spec(spec_assert_eq)]
    pub fn assert_eq(dst: CellRef, rhs: ResOperand) -> (instruction: Instruction)
        ensures
            instruction == Self::spec_assert_eq(dst, rhs),
    {
        Instruction { body: InstructionBody::AssertEq { dst, rhs }, inc_ap: false, hint: None }
    }

    #[verifier::when_used_as_spec(spec_jump_rel)]
    pub fn jump_rel(offset: Immediate) -> (instruction: Instruction)
        ensures
            instruction == Self::spec_jump_rel(offset),
    {
        Instruction {
            body: InstructionBody::Jump { condition: None, target: JumpTarget::Relative(offset) },
            inc_ap: false,
            hint: None,
        }
    }

    #[verifier::when_used_as_spec(spec_jump_nz)]
    pub fn jump_nz(condition: CellRef, offset: Immediate) -> (instruction: Instruction)
        ensures
            instruction == Self::spec_jump_nz(condition, offset),
    {
        Instruction {
            body: InstructionBody::Jump {
                condition: Some(condition),
                target: JumpTarget::Relative(offset),
            },
            inc_ap: false,
            hint: None,
        }
    }

    #[verifier::when_used_as_spec(spec_jump_to)]
    pub fn jump_to(statement: StatementIdx) -> (instruction: Instruction)
        ensures
            instruction == Self::spec_jump_to(statement),
    {
        Instruction {
            body: InstructionBody::Jump {
                condition: None,
                target: JumpTarget::Statement(statement),
            },
            inc_ap: false,
            hint: None,
        }
    }

    #[verifier::when_used_as_spec(spec_advancing)]
    pub fn advancing(self) -> (instruction: Instruction)
        ensures
            instruction == self.spec_advancing(),
    {
        Instruction { body: self.body, inc_ap: true, hint: self.hint }
    }

    #[verifier::when_used_as_spec(spec_hinted)]
    pub fn hinted(self, hint: Hint) -> (instruction: Instruction)
        ensures
            instruction == self.spec_hinted(hint),
    {
        Instruction { body: self.body, inc_ap: self.inc_ap, hint: Some(hint) }
    }

    /// The statement this jump goes to, if it is a jump out of the operation.
    pub fn leaves_to(&self) -> (statement: Option<StatementIdx>)
        ensures
            statement == self.statement_target(),
    {
        match self.body {
            InstructionBody::Jump { condition: _, target } => match target {
                JumpTarget::Statement(statement) => Some(statement),
                JumpTarget::Relative(_) => None,
            },
            _ => None,
        }
    }
}

/// The number of memory words a run of instructions takes.
pub open spec fn code_size(code: Seq<Instruction>) -> nat
    decreases code.len(),
{
    if code.len() == 0 {
        0
    } else {
        code_size(code.drop_last()) + code.last().body.size()
    }
}

} // verus!
