//! Jumps whose targets are statements, and the table that lists them for the
//! assembler of the whole program.

use crate::instruction::{Instruction, StatementIdx};
use vstd::prelude::*;

verus! {

/// What the assembler has to write into an instruction.
#[derive(Clone, Copy, Debug, PartialEq, Eq, Hash)]
pub enum Relocation {
    /// The distance from the instruction to the start of the statement.
    RelativeStatementId(StatementIdx),
}

/// The instruction at `instruction_idx` awaits `relocation`.
#[derive(Clone, Copy, Debug, PartialEq, Eq, Hash)]
pub struct RelocationEntry {
    pub instruction_idx: usize,
    pub relocation: Relocation,
}

/// The entries of one compiled operation, in the order in which they were
/// added.
#[derive(Clone, Debug, PartialEq, Eq)]
pub struct RelocationTable {
    pub entries: Vec<RelocationEntry>,
}

impl Relocation {
    /// The statement the relocation names.
    pub open spec fn statement(self) -> StatementIdx {
        match self {
            Relocation::RelativeStatementId(statement) => statement,
        }
    }
}

impl RelocationEntry {
    /// The entry that sends the instruction at `instruction_idx` to
    /// `statement`.
    pub open spec fn to_statement(
        instruction_idx: usize,
        statement: StatementIdx,
    ) -> RelocationEntry {
        RelocationEntry { instruction_idx, relocation: Relocation::RelativeStatementId(statement) }
    }
}

impl View for RelocationTable {
    type V = Seq<RelocationEntry>;

    open spec fn view(&self) -> Seq<RelocationEntry> {
        self.entries@
    }
}

impl RelocationTable {
    /// The table without entries.
    pub fn new() -> (table: RelocationTable)
        ensures
            table@ == Seq::<RelocationEntry>::empty(),
    {
        RelocationTable { entries: Vec::new() }
    }

    /// Appends the entry for the jump at `instruction_idx` to `statement`.
    /// Earlier entries keep their places.
    pub fn add(&mut self, instruction_idx: usize, statement: StatementIdx)
        ensures
            final(self)@ == old(self)@.push(
                RelocationEntry::to_statement(instruction_idx, statement),
            ),
    {
        self.entries.push(
            RelocationEntry {
                instruction_idx,
                relocation: Relocation::RelativeStatementId(statement),
            },
        );
    }
}

/// Every entry points at a jump to the statement it names.
pub open spec fn entries_point_at_jumps(
    code: Seq<Instruction>,
    relocations: Seq<RelocationEntry>,
) -> bool {
    forall|k: int|
        0 <= k < relocations.len() ==> {
            &&& (#[trigger] relocations[k]).instruction_idx < code.len()
            &&& code[relocations[k].instruction_idx as int].is_jump()
            &&& code[relocations[k].instruction_idx as int].statement_target() == Some(
                relocations[k].relocation.statement(),
            )
        }
}

/// Every jump to a statement has an entry.
pub open spec fn jumps_have_entries(
    code: Seq<Instruction>,
    relocations: Seq<RelocationEntry>,
) -> bool {
    forall|i: int|
        0 <= i < code.len() && (#[trigger] code[i]).statement_target() is Some ==> exists|k: int|
            0 <= k < relocations.len() && (#[trigger] relocations[k]).instruction_idx == i
}

/// The entries come in the order of the instructions they point at, and no
/// two of them point at the same one.
pub open spec fn entries_in_code_order(relocations: Seq<RelocationEntry>) -> bool {
    forall|j: int, k: int|
        0 <= j < k < relocations.len() ==> (#[trigger] relocations[j]).instruction_idx < (
        #[trigger] relocations[k]).instruction_idx
}

/// The table `relocations` is the right one for `code`: each jump to a
/// statement has exactly one entry, each entry points at such a jump and
/// names its statement, and the entries follow the order of the code.
pub open spec fn relocations_match(
    code: Seq<Instruction>,
    relocations: Seq<RelocationEntry>,
) -> bool {
    &&& entries_point_at_jumps(code, relocations)
    &&& jumps_have_entries(code, relocations)
    &&& entries_in_code_order(relocations)
}

/// In a matching table no instruction has two entries.
pub proof fn lemma_entry_is_unique(
    code: Seq<Instruction>,
    relocations: Seq<RelocationEntry>,
    j: int,
    k: int,
)
    requires
        relocations_match(code, relocations),
        0 <= j < relocations.len(),
        0 <= k < relocations.len(),
        relocations[j].instruction_idx == relocations[k].instruction_idx,
    ensures
        j == k,
{
}

} // verus!
