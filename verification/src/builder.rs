//! Building the code of one operation, instruction by instruction, together
//! with its relocation table.

use crate::instruction::Instruction;
use crate::relocation::{
    entries_in_code_order, entries_point_at_jumps, jumps_have_entries, relocations_match,
    RelocationEntry, RelocationTable,
};
use vstd::prelude::*;

verus! {

/// Code under construction. Instructions are only ever appended, and a jump
/// to a statement is entered into the table as it is appended, so the table
/// matches the code at every moment.
pub struct CodeBuilder {
    instructions: Vec<Instruction>,
    relocations: RelocationTable,
}

impl CodeBuilder {
    /// The instructions appended so far.
    pub closed spec fn code(&self) -> Seq<Instruction> {
        self.instructions@
    }

    /// The relocation entries made so far.
    pub closed spec fn table(&self) -> Seq<RelocationEntry> {
        self.relocations@
    }

    /// The table matches the code.
    pub open spec fn wf(&self) -> bool {
        relocations_match(self.code(), self.table())
    }

    /// What the table becomes when `instruction` is appended at `at`.
    pub open spec fn table_with(
        table: Seq<RelocationEntry>,
        at: nat,
        instruction: Instruction,
    ) -> Seq<RelocationEntry> {
        match instruction.statement_target() {
            Some(statement) => table.push(RelocationEntry::to_statement(at as usize, statement)),
            None => table,
        }
    }

    /// The builder that holds no code.
    pub fn new() -> (builder: CodeBuilder)
        ensures
            builder.wf(),
            builder.code() == Seq::<Instruction>::empty(),
            builder.table() == Seq::<RelocationEntry>::empty(),
    {
        CodeBuilder { instructions: Vec::new(), relocations: RelocationTable::new() }
    }

    /// Appends `instruction`; when it jumps to a statement, its entry is
    /// appended to the table.
    pub fn push(&mut self, instruction: Instruction)
        requires
            old(self).wf(),
        ensures
            final(self).wf(),
            final(self).code() == old(self).code().push(instruction),
            final(self).table() == Self::table_with(
                old(self).table(),
                old(self).code().len(),
                instruction,
            ),
    {
        let at = self.instructions.len();
        let ghost code = self.instructions@;
        let ghost table = self.relocations@;
        match instruction.leaves_to() {
            Some(statement) => {
                self.relocations.add(at, statement);
            },
            None => {},
        }
        self.instructions.push(instruction);
        proof {
            lemma_push_keeps_match(code, table, instruction);
        }
    }

    /// Hands out the code and its table.
    pub fn finish(self) -> (parts: (Vec<Instruction>, Vec<RelocationEntry>))
        requires
            self.wf(),
        ensures
            parts.0@ == self.code(),
            parts.1@ == self.table(),
            relocations_match(parts.0@, parts.1@),
    {
        (self.instructions, self.relocations.entries)
    }
}

/// Appending an instruction, and its entry if it jumps to a statement, to
/// code with a matching table gives code with a matching table.
pub proof fn lemma_push_keeps_match(
    code: Seq<Instruction>,
    table: Seq<RelocationEntry>,
    instruction: Instruction,
)
    requires
        relocations_match(code, table),
        code.len() <= usize::MAX,
    ensures
        relocations_match(
            code.push(instruction),
            CodeBuilder::table_with(table, code.len(), instruction),
        ),
{
    let longer = code.push(instruction);
    let entries = CodeBuilder::table_with(table, code.len(), instruction);
    assert forall|k: int| 0 <= k < entries.len() implies {
        &&& (#[trigger] entries[k]).instruction_idx < longer.len()
        &&& longer[entries[k].instruction_idx as int].is_jump()
        &&& longer[entries[k].instruction_idx as int].statement_target() == Some(
            entries[k].relocation.statement(),
        )
    } by {
        if k < table.len() {
            assert(entries[k] == table[k]);
        }
    }
    assert forall|i: int|
        0 <= i < longer.len() && (#[trigger] longer[i]).statement_target() is Some implies exists|
        k: int,
    |
        0 <= k < entries.len() && (#[trigger] entries[k]).instruction_idx == i by {
        if i < code.len() {
            assert(code[i].statement_target() is Some);
            let k = choose|k: int|
                0 <= k < table.len() && (#[trigger] table[k]).instruction_idx == i;
            assert(entries[k] == table[k]);
        } else {
            assert(entries[table.len() as int].instruction_idx == i);
        }
    }
    assert forall|j: int, k: int| 0 <= j < k < entries.len() implies (
    #[trigger] entries[j]).instruction_idx < (#[trigger] entries[k]).instruction_idx by {
        assert(entries[j] == table[j]);
        if k < table.len() {
            assert(entries[k] == table[k]);
        }
    }
    assert(entries_point_at_jumps(longer, entries));
    assert(jumps_have_entries(longer, entries));
    assert(entries_in_code_order(entries));
}

} // verus!
