//! What compiling one operation yields, and how it can fail.

use crate::ap_change::ApChange;
use crate::instruction::Instruction;
use crate::reference::ReferenceExpression;
use crate::relocation::RelocationEntry;
use vstd::prelude::*;

verus! {

/// One exit of an operation: where each of its outputs lives once the exit
/// is taken, and how far the allocation pointer has moved on the way there.
#[derive(Clone, Debug, PartialEq, Eq)]
pub struct BranchChanges {
    pub refs: Vec<ReferenceExpression>,
    pub ap_change: ApChange,
}

/// The code of one operation with everything the assembler of the whole
/// program needs to place it: the jumps it has to patch, and one
/// `BranchChanges` per exit, in the order in which the operation declares
/// its exits.
#[derive(Clone, Debug, PartialEq, Eq)]
pub struct CompiledInvocation {
    pub instructions: Vec<Instruction>,
    pub relocations: Vec<RelocationEntry>,
    pub results: Vec<BranchChanges>,
}

/// Why an operation was not compiled.
#[derive(Clone, Copy, Debug, PartialEq, Eq, Hash)]
pub enum InvocationError {
    /// No operation has the given name.
    UnknownOperation,
    /// The operation takes `expected` inputs and was given `actual`.
    WrongNumberOfArguments { expected: usize, actual: usize },
    /// The movement of the allocation pointer along some branch cannot be
    /// told before the code runs.
    UnknownApChange,
}

/// `BranchChanges` as a mathematical value.
pub struct BranchView {
    pub refs: Seq<ReferenceExpression>,
    pub ap_change: ApChange,
}

/// `CompiledInvocation` as a mathematical value.
pub struct CompiledView {
    pub instructions: Seq<Instruction>,
    pub relocations: Seq<RelocationEntry>,
    pub results: Seq<BranchView>,
}

impl View for BranchChanges {
    type V = BranchView;

    open spec fn view(&self) -> BranchView {
        BranchView { refs: self.refs@, ap_change: self.ap_change }
    }
}

impl View for CompiledInvocation {
    type V = CompiledView;

    open spec fn view(&self) -> CompiledView {
        CompiledView {
            instructions: self.instructions@,
            relocations: self.relocations@,
            results: self.results@.map_values(|branch: BranchChanges| branch@),
        }
    }
}

/// The outcome of a compilation as a mathematical value.
pub open spec fn outcome_view(outcome: Result<CompiledInvocation, InvocationError>) -> Result<
    CompiledView,
    InvocationError,
> {
    match outcome {
        Ok(compiled) => Ok(compiled@),
        Err(error) => Err(error),
    }
}

impl BranchChanges {
    pub fn new(refs: Vec<ReferenceExpression>, ap_change: ApChange) -> (branch: BranchChanges)
        ensures
            branch@ == (BranchView { refs: refs@, ap_change }),
    {
        BranchChanges { refs, ap_change }
    }
}

impl CompiledInvocation {
    /// Puts together an operation with two exits.
    pub fn two_way(
        instructions: Vec<Instruction>,
        relocations: Vec<RelocationEntry>,
        first: BranchChanges,
        second: BranchChanges,
    ) -> (compiled: CompiledInvocation)
        ensures
            compiled@ == (CompiledView {
                instructions: instructions@,
                relocations: relocations@,
                results: seq![first@, second@],
            }),
    {
        let results = vec![first, second];
        let compiled = CompiledInvocation { instructions, relocations, results };
        proof {
            assert(compiled@.results =~= seq![first@, second@]);
        }
        compiled
    }
}

} // verus!
