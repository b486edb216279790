//! How far the allocation pointer moves along a run of instructions.

use crate::instruction::Instruction;
use vstd::prelude::*;

verus! {

/// The net movement of the allocation pointer over one branch.
#[derive(Clone, Copy, Debug, PartialEq, Eq, Hash)]
pub enum ApChange {
    /// It advances exactly so many cells.
    Known(usize),
    /// It cannot be told before the code runs.
    Unknown,
}

/// The number of instructions in `run` that advance the allocation pointer.
pub open spec fn advances(run: Seq<Instruction>) -> nat
    decreases run.len(),
{
    if run.len() == 0 {
        0
    } else {
        advances(run.drop_last()) + run.last().advance()
    }
}

/// The advances of two runs, one after the other, add up.
pub proof fn lemma_advances_concat(first: Seq<Instruction>, second: Seq<Instruction>)
    ensures
        advances(first + second) == advances(first) + advances(second),
    decreases second.len(),
{
    if second.len() == 0 {
        assert(first + second =~= first);
    } else {
        assert((first + second).drop_last() =~= first + second.drop_last());
        lemma_advances_concat(first, second.drop_last());
    }
}

impl ApChange {
    /// The change over one straight-line run of instructions: the number of
    /// them that are marked as advancing.
    pub fn of_run(run: &Vec<Instruction>) -> (change: ApChange)
        ensures
            change == ApChange::Known(advances(run@) as usize),
            advances(run@) <= usize::MAX,
    {
        let mut count: usize = 0;
        let mut i: usize = 0;
        while i < run.len()
            invariant
                i <= run.len(),
                count == advances(run@.take(i as int)),
                count <= i,
            decreases run.len() - i,
        {
            proof {
                assert(run@.take(i + 1).drop_last() =~= run@.take(i as int));
            }
            if run[i].inc_ap {
                count = count + 1;
            }
            i = i + 1;
        }
        proof {
            assert(run@.take(i as int) =~= run@);
        }
        ApChange::Known(count)
    }
}

} // verus!
