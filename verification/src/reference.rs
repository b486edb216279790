//! Where an operand lives: a memory cell at an offset from a base register,
//! and the value expressions built on such cells.

use vstd::prelude::*;

verus! {

/// The two base registers of the machine.
#[derive(Clone, Copy, Debug, PartialEq, Eq, Hash)]
pub enum Register {
    /// The allocation pointer: it only ever advances.
    AP,
    /// The frame pointer: fixed for the duration of a function.
    FP,
}

/// One memory cell, `[register + offset]`.
#[derive(Clone, Copy, Debug, PartialEq, Eq, Hash)]
pub struct CellRef {
    pub register: Register,
    pub offset: i16,
}

/// The value an operation hands to its successors.
#[derive(Clone, Copy, Debug, PartialEq, Eq, Hash)]
pub enum ReferenceExpression {
    /// The content of a cell.
    Deref(CellRef),
    /// The content of a cell plus a constant: `[cell] + addend`.
    DerefPlus(CellRef, i16),
}

impl CellRef {
    /// The cell `[ap + offset]`.
    pub open spec fn spec_ap(offset: i16) -> CellRef {
        CellRef { register: Register::AP, offset }
    }

    /// The cell `[fp + offset]`.
    pub open spec fn spec_fp(offset: i16) -> CellRef {
        CellRef { register: Register::FP, offset }
    }

    /// Whether the offset moved by `delta` is still an offset.
    pub open spec fn can_shift(self, delta: int) -> bool {
        i16::MIN <= self.offset + delta <= i16::MAX
    }

    /// The cell `delta` places further from the same base.
    pub open spec fn spec_shifted(self, delta: int) -> CellRef
        recommends
            self.can_shift(delta),
    {
        CellRef { register: self.register, offset: (self.offset + delta) as i16 }
    }

    /// Whether this cell can still be named after the allocation pointer has
    /// advanced `advance` times.
    pub open spec fn survives(self, advance: nat) -> bool {
        self.register == Register::AP ==> self.can_shift(-advance)
    }

    /// The name of this same cell after the allocation pointer has advanced
    /// `advance` times: a cell based on the allocation pointer moves back by
    /// as much, one based on the frame pointer keeps its name.
    pub open spec fn after_advance(self, advance: nat) -> CellRef
        recommends
            self.survives(advance),
    {
        match self.register {
            Register::AP => self.spec_shifted(-advance),
            Register::FP => self,
        }
    }

    #[verifier::when_used_as_spec(spec_ap)]
    pub fn ap(offset: i16) -> (cell: CellRef)
        ensures
            cell == Self::spec_ap(offset),
    {
        CellRef { register: Register::AP, offset }
    }

    #[verifier::when_used_as_spec(spec_fp)]
    pub fn fp(offset: i16) -> (cell: CellRef)
        ensures
            cell == Self::spec_fp(offset),
    {
        CellRef { register: Register::FP, offset }
    }

    /// Tests `can_shift`.
    pub fn fits_shift(&self, delta: i16) -> (fits: bool)
        ensures
            fits == self.can_shift(delta as int),
    {
        self.offset.checked_add(delta).is_some()
    }

    /// The cell `delta` places further from the same base.
    pub fn shifted(self, delta: i16) -> (cell: CellRef)
        requires
            self.can_shift(delta as int),
        ensures
            cell == self.spec_shifted(delta as int),
            cell.register == self.register,
            cell.offset == self.offset + delta,
    {
        CellRef { register: self.register, offset: self.offset + delta }
    }

    /// Tests `survives`.
    pub fn fits_advance(&self, advance: u16) -> (fits: bool)
        ensures
            fits == self.survives(advance as nat),
    {
        match self.register {
            Register::AP => self.offset as i32 - advance as i32 >= i16::MIN as i32,
            Register::FP => true,
        }
    }

    /// Renames the cell for code that runs `advance` allocations later.
    pub fn apply_ap_change(self, advance: u16) -> (cell: CellRef)
        requires
            self.survives(advance as nat),
        ensures
            cell == self.after_advance(advance as nat),
    {
        match self.register {
            Register::AP => {
                let moved: i32 = self.offset as i32 - advance as i32;
                CellRef { register: Register::AP, offset: moved as i16 }
            },
            Register::FP => self,
        }
    }
}

/// Shifting composes: moving by `first` and then by `second` is moving by
/// their sum, and moving by zero changes nothing.
pub proof fn lemma_shifts_compose(cell: CellRef, first: int, second: int)
    requires
        cell.can_shift(first),
        cell.can_shift(first + second),
    ensures
        cell.spec_shifted(0) == cell,
        cell.spec_shifted(first).spec_shifted(second) == cell.spec_shifted(first + second),
{
}

/// Renaming after `first` advances and then after `second` more is the
/// renaming after `first + second`: the name of a cell depends only on how
/// far the allocation pointer has moved in total.
pub proof fn lemma_advances_compose(cell: CellRef, first: nat, second: nat)
    requires
        cell.survives(first + second),
    ensures
        cell.survives(first),
        cell.after_advance(first).survives(second),
        cell.after_advance(first).after_advance(second) == cell.after_advance(first + second),
        cell.after_advance(0) == cell,
{
}

} // verus!
