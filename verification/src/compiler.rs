//! The entry point: from the name of an operation to its compiled code.

use crate::instruction::StatementIdx;
use crate::invocation::{outcome_view, CompiledInvocation, CompiledView, InvocationError};
use crate::reference::CellRef;
use crate::relocation::relocations_match;
use crate::uint128::comparison::{
    compile_le, compile_lt, le_fits, le_outcome, lt_fits, lt_outcome,
};
use crate::uint128::equality::{compile_eq, eq_fits, eq_outcome};
use crate::uint128::lemma_relocations_match_code;
use crate::uint128::overflow::{
    compile_overflow_add, compile_overflow_sub, overflow_add_outcome, overflow_fits,
    overflow_sub_outcome,
};
use vstd::prelude::*;

verus! {

/// The operations that can be compiled.
#[derive(Clone, Copy, Debug, PartialEq, Eq, Hash)]
pub enum Operation {
    OverflowAdd,
    OverflowSub,
    Eq,
    Lt,
    Le,
}

impl Operation {
    /// The name under which programs call the operation.
    pub open spec fn spec_name(self) -> Seq<char> {
        match self {
            Operation::OverflowAdd => "uint128_overflow_add"@,
            Operation::OverflowSub => "uint128_overflow_sub"@,
            Operation::Eq => "uint128_eq"@,
            Operation::Lt => "uint128_lt"@,
            Operation::Le => "uint128_le"@,
        }
    }

    /// The operation with exactly this name, if there is one.
    pub open spec fn named(name: Seq<char>) -> Option<Operation> {
        if name == "uint128_overflow_add"@ {
            Some(Operation::OverflowAdd)
        } else if name == "uint128_overflow_sub"@ {
            Some(Operation::OverflowSub)
        } else if name == "uint128_eq"@ {
            Some(Operation::Eq)
        } else if name == "uint128_lt"@ {
            Some(Operation::Lt)
        } else if name == "uint128_le"@ {
            Some(Operation::Le)
        } else {
            None
        }
    }

    /// The number of inputs the operation takes.
    pub open spec fn spec_arity(self) -> usize {
        match self {
            Operation::Eq => 2,
            _ => 3,
        }
    }

    /// Whether the code of the operation can be written down for these
    /// inputs: see the operation's own `_fits`.
    pub open spec fn fits(self, inputs: Seq<CellRef>, statement: StatementIdx) -> bool {
        match self {
            Operation::OverflowAdd => overflow_fits(inputs, statement),
            Operation::OverflowSub => overflow_fits(inputs, statement),
            Operation::Eq => eq_fits(inputs, statement),
            Operation::Lt => lt_fits(inputs, statement),
            Operation::Le => le_fits(inputs, statement),
        }
    }

    /// What compiling the operation yields.
    pub open spec fn outcome(self, inputs: Seq<CellRef>, statement: StatementIdx) -> Result<
        CompiledView,
        InvocationError,
    > {
        match self {
            Operation::OverflowAdd => overflow_add_outcome(inputs, statement),
            Operation::OverflowSub => overflow_sub_outcome(inputs, statement),
            Operation::Eq => eq_outcome(inputs, statement),
            Operation::Lt => lt_outcome(inputs, statement),
            Operation::Le => le_outcome(inputs, statement),
        }
    }

    pub fn name(self) -> (name: &'static str)
        ensures
            name@ == self.spec_name(),
    {
        match self {
            Operation::OverflowAdd => "uint128_overflow_add",
            Operation::OverflowSub => "uint128_overflow_sub",
            Operation::Eq => "uint128_eq",
            Operation::Lt => "uint128_lt",
            Operation::Le => "uint128_le",
        }
    }

    /// Looks the operation up by its name, which has to match exactly.
    pub fn from_name(name: &str) -> (operation: Option<Operation>)
        ensures
            operation == Self::named(name@),
    {
        if same_text(name, "uint128_overflow_add") {
            Some(Operation::OverflowAdd)
        } else if same_text(name, "uint128_overflow_sub") {
            Some(Operation::OverflowSub)
        } else if same_text(name, "uint128_eq") {
            Some(Operation::Eq)
        } else if same_text(name, "uint128_lt") {
            Some(Operation::Lt)
        } else if same_text(name, "uint128_le") {
            Some(Operation::Le)
        } else {
            None
        }
    }

    #[verifier::when_used_as_spec(spec_arity)]
    pub fn arity(self) -> (count: usize)
        ensures
            count == self.spec_arity(),
    {
        match self {
            Operation::Eq => 2,
            _ => 3,
        }
    }

    /// Tests `fits`.
    pub fn can_compile(self, inputs: &Vec<CellRef>, statement: StatementIdx) -> (fits: bool)
        ensures
            fits == self.fits(inputs@, statement),
    {
        if inputs.len() != self.arity() {
            return true;
        }
        if statement.0 == usize::MAX {
            return false;
        }
        match self {
            Operation::OverflowAdd | Operation::OverflowSub => inputs[0].fits_advance(3),
            Operation::Eq => true,
            Operation::Lt => inputs[0].fits_advance(3) && inputs[1].fits_advance(1)
                && inputs[2].fits_advance(2),
            Operation::Le => inputs[0].fits_advance(3) && inputs[1].fits_advance(2)
                && inputs[2].fits_advance(1),
        }
    }

    /// Compiles the operation at `statement`.
    pub fn compile(self, inputs: &Vec<CellRef>, statement: StatementIdx) -> (outcome: Result<
        CompiledInvocation,
        InvocationError,
    >)
        requires
            self.fits(inputs@, statement),
        ensures
            outcome_view(outcome) == self.outcome(inputs@, statement),
    {
        match self {
            Operation::OverflowAdd => compile_overflow_add(inputs, statement),
            Operation::OverflowSub => compile_overflow_sub(inputs, statement),
            Operation::Eq => compile_eq(inputs, statement),
            Operation::Lt => compile_lt(inputs, statement),
            Operation::Le => compile_le(inputs, statement),
        }
    }
}

/// Whether two texts are the same, character by character.
fn same_text(left: &str, right: &str) -> (same: bool)
    ensures
        same == (left@ == right@),
{
    left.to_owned() == right.to_owned()
}

/// Whether the operation called `name`, if there is one, can be written down
/// for these inputs. Of any other name nothing is asked.
pub open spec fn fits(name: Seq<char>, inputs: Seq<CellRef>, statement: StatementIdx) -> bool {
    match Operation::named(name) {
        Some(operation) => operation.fits(inputs, statement),
        None => true,
    }
}

/// What compiling the operation called `name` yields: the outcome of that
/// operation, and for a name that no operation has, the error that says so.
pub open spec fn compile_outcome(
    name: Seq<char>,
    inputs: Seq<CellRef>,
    statement: StatementIdx,
) -> Result<CompiledView, InvocationError> {
    match Operation::named(name) {
        Some(operation) => operation.outcome(inputs, statement),
        None => Err(InvocationError::UnknownOperation),
    }
}

/// Tests `fits`.
pub fn can_compile(name: &str, inputs: &Vec<CellRef>, statement: StatementIdx) -> (ok: bool)
    ensures
        ok == fits(name@, inputs@, statement),
{
    match Operation::from_name(name) {
        Some(operation) => operation.can_compile(inputs, statement),
        None => true,
    }
}

/// Compiles the operation called `name`, applied to `inputs`, where it
/// stands at `statement` of its program.
pub fn compile(name: &str, inputs: &Vec<CellRef>, statement: StatementIdx) -> (outcome: Result<
    CompiledInvocation,
    InvocationError,
>)
    requires
        fits(name@, inputs@, statement),
    ensures
        outcome_view(outcome) == compile_outcome(name@, inputs@, statement),
{
    match Operation::from_name(name) {
        Some(operation) => operation.compile(inputs, statement),
        None => Err(InvocationError::UnknownOperation),
    }
}

/// Each operation is found under its own name, so no two operations share
/// a name.
pub proof fn lemma_names_are_distinct(operation: Operation)
    ensures
        Operation::named(operation.spec_name()) == Some(operation),
{
    reveal_strlit("uint128_overflow_add");
    reveal_strlit("uint128_overflow_sub");
    reveal_strlit("uint128_eq");
    reveal_strlit("uint128_lt");
    reveal_strlit("uint128_le");
    assert("uint128_overflow_add"@[17] != "uint128_overflow_sub"@[17]);
    assert("uint128_eq"@[8] != "uint128_lt"@[8]);
    assert("uint128_eq"@[8] != "uint128_le"@[8]);
    assert("uint128_lt"@[9] != "uint128_le"@[9]);
}

/// Compiling succeeds exactly when the name is that of an operation and the
/// number of inputs is the one it takes. A name that no operation has gives
/// `UnknownOperation`, whatever the inputs; the name of an operation with
/// another number of inputs gives `WrongNumberOfArguments` with the number
/// it takes and the number it got.
pub proof fn lemma_dispatch(name: Seq<char>, inputs: Seq<CellRef>, statement: StatementIdx)
    ensures
        Operation::named(name) is None ==> compile_outcome(name, inputs, statement) == Err::<
            CompiledView,
            InvocationError,
        >(InvocationError::UnknownOperation),
        Operation::named(name) matches Some(operation) ==> {
            &&& inputs.len() == operation.spec_arity() ==> compile_outcome(
                name,
                inputs,
                statement,
            ) is Ok
            &&& inputs.len() != operation.spec_arity() ==> compile_outcome(name, inputs, statement)
                == Err::<CompiledView, InvocationError>(
                InvocationError::WrongNumberOfArguments {
                    expected: operation.spec_arity(),
                    actual: inputs.len() as usize,
                },
            )
        },
{
}

/// Compiling is a function of the name, the inputs and the statement: two
/// compilations of the same operation on the same inputs end the same way
/// and, where they succeed, yield the same code, the same relocations and
/// the same exits.
pub proof fn lemma_compile_is_deterministic(
    name: Seq<char>,
    inputs: Seq<CellRef>,
    statement: StatementIdx,
    first: Result<CompiledInvocation, InvocationError>,
    second: Result<CompiledInvocation, InvocationError>,
)
    requires
        outcome_view(first) == compile_outcome(name, inputs, statement),
        outcome_view(second) == compile_outcome(name, inputs, statement),
    ensures
        outcome_view(first) == outcome_view(second),
        first is Ok <==> second is Ok,
        first is Ok ==> {
            &&& first->Ok_0.instructions@ == second->Ok_0.instructions@
            &&& first->Ok_0.relocations@ == second->Ok_0.relocations@
            &&& first->Ok_0@.results == second->Ok_0@.results
        },
        first is Err ==> first->Err_0 == second->Err_0,
{
}

/// Whatever is compiled, the relocation table matches the code: every jump
/// to a statement has exactly one entry, at its own index, and every entry
/// points at such a jump.
pub proof fn lemma_relocation_integrity(
    name: Seq<char>,
    inputs: Seq<CellRef>,
    statement: StatementIdx,
)
    ensures
        compile_outcome(name, inputs, statement) matches Ok(compiled) ==> relocations_match(
            compiled.instructions,
            compiled.relocations,
        ),
{
    match Operation::named(name) {
        Some(Operation::Eq) => {
            if inputs.len() == 2 {
                lemma_relocations_match_code(inputs[0], inputs[0], inputs[1], statement.next());
            }
        },
        Some(_) => {
            if inputs.len() == 3 {
                lemma_relocations_match_code(inputs[0], inputs[1], inputs[2], statement.next());
            }
        },
        None => {},
    }
}

} // verus!
