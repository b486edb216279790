//! Constants that appear inside instructions.
//!
//! The machine works on values wider than any integer type of the host, and
//! the 128-bit primitives need the constant `2^128`, so a constant is kept as
//! two 128-bit limbs.

use vstd::prelude::*;

verus! {

/// `2^128`, the number of values of a 128-bit unsigned integer.
pub open spec fn limit_128() -> int {
    u128::MAX + 1
}

/// A signed constant of up to 256 bits, in two's complement: its value is
/// `high * 2^128 + low`. Every value in range has exactly one such pair.
#[derive(Clone, Copy, Debug, PartialEq, Eq, Hash)]
pub struct Immediate {
    pub high: i128,
    pub low: u128,
}

impl Immediate {
    /// The integer this constant stands for.
    pub open spec fn value(self) -> int {
        self.high * limit_128() + self.low
    }

    /// The constant with the value `n`.
    pub open spec fn spec_from_u128(n: u128) -> Immediate {
        Immediate { high: 0, low: n }
    }

    /// The constant `2^128`.
    pub open spec fn spec_uint128_limit() -> Immediate {
        Immediate { high: 1, low: 0 }
    }

    #[verifier::when_used_as_spec(spec_from_u128)]
    pub fn from_u128(n: u128) -> (imm: Immediate)
        ensures
            imm == Self::spec_from_u128(n),
            imm.value() == n,
    {
        Immediate { high: 0, low: n }
    }

    /// The constant with the value `n`.
    pub fn from_i128(n: i128) -> (imm: Immediate)
        ensures
            imm.value() == n,
    {
        if n >= 0 {
            Immediate { high: 0, low: n as u128 }
        } else {
            let lifted: i128 = n - i128::MIN;
            let half: u128 = 0x8000_0000_0000_0000_0000_0000_0000_0000;
            Immediate { high: -1, low: lifted as u128 + half }
        }
    }

    #[verifier::when_used_as_spec(spec_uint128_limit)]
    pub fn uint128_limit() -> (imm: Immediate)
        ensures
            imm == Self::spec_uint128_limit(),
            imm.value() == limit_128(),
    {
        Immediate { high: 1, low: 0 }
    }
}

/// `limit_128()` is the power of two it is named after.
pub proof fn lemma_limit_is_pow2()
    ensures
        limit_128() == vstd::arithmetic::power2::pow2(128),
{
    vstd::arithmetic::power2::lemma2_to64();
    vstd::arithmetic::power2::lemma_pow2_adds(64, 64);
}

/// A constant whose high limb is zero has the value of its low limb.
pub proof fn lemma_small_value(n: u128)
    ensures
        Immediate::from_u128(n).value() == n,
{
    assert(0 * limit_128() == 0);
}

/// Two constants with the same value are the same constant.
pub proof fn lemma_value_is_injective(first: Immediate, second: Immediate)
    requires
        first.value() == second.value(),
    ensures
        first == second,
{
    let l = limit_128();
    if first.high != second.high {
        let d = first.high - second.high;
        assert(d * l == second.low - first.low) by (nonlinear_arith)
            requires
                first.high * l + first.low == second.high * l + second.low,
                d == first.high - second.high,
        ;
        assert(d * l >= l || d * l <= -l) by (nonlinear_arith)
            requires
                d != 0,
                l > 0,
        ;
    }
}

} // verus!
