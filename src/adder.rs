use vstd::prelude::*;

verus! {

/// Number of distinct `i32` values: the modulus of two's-complement wraparound.
pub open spec fn i32_modulus() -> int {
    0x1_0000_0000
}

/// The mathematical sum `a + b` brought back into the `i32` range by wraparound:
/// a sum above `i32::MAX` loses one modulus, a sum below `i32::MIN` gains one.
pub open spec fn wrapped_sum(a: i32, b: i32) -> int {
    let s = a + b;
    if s > i32::MAX {
        s - i32_modulus()
    } else if s < i32::MIN {
        s + i32_modulus()
    } else {
        s
    }
}

/// Adds two 32-bit signed integers.
///
/// Overflow policy: the sum wraps around in two's complement (so `add(i32::MAX, 1)`
/// is `i32::MIN`). The call never panics, allocates nothing and keeps no state.
pub fn add(a: i32, b: i32) -> (r: i32)
    ensures
        r == wrapped_sum(a, b),
        i32::MIN <= a + b <= i32::MAX ==> r == a + b,
{
    a.wrapping_add(b)
}

/// Addition is commutative: swapping the operands gives the same result.
pub proof fn lemma_add_commutative(a: i32, b: i32)
    ensures
        wrapped_sum(a, b) == wrapped_sum(b, a),
{
}

/// Zero is a right identity: adding zero returns the other operand unchanged.
pub proof fn lemma_add_zero_identity(a: i32)
    ensures
        wrapped_sum(a, 0) == a,
{
}

} // verus!
