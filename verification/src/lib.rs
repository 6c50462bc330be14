//! A single pure operation: addition of two machine-word operands.
//!
//! An operand is a non-negative machine-word integer (`usize`); the result
//! is the mathematical sum of the two operands. `add` requires the sum to
//! be representable; `checked_add` is total and reports overflow through
//! the one error kind, [`ArithmeticOverflow`].

use vstd::prelude::*;

verus! {

/// The mathematical sum of two operands: the model that every contract
/// in this crate speaks of.
pub open spec fn sum_spec(a: int, b: int) -> int {
    a + b
}

/// The single error kind: the mathematical sum of the operands exceeds
/// `usize::MAX`, so no machine word can hold it.
#[derive(Clone, Copy, Debug, PartialEq, Eq, Structural)]
pub struct ArithmeticOverflow;

/// Returns the sum of the two operands.
///
/// The caller must ensure that the sum fits in a machine word; this
/// function never panics and never wraps. [`checked_add`] is the total
/// variant, which reports overflow instead of excluding it.
pub fn add(left: usize, right: usize) -> (sum: usize)
    requires
        sum_spec(left as int, right as int) <= usize::MAX,
    ensures
        sum == sum_spec(left as int, right as int),
{
    left + right
}

/// Addition made total: `Ok` with the sum exactly when the sum fits in a
/// machine word, and `Err(ArithmeticOverflow)` exactly when it does not.
pub fn checked_add(left: usize, right: usize) -> (result: Result<usize, ArithmeticOverflow>)
    ensures
        sum_spec(left as int, right as int) <= usize::MAX ==> result
            == Ok::<usize, ArithmeticOverflow>((left + right) as usize),
        sum_spec(left as int, right as int) > usize::MAX ==> result
            == Err::<usize, ArithmeticOverflow>(ArithmeticOverflow),
{
    if left <= usize::MAX - right {
        Ok(left + right)
    } else {
        Err(ArithmeticOverflow)
    }
}

/// Commutativity: the sum of two valid operands does not depend on their
/// order.
pub proof fn lemma_add_commutative(a: usize, b: usize)
    requires
        sum_spec(a as int, b as int) <= usize::MAX,
    ensures
        sum_spec(a as int, b as int) == sum_spec(b as int, a as int),
{
}

/// Identity: adding zero to a valid operand returns that operand
/// unchanged.
pub proof fn lemma_add_identity(a: usize)
    ensures
        sum_spec(a as int, 0) == a as int,
{
}

/// Associativity: when no intermediate sum overflows, grouping the
/// operands does not change the result.
pub proof fn lemma_add_associative(a: usize, b: usize, c: usize)
    requires
        sum_spec(a as int, b as int) <= usize::MAX,
        sum_spec(b as int, c as int) <= usize::MAX,
        sum_spec(sum_spec(a as int, b as int), c as int) <= usize::MAX,
    ensures
        sum_spec(sum_spec(a as int, b as int), c as int) == sum_spec(
            a as int,
            sum_spec(b as int, c as int),
        ),
{
}

} // verus!
