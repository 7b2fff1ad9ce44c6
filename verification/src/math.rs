//! Overflow-checked arithmetic on 128-bit amounts.

use cosmwasm_std::Uint128;
use vstd::prelude::*;

verus! {

/// The sum of a sequence of amounts, as an unbounded natural number.
pub open spec fn total(amounts: Seq<u128>) -> nat
    decreases amounts.len(),
{
    if amounts.len() == 0 {
        0
    } else {
        total(amounts.drop_last()) + amounts.last() as nat
    }
}

/// The sum of a prefix never exceeds the sum of the whole sequence.
pub proof fn lemma_total_prefix(amounts: Seq<u128>, k: int)
    requires
        0 <= k <= amounts.len(),
    ensures
        total(amounts.take(k)) <= total(amounts),
    decreases amounts.len(),
{
    if k == amounts.len() {
        assert(amounts.take(k) =~= amounts);
    } else {
        assert(amounts.drop_last().take(k) =~= amounts.take(k));
        lemma_total_prefix(amounts.drop_last(), k);
    }
}

/// Calls `cosmwasm_std::Uint128::checked_add` on two amounts. The outside
/// function adds the two wrapped integers and fails exactly when the sum does
/// not fit in 128 bits; the contract says the same over plain integers.
#[verifier::external_body]
pub(crate) fn uint128_checked_add(a: u128, b: u128) -> (r: Option<u128>)
    ensures
        a + b <= u128::MAX ==> r == Some((a + b) as u128),
        a + b > u128::MAX ==> r is None,
{
    match Uint128::new(a).checked_add(Uint128::new(b)) {
        Ok(s) => Some(s.u128()),
        Err(_) => None,
    }
}

/// Calls `cosmwasm_std::Uint128::checked_sub` on two amounts. The outside
/// function subtracts the second wrapped integer from the first and fails
/// exactly when the second is the larger one.
#[verifier::external_body]
pub(crate) fn uint128_checked_sub(a: u128, b: u128) -> (r: Option<u128>)
    ensures
        a >= b ==> r == Some((a - b) as u128),
        a < b ==> r is None,
{
    match Uint128::new(a).checked_sub(Uint128::new(b)) {
        Ok(d) => Some(d.u128()),
        Err(_) => None,
    }
}

/// Calls `cosmwasm_std::Uint128::checked_mul` on two amounts. The outside
/// function multiplies the two wrapped integers and fails exactly when the
/// product does not fit in 128 bits.
#[verifier::external_body]
pub(crate) fn uint128_checked_mul(a: u128, b: u128) -> (r: Option<u128>)
    ensures
        a * b <= u128::MAX ==> r == Some((a * b) as u128),
        a * b > u128::MAX ==> r is None,
{
    match Uint128::new(a).checked_mul(Uint128::new(b)) {
        Ok(p) => Some(p.u128()),
        Err(_) => None,
    }
}

/// Adds up `amounts`, or returns `None` when the sum does not fit in 128 bits.
pub fn checked_total(amounts: &Vec<u128>) -> (r: Option<u128>)
    ensures
        match r {
            Some(t) => t == total(amounts@),
            None => total(amounts@) > u128::MAX,
        },
{
    let mut acc: u128 = 0;
    let mut i: usize = 0;
    while i < amounts.len()
        invariant
            i <= amounts.len(),
            acc == total(amounts@.take(i as int)),
        decreases amounts.len() - i,
    {
        proof {
            assert(amounts@.take(i + 1).drop_last() =~= amounts@.take(i as int));
        }
        match uint128_checked_add(acc, amounts[i]) {
            Some(s) => {
                acc = s;
            },
            None => {
                proof {
                    lemma_total_prefix(amounts@, i + 1);
                }
                return None;
            },
        }
        i += 1;
    }
    proof {
        assert(amounts@.take(i as int) =~= amounts@);
    }
    Some(acc)
}

/// Multiplies one amount by a count of recipients, or returns `None` when the
/// product does not fit in 128 bits.
pub fn checked_uniform_total(amount: u128, count: usize) -> (r: Option<u128>)
    ensures
        match r {
            Some(t) => t == amount * count,
            None => amount * count > u128::MAX,
        },
{
    uint128_checked_mul(amount, count as u128)
}

} // verus!
