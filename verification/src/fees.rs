//! Basis-point fee arithmetic.
//!
//! Every fee in the exchange is a number of basis points (units of 1/10_000)
//! of a settlement amount, rounded down. A trade withholds one total fee,
//! computed from the summed basis points, and that total is then split into
//! protocol, creator and referral components, each rounded down separately.
//! The split may fall short of the total by a few base units; the shortfall
//! stays in the escrow and is never redistributed.

use vstd::prelude::*;
use vstd::arithmetic::div_mod::{
    lemma_div_is_ordered, lemma_div_pos_is_pos, lemma_fundamental_div_mod,
    lemma_fundamental_div_mod_converse_div, lemma_multiply_divide_lt,
};
use vstd::arithmetic::mul::{lemma_mul_inequality, lemma_mul_is_distributive_add, lemma_mul_upper_bound};

verus! {

/// Fees are quoted in basis points: units of 1/10_000 of the amount.
pub const BASIS_POINTS_DIVISOR: u64 = 10_000;

/// The fee withheld from `amount` at `basis_points`, rounded down:
/// `floor(amount * basis_points / 10_000)`.
pub open spec fn fee_of(amount: int, basis_points: int) -> int {
    amount * basis_points / 10_000
}

/// A fee at no more than 10_000 basis points never exceeds the amount itself,
/// and is never negative.
pub proof fn lemma_fee_le_amount(amount: int, basis_points: int)
    requires
        0 <= amount,
        0 <= basis_points <= 10_000,
    ensures
        0 <= fee_of(amount, basis_points) <= amount,
{
    lemma_mul_upper_bound(amount, amount, basis_points, 10_000);
    lemma_div_is_ordered(amount * basis_points, amount * 10_000, 10_000);
    lemma_div_by_ten_thousand(amount);
    lemma_div_pos_is_pos(amount * basis_points, 10_000);
}

proof fn lemma_div_by_ten_thousand(amount: int)
    requires
        0 <= amount,
    ensures
        amount * 10_000 / 10_000 == amount,
{
    lemma_fundamental_div_mod_converse_div(amount * 10_000, 10_000, amount, 0);
}

/// The fee withheld from a settlement amount at the given basis points.
pub fn calculate_fee(amount: u64, basis_points: u64) -> (fee: u64)
    requires
        fee_of(amount as int, basis_points as int) <= u64::MAX,
    ensures
        fee as int == fee_of(amount as int, basis_points as int),
{
    proof {
        lemma_mul_upper_bound(amount as int, u64::MAX as int, basis_points as int, u64::MAX as int);
    }
    let wide: u128 = (amount as u128) * (basis_points as u128);
    (wide / (BASIS_POINTS_DIVISOR as u128)) as u64
}

/// Splitting one settlement amount into separately floored protocol, creator
/// and referral components never credits more than the jointly computed total
/// fee, and the rounding shortfall is at most one base unit per component.
pub proof fn lemma_fee_split_conservation(
    amount: int,
    protocol_bp: int,
    creator_bp: int,
    referral_bp: int,
)
    requires
        0 <= amount,
        0 <= protocol_bp,
        0 <= creator_bp,
        0 <= referral_bp,
    ensures
        fee_of(amount, protocol_bp) + fee_of(amount, creator_bp) + fee_of(amount, referral_bp)
            <= fee_of(amount, protocol_bp + creator_bp + referral_bp),
        fee_of(amount, protocol_bp + creator_bp + referral_bp)
            - (fee_of(amount, protocol_bp) + fee_of(amount, creator_bp) + fee_of(amount, referral_bp))
            <= 3,
{
    let b = 10_000;
    let p = amount * protocol_bp;
    let c = amount * creator_bp;
    let r = amount * referral_bp;
    lemma_mul_is_distributive_add(amount, protocol_bp, creator_bp);
    lemma_mul_is_distributive_add(amount, protocol_bp + creator_bp, referral_bp);
    assert(amount * (protocol_bp + creator_bp + referral_bp) == p + c + r);
    lemma_mul_inequality(0, amount, protocol_bp);
    lemma_mul_inequality(0, amount, creator_bp);
    lemma_mul_inequality(0, amount, referral_bp);
    lemma_fundamental_div_mod(p, b);
    lemma_fundamental_div_mod(c, b);
    lemma_fundamental_div_mod(r, b);
    let qp = p / b;
    let qc = c / b;
    let qr = r / b;
    let rest = p % b + c % b + r % b;
    assert(0 <= rest < 3 * b);
    assert(p + c + r == (qp + qc + qr + rest / b) * b + rest % b) by {
        lemma_fundamental_div_mod(rest, b);
        assert((qp + qc + qr + rest / b) * b == qp * b + qc * b + qr * b + (rest / b) * b)
            by (nonlinear_arith);
        assert(qp * b == b * qp) by (nonlinear_arith);
        assert(qc * b == b * qc) by (nonlinear_arith);
        assert(qr * b == b * qr) by (nonlinear_arith);
        assert((rest / b) * b == b * (rest / b)) by (nonlinear_arith);
    }
    lemma_fundamental_div_mod_converse_div(p + c + r, b, qp + qc + qr + rest / b, rest % b);
    assert((p + c + r) / b == qp + qc + qr + rest / b);
    lemma_div_pos_is_pos(rest, b);
    lemma_multiply_divide_lt(rest, b, 3);
    assert(0 <= rest / b <= 2);
}

} // verus!
