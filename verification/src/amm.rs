//! The constant-product pricing engine.
//!
//! A pricing snapshot is taken from a bonding curve's current virtual and
//! real reserves. A buy removes tokens from the curve and charges the
//! native-currency cost that keeps the product of the virtual reserves from
//! decreasing (the cost is rounded up); a sell returns tokens to the curve
//! and pays out proceeds rounded down, under the same invariant. All
//! arithmetic is carried out in 128 bits and narrowed back to the 64-bit
//! on-record reserve fields only when it fits.

use vstd::prelude::*;
use vstd::arithmetic::div_mod::{
    lemma_div_is_ordered, lemma_div_pos_is_pos, lemma_fundamental_div_mod,
    lemma_fundamental_div_mod_converse_div, lemma_div_by_multiple, lemma_mod_bound,
};
use vstd::arithmetic::mul::{
    lemma_mul_inequality, lemma_mul_is_distributive_add,
    lemma_mul_is_distributive_add_other_way, lemma_mul_is_distributive_sub_other_way,
    lemma_mul_nonnegative, lemma_mul_upper_bound,
};

verus! {

/// Native-currency cost of removing `token_amount` tokens from a curve with
/// the given virtual reserves, rounded up:
/// `ceil(virtual_sol * token_amount / (virtual_token - token_amount))`.
pub open spec fn buy_sol_cost(virtual_sol: int, virtual_token: int, token_amount: int) -> int
    recommends
        0 <= virtual_sol,
        0 <= token_amount < virtual_token,
{
    (virtual_sol * token_amount + (virtual_token - token_amount) - 1) / (virtual_token
        - token_amount)
}

/// Native-currency proceeds of returning `token_amount` tokens to a curve
/// with the given virtual reserves, rounded down:
/// `floor(virtual_sol * token_amount / (virtual_token + token_amount))`.
pub open spec fn sell_sol_output(virtual_sol: int, virtual_token: int, token_amount: int) -> int
    recommends
        0 <= virtual_sol,
        0 <= token_amount,
        0 < virtual_token + token_amount,
{
    virtual_sol * token_amount / (virtual_token + token_amount)
}

/// Outcome of a priced buy: what the buyer pays and receives.
#[derive(Clone, Copy, Debug, PartialEq, Eq, Structural)]
pub struct BuyResult {
    /// Tokens removed from the curve for the buyer.
    pub token_amount: u64,
    /// Native currency the buyer pays onto the curve.
    pub sol_amount: u64,
}

/// Outcome of a priced sell: what the seller returns and receives.
#[derive(Clone, Copy, Debug, PartialEq, Eq, Structural)]
pub struct SellResult {
    /// Tokens returned to the curve by the seller.
    pub token_amount: u64,
    /// Native currency paid out to the seller.
    pub sol_amount: u64,
}

/// A pricing snapshot of one bonding curve.
#[derive(Clone, Copy, Debug, PartialEq, Eq, Structural)]
pub struct AMM {
    /// Native-currency reserves used for pricing.
    pub virtual_sol_reserves: u128,
    /// Token reserves used for pricing.
    pub virtual_token_reserves: u128,
    /// Native currency actually held for the curve.
    pub real_sol_reserves: u128,
    /// Tokens actually available for sale on the curve.
    pub real_token_reserves: u128,
    /// Virtual token reserves the curve was seeded with.
    pub initial_virtual_token_reserves: u128,
}

impl AMM {
    /// Every reserve fits the 64-bit on-record field it is narrowed back to.
    pub open spec fn wf(self) -> bool {
        &&& self.virtual_sol_reserves <= u64::MAX
        &&& self.virtual_token_reserves <= u64::MAX
        &&& self.real_sol_reserves <= u64::MAX
        &&& self.real_token_reserves <= u64::MAX
    }

    /// A buy of `token_amount` prices and settles without arithmetic error:
    /// the curve is not exhausted by it and the grown reserves still fit
    /// their 64-bit fields.
    pub open spec fn buy_ok(self, token_amount: int) -> bool {
        let cost = buy_sol_cost(
            self.virtual_sol_reserves as int,
            self.virtual_token_reserves as int,
            token_amount,
        );
        &&& token_amount < self.virtual_token_reserves
        &&& token_amount <= self.real_token_reserves
        &&& self.virtual_sol_reserves + cost <= u64::MAX
        &&& self.real_sol_reserves + cost <= u64::MAX
    }

    /// A sell of `token_amount` prices and settles without arithmetic error:
    /// the grown token reserves still fit their 64-bit fields and the
    /// proceeds never drive the real native-currency reserves negative.
    pub open spec fn sell_ok(self, token_amount: int) -> bool {
        let output = sell_sol_output(
            self.virtual_sol_reserves as int,
            self.virtual_token_reserves as int,
            token_amount,
        );
        &&& self.virtual_token_reserves + token_amount <= u64::MAX
        &&& self.real_token_reserves + token_amount <= u64::MAX
        &&& 0 < self.virtual_token_reserves + token_amount
        &&& output <= self.real_sol_reserves
    }

    /// Takes a pricing snapshot from a curve's current reserves.
    pub fn new(
        virtual_sol_reserves: u128,
        virtual_token_reserves: u128,
        real_sol_reserves: u128,
        real_token_reserves: u128,
        initial_virtual_token_reserves: u128,
    ) -> (amm: AMM)
        ensures
            amm == (AMM {
                virtual_sol_reserves,
                virtual_token_reserves,
                real_sol_reserves,
                real_token_reserves,
                initial_virtual_token_reserves,
            }),
    {
        AMM {
            virtual_sol_reserves,
            virtual_token_reserves,
            real_sol_reserves,
            real_token_reserves,
            initial_virtual_token_reserves,
        }
    }

    /// Prices a buy of `token_amount` tokens and advances the snapshot:
    /// token reserves shrink by the fill, native-currency reserves grow by
    /// its cost. Fails exactly on curve exhaustion or overflow, leaving the
    /// snapshot unchanged.
    pub fn apply_buy(&mut self, token_amount: u128) -> (result: Option<BuyResult>)
        requires
            old(self).wf(),
        ensures
            final(self).wf(),
            result is Some <==> old(self).buy_ok(token_amount as int),
            result is None ==> *final(self) == *old(self),
            result is Some ==> ({
                let cost = buy_sol_cost(
                    old(self).virtual_sol_reserves as int,
                    old(self).virtual_token_reserves as int,
                    token_amount as int,
                );
                &&& final(self).virtual_sol_reserves == old(self).virtual_sol_reserves + cost
                &&& final(self).real_sol_reserves == old(self).real_sol_reserves + cost
                &&& final(self).virtual_token_reserves == old(self).virtual_token_reserves
                    - token_amount
                &&& final(self).real_token_reserves == old(self).real_token_reserves - token_amount
                &&& final(self).initial_virtual_token_reserves
                    == old(self).initial_virtual_token_reserves
                &&& result->Some_0.sol_amount == cost
                &&& result->Some_0.token_amount == token_amount
            }),
    {
        if token_amount >= self.virtual_token_reserves {
            return None;
        }
        if token_amount > self.real_token_reserves {
            return None;
        }
        let denominator: u128 = self.virtual_token_reserves - token_amount;
        proof {
            lemma_mul_upper_bound(
                self.virtual_sol_reserves as int,
                u64::MAX as int,
                token_amount as int,
                u64::MAX as int,
            );
        }
        let numerator: u128 = self.virtual_sol_reserves * token_amount;
        let cost: u128 = (numerator + (denominator - 1)) / denominator;
        proof {
            lemma_div_pos_is_pos(
                numerator as int + denominator as int - 1,
                denominator as int,
            );
        }
        if cost > u64::MAX as u128 - self.virtual_sol_reserves {
            return None;
        }
        if cost > u64::MAX as u128 - self.real_sol_reserves {
            return None;
        }
        self.virtual_sol_reserves = self.virtual_sol_reserves + cost;
        self.real_sol_reserves = self.real_sol_reserves + cost;
        self.virtual_token_reserves = self.virtual_token_reserves - token_amount;
        self.real_token_reserves = self.real_token_reserves - token_amount;
        Some(BuyResult { token_amount: token_amount as u64, sol_amount: cost as u64 })
    }

    /// Prices a sell of `token_amount` tokens and advances the snapshot:
    /// token reserves grow by the returned tokens, native-currency reserves
    /// shrink by the proceeds. Fails exactly on overflow or when the real
    /// native-currency reserves cannot cover the proceeds, leaving the
    /// snapshot unchanged.
    pub fn apply_sell(&mut self, token_amount: u128) -> (result: Option<SellResult>)
        requires
            old(self).wf(),
        ensures
            final(self).wf(),
            result is Some <==> old(self).sell_ok(token_amount as int),
            result is None ==> *final(self) == *old(self),
            result is Some ==> ({
                let output = sell_sol_output(
                    old(self).virtual_sol_reserves as int,
                    old(self).virtual_token_reserves as int,
                    token_amount as int,
                );
                &&& final(self).virtual_sol_reserves == old(self).virtual_sol_reserves - output
                &&& final(self).real_sol_reserves == old(self).real_sol_reserves - output
                &&& final(self).virtual_token_reserves == old(self).virtual_token_reserves
                    + token_amount
                &&& final(self).real_token_reserves == old(self).real_token_reserves + token_amount
                &&& final(self).initial_virtual_token_reserves
                    == old(self).initial_virtual_token_reserves
                &&& result->Some_0.sol_amount == output
                &&& result->Some_0.token_amount == token_amount
            }),
    {
        if token_amount > u64::MAX as u128 - self.virtual_token_reserves {
            return None;
        }
        if token_amount > u64::MAX as u128 - self.real_token_reserves {
            return None;
        }
        let denominator: u128 = self.virtual_token_reserves + token_amount;
        if denominator == 0 {
            return None;
        }
        proof {
            lemma_mul_upper_bound(
                self.virtual_sol_reserves as int,
                u64::MAX as int,
                token_amount as int,
                u64::MAX as int,
            );
        }
        let numerator: u128 = self.virtual_sol_reserves * token_amount;
        let output: u128 = numerator / denominator;
        if output > self.real_sol_reserves {
            return None;
        }
        proof {
            lemma_sell_output_le_virtual_sol(
                self.virtual_sol_reserves as int,
                self.virtual_token_reserves as int,
                token_amount as int,
            );
        }
        self.virtual_token_reserves = self.virtual_token_reserves + token_amount;
        self.real_token_reserves = self.real_token_reserves + token_amount;
        self.virtual_sol_reserves = self.virtual_sol_reserves - output;
        self.real_sol_reserves = self.real_sol_reserves - output;
        Some(SellResult { token_amount: token_amount as u64, sol_amount: output as u64 })
    }
}

/// The proceeds of a sell never exceed the virtual native-currency reserves
/// they are paid from.
proof fn lemma_sell_output_le_virtual_sol(virtual_sol: int, virtual_token: int, token_amount: int)
    requires
        0 <= virtual_sol,
        0 <= virtual_token,
        0 <= token_amount,
        0 < virtual_token + token_amount,
    ensures
        0 <= sell_sol_output(virtual_sol, virtual_token, token_amount) <= virtual_sol,
{
    let d = virtual_token + token_amount;
    lemma_mul_inequality(token_amount, d, virtual_sol);
    assert(token_amount * virtual_sol <= d * virtual_sol);
    assert(virtual_sol * token_amount == token_amount * virtual_sol) by (nonlinear_arith);
    assert(d * virtual_sol == virtual_sol * d) by (nonlinear_arith);
    lemma_div_is_ordered(virtual_sol * token_amount, virtual_sol * d, d);
    lemma_div_by_multiple(virtual_sol, d);
    assert((virtual_sol * d) / d == virtual_sol);
    lemma_div_pos_is_pos(virtual_sol * token_amount, d);
}

/// Constant-product invariant: because the cost of a buy is rounded up, the
/// product of the virtual reserves after the fill is at least the product
/// before it.
pub proof fn lemma_buy_preserves_product(virtual_sol: int, virtual_token: int, token_amount: int)
    requires
        0 <= virtual_sol,
        0 <= token_amount < virtual_token,
    ensures
        (virtual_sol + buy_sol_cost(virtual_sol, virtual_token, token_amount)) * (virtual_token
            - token_amount) >= virtual_sol * virtual_token,
{
    let t = token_amount;
    let d = virtual_token - t;
    let c = buy_sol_cost(virtual_sol, virtual_token, t);
    lemma_mul_nonnegative(virtual_sol, t);
    lemma_fundamental_div_mod(virtual_sol * t + d - 1, d);
    lemma_mod_bound(virtual_sol * t + d - 1, d);
    let r = (virtual_sol * t + d - 1) % d;
    assert(d * c == virtual_sol * t + d - 1 - r);
    assert(d * c >= virtual_sol * t);
    assert((virtual_sol + c) * d == virtual_sol * d + c * d) by {
        lemma_mul_is_distributive_add_other_way(d, virtual_sol, c);
    }
    assert(c * d == d * c) by (nonlinear_arith);
    assert(virtual_sol * d + virtual_sol * t == virtual_sol * (d + t)) by {
        lemma_mul_is_distributive_add(virtual_sol, d, t);
    }
    assert((virtual_sol + c) * d >= virtual_sol * virtual_token);
}

/// Constant-product invariant for a sell: because the proceeds are rounded
/// down, the product of the virtual reserves after the refill is at least
/// the product before it.
pub proof fn lemma_sell_preserves_product(virtual_sol: int, virtual_token: int, token_amount: int)
    requires
        0 <= virtual_sol,
        0 <= virtual_token,
        0 <= token_amount,
        0 < virtual_token + token_amount,
    ensures
        (virtual_sol - sell_sol_output(virtual_sol, virtual_token, token_amount)) * (virtual_token
            + token_amount) >= virtual_sol * virtual_token,
{
    let t = token_amount;
    let d = virtual_token + t;
    let p = sell_sol_output(virtual_sol, virtual_token, t);
    lemma_mul_nonnegative(virtual_sol, t);
    lemma_fundamental_div_mod(virtual_sol * t, d);
    lemma_mod_bound(virtual_sol * t, d);
    assert(d * p <= virtual_sol * t);
    assert((virtual_sol - p) * d == virtual_sol * d - p * d) by {
        lemma_mul_is_distributive_sub_other_way(d, virtual_sol, p);
    }
    assert(p * d == d * p) by (nonlinear_arith);
    assert(virtual_sol * d == virtual_sol * virtual_token + virtual_sol * t) by {
        lemma_mul_is_distributive_add(virtual_sol, virtual_token, t);
    }
}

/// Round trip at zero fee: buying `token_amount` tokens and selling them
/// straight back returns the token reserves to exactly, and the
/// native-currency reserves to within one base unit of, their pre-trade
/// state; the curve never pays back more than it charged.
pub proof fn lemma_zero_fee_round_trip(virtual_sol: int, virtual_token: int, token_amount: int)
    requires
        0 <= virtual_sol,
        0 < token_amount < virtual_token,
    ensures
        ({
            let cost = buy_sol_cost(virtual_sol, virtual_token, token_amount);
            let proceeds = sell_sol_output(
                virtual_sol + cost,
                virtual_token - token_amount,
                token_amount,
            );
            &&& 0 <= proceeds <= cost
            &&& cost - proceeds <= 1
        }),
{
    let t = token_amount;
    let d = virtual_token - t;
    let c = buy_sol_cost(virtual_sol, virtual_token, t);
    let p = sell_sol_output(virtual_sol + c, d, t);
    lemma_mul_nonnegative(virtual_sol, t);
    lemma_fundamental_div_mod(virtual_sol * t + d - 1, d);
    lemma_mod_bound(virtual_sol * t + d - 1, d);
    lemma_div_pos_is_pos(virtual_sol * t + d - 1, d);
    let r = (virtual_sol * t + d - 1) % d;
    let e = d * c - virtual_sol * t;
    assert(e == d - 1 - r);
    assert(0 <= e < d);
    assert((virtual_sol + c) * t == virtual_sol * t + c * t) by {
        lemma_mul_is_distributive_add_other_way(t, virtual_sol, c);
    }
    assert(c * d + c * t == c * (d + t)) by {
        lemma_mul_is_distributive_add(c, d, t);
    }
    assert(c * d == d * c) by (nonlinear_arith);
    assert((virtual_sol + c) * t == c * virtual_token - e);
    if e == 0 {
        assert((virtual_sol + c) * t == c * virtual_token);
        lemma_div_by_multiple(c, virtual_token);
        assert(p == c);
    } else {
        assert(c > 0) by (nonlinear_arith)
            requires
                d > 0,
                d * c > 0,
        ;
        assert(c * virtual_token - e == (c - 1) * virtual_token + (virtual_token - e)) by {
            lemma_mul_is_distributive_sub_other_way(virtual_token, c, 1);
        }
        assert(0 <= virtual_token - e < virtual_token);
        lemma_fundamental_div_mod_converse_div(
            (virtual_sol + c) * t,
            virtual_token,
            c - 1,
            virtual_token - e,
        );
        assert(p == c - 1);
    }
}

} // verus!
