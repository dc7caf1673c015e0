use vstd::prelude::*;

verus! {

/// Number of equal steps the bonding-curve integral is split into.
pub const PRICE_STEPS: u128 = 10;

/// Raw token units per whole token (the asset has six decimals).
pub const TOKEN_UNIT: u128 = 1_000_000;

/// The bonding curve prices a trade of `amount` raw units against a listing
/// with `available_tokens` left by a left-endpoint Riemann sum of
/// `PRICE_STEPS` equal steps. Step `i` starts `i * step_amount` units into
/// the curve, and its unit price rises exponentially with the depleted share
/// `(available_tokens - remaining_i) / available_tokens`, where `remaining_i`
/// is what is left at that offset. This type computes the integer inputs of
/// every step; the exponential itself is evaluated by the host.
#[derive(Clone, Copy, Debug, Default, PartialEq, Eq, Structural)]
pub struct BongingCurve;

/// The size of one step of a trade of `amount` raw units.
pub open spec fn step_size(amount: u128) -> int {
    amount as int / PRICE_STEPS as int
}

/// How far into the curve step `i` starts.
pub open spec fn step_offset(amount: u128, i: int) -> int {
    i * step_size(amount)
}

/// The supply left at the start of step `i`, never below zero.
pub open spec fn remaining_at(amount: u128, available_tokens: u128, i: int) -> int {
    if step_offset(amount, i) >= available_tokens {
        0
    } else {
        available_tokens - step_offset(amount, i)
    }
}

/// The part of the supply already consumed at the start of step `i`; the
/// unit price of that step is `base * e^(20 * depleted / available_tokens)`.
pub open spec fn depleted_at(amount: u128, available_tokens: u128, i: int) -> int {
    available_tokens - remaining_at(amount, available_tokens, i)
}

impl BongingCurve {
    /// The raw units priced by each step.
    pub fn step_amount(amount: u128) -> (r: u128)
        ensures
            r == step_size(amount),
    {
        amount / PRICE_STEPS
    }

    /// The supply remaining at the left endpoint of each step, in step order.
    pub fn step_remaining_supply(amount: u128, available_tokens: u128) -> (r: Vec<u128>)
        ensures
            r@.len() == PRICE_STEPS,
            forall|i: int|
                0 <= i < PRICE_STEPS ==> #[trigger] r@[i] == remaining_at(amount, available_tokens, i),
    {
        let step = Self::step_amount(amount);
        let mut r: Vec<u128> = Vec::new();
        let mut i: u128 = 0;
        while i < PRICE_STEPS
            invariant
                i <= PRICE_STEPS,
                step == step_size(amount),
                r@.len() == i,
                forall|j: int| 0 <= j < i ==> #[trigger] r@[j] == remaining_at(amount, available_tokens, j),
            decreases PRICE_STEPS - i,
        {
            assert(i * step <= amount) by (nonlinear_arith)
                requires
                    i < 10,
                    step == amount as int / 10,
            ;
            let offset = i * step;
            let remaining = if offset >= available_tokens {
                0
            } else {
                available_tokens - offset
            };
            r.push(remaining);
            i = i + 1;
        }
        r
    }
}

/// A larger trade never leaves more supply at any step: every step of the
/// larger trade is priced at least as deep into the curve.
pub proof fn lemma_remaining_antitone_in_amount(amount1: u128, amount2: u128, available_tokens: u128, i: int)
    requires
        amount1 <= amount2,
        0 <= i < PRICE_STEPS,
    ensures
        remaining_at(amount2, available_tokens, i) <= remaining_at(amount1, available_tokens, i),
        step_size(amount1) <= step_size(amount2),
{
    assert(step_size(amount1) <= step_size(amount2)) by (nonlinear_arith)
        requires
            amount1 <= amount2,
    ;
    assert(step_offset(amount1, i) <= step_offset(amount2, i)) by (nonlinear_arith)
        requires
            step_size(amount1) <= step_size(amount2),
            0 <= i,
    ;
}

/// With less supply available the depleted share of the supply is at least
/// as large at every step of the same trade:
/// `depleted1 / available1 >= depleted2 / available2`, written crosswise.
pub proof fn lemma_depleted_share_scarcity(amount: u128, available1: u128, available2: u128, i: int)
    requires
        0 < available1 < available2,
        0 <= i < PRICE_STEPS,
    ensures
        depleted_at(amount, available1, i) * available2 >= depleted_at(amount, available2, i) * available1,
{
    let x = step_offset(amount, i);
    assert(x >= 0) by (nonlinear_arith)
        requires
            0 <= i,
            step_size(amount) >= 0,
            x == i * step_size(amount),
    ;
    let d1 = depleted_at(amount, available1, i);
    let d2 = depleted_at(amount, available2, i);
    let a1 = available1 as int;
    let a2 = available2 as int;
    if x >= a2 {
        assert(d1 == a1 && d2 == a2);
        assert(d1 * a2 == d2 * a1) by (nonlinear_arith)
            requires
                d1 == a1,
                d2 == a2,
        ;
    } else if x >= a1 {
        assert(d1 == a1 && d2 == x);
        assert(d1 * a2 >= d2 * a1) by (nonlinear_arith)
            requires
                d1 == a1,
                d2 == x,
                x < a2,
                a1 > 0,
        ;
    } else {
        assert(d1 == x && d2 == x);
        assert(d1 * a2 >= d2 * a1) by (nonlinear_arith)
            requires
                d1 == x,
                d2 == x,
                x >= 0,
                a1 < a2,
        ;
    }
}

} // verus!
