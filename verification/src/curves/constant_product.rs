//! Constant-product curve: the invariant `x * y = k`.
//!
//! A swap keeps the product of the two reserves from decreasing.  The
//! destination reserve after a swap is the old product divided by the
//! grown source reserve, rounded up in the pool's favor; the source
//! amount actually taken is then trimmed to the least amount that still
//! buys the computed output.

use vstd::prelude::*;
use vstd::arithmetic::div_mod::{lemma_fundamental_div_mod, lemma_mod_multiples_basic};
use crate::errors::SwapError;
use crate::math::{
    ceil_div_back, ceil_div_int, checked_ceil_div, pow256, sqrt_ceil, sqrt_floor,
    lemma_sqrt_floor_bounds, lemma_sqrt_floor_monotonic, lemma_sqrt_floor_unique,
    lemma_wide_range, wide_add_checked, wide_ceil_div, wide_divmod, wide_isqrt, wide_mul, Wide,
};
use crate::curves::calculator::{
    map_zero_to_none, RoundDirection, SwapWithoutFeesResult, TradeDirection, TradingTokenResult,
    INITIAL_SWAP_POOL_AMOUNT,
};

verus! {

/// When a constant-product swap succeeds: the invariant and the grown
/// source reserve are computable in 128 bits, the rounded-up new
/// destination reserve is positive, and at least one destination token
/// comes out.
pub open spec fn swap_ok(
    source_amount: u128,
    swap_source_amount: u128,
    swap_destination_amount: u128,
) -> bool {
    &&& swap_source_amount * swap_destination_amount <= u128::MAX
    &&& swap_source_amount + source_amount <= u128::MAX
    &&& swap_source_amount + source_amount >= 1
    &&& (swap_source_amount * swap_destination_amount) / (swap_source_amount + source_amount) >= 1
    &&& ceil_div_int(
        swap_source_amount * swap_destination_amount,
        swap_source_amount + source_amount,
    ) < swap_destination_amount
}

/// Destination reserve after a successful swap: the invariant divided by
/// the grown source reserve, rounded up so the pool keeps the dust.
pub open spec fn swap_new_destination(
    source_amount: u128,
    swap_source_amount: u128,
    swap_destination_amount: u128,
) -> int {
    ceil_div_int(
        swap_source_amount * swap_destination_amount,
        swap_source_amount + source_amount,
    )
}

/// Source reserve after a successful swap: the least reserve that still
/// yields the computed destination reserve, so the trader is never
/// charged for more than the output is worth.
pub open spec fn swap_new_source(
    source_amount: u128,
    swap_source_amount: u128,
    swap_destination_amount: u128,
) -> int {
    ceil_div_back(
        swap_source_amount * swap_destination_amount,
        swap_source_amount + source_amount,
    )
}

/// Range facts about a successful swap: the new destination reserve
/// stays within the old one, and the new source reserve lies between the
/// old reserve and the grown one.
pub proof fn lemma_swap_bounds(source_amount: u128, x: u128, y: u128)
    requires
        x * y <= u128::MAX,
        x + source_amount <= u128::MAX,
        x + source_amount >= 1,
        (x * y) / (x + source_amount) >= 1,
    ensures
        1 <= ceil_div_int(x * y, x + source_amount) <= y,
        x <= ceil_div_back(x * y, x + source_amount) <= x + source_amount,
        ceil_div_int(x * y, x + source_amount) < y ==> source_amount >= 1,
{
    let inv = x * y;
    let n = x + source_amount;
    let q = inv / n;
    let rem = inv % n;
    lemma_fundamental_div_mod(inv, n);
    assert(x >= 1 && y >= 1) by (nonlinear_arith)
        requires
            inv == q * n + rem,
            q >= 1,
            rem >= 0,
            n >= 1,
            inv == x * y,
            x >= 0,
            y >= 0,
    ;
    assert(inv <= n * y) by (nonlinear_arith)
        requires
            inv == x * y,
            x <= n,
            y >= 0,
    ;
    if rem == 0 {
        // Exact division: the pair is (q, n) and nothing moves.
        assert(q <= y) by (nonlinear_arith)
            requires
                inv == q * n,
                inv <= n * y,
                n >= 1,
                q >= 0,
                y >= 0,
        ;
        assert(ceil_div_int(inv, n) == q);
        assert(ceil_div_back(inv, n) == n);
        if q < y {
            // q * n == x * y with q <= y - 1 forces n > x.
            assert(n > x) by (nonlinear_arith)
                requires
                    inv == q * n,
                    inv == x * y,
                    q + 1 <= y,
                    n >= 1,
                    x >= 1,
                    y >= 1,
                    q >= 1,
            ;
        }
    } else {
        let d = q + 1;
        assert(ceil_div_int(inv, n) == d);
        // A non-exact division means the grown reserve is not the old
        // one, since the old reserve always divides the invariant.
        if n == x {
            lemma_mod_multiples_basic(y as int, x as int);
            assert(y * x == x * y) by (nonlinear_arith);
            assert(false);
        }
        assert(n >= x + 1);
        assert(source_amount >= 1);
        // d <= y: otherwise the invariant would exceed itself.
        assert(q + 1 <= y) by (nonlinear_arith)
            requires
                inv == q * n + rem,
                inv == x * y,
                n >= x + 1,
                0 < rem < n,
                q >= 1,
                x >= 1,
                y >= 1,
        ;
        // The trimmed source reserve: ceil(inv / d).
        let q2 = inv / d;
        let r2 = inv % d;
        lemma_fundamental_div_mod(inv, d);
        let back = ceil_div_int(inv, d);
        assert(ceil_div_back(inv, n) == back);
        assert(back == q2 + if r2 == 0 { 0int } else { 1int });
        // back >= x because d <= y.
        assert(q2 * d + r2 == inv && inv == x * y && d <= y);
        assert(back >= x) by (nonlinear_arith)
            requires
                q2 * d + r2 == inv,
                inv == x * y,
                1 <= d <= y,
                0 <= r2 < d,
                x >= 1,
                y >= 1,
                q2 >= 0,
                back == q2 + if r2 == 0 { 0int } else { 1int },
        ;
        // back <= n because n * d covers the invariant.
        assert(n * d >= inv) by (nonlinear_arith)
            requires
                inv == q * n + rem,
                d == q + 1,
                0 <= rem < n,
                n >= 1,
        ;
        assert(back <= n) by (nonlinear_arith)
            requires
                q2 * d + r2 == inv,
                0 <= r2 < d,
                n * d >= inv,
                back == q2 + if r2 == 0 { 0int } else { 1int },
                d >= 1,
                n >= 1,
        ;
    }
}

/// Calculates the swap amounts for a source deposit against the
/// invariant, symmetric in direction.
pub fn swap(
    source_amount: u128,
    swap_source_amount: u128,
    swap_destination_amount: u128,
) -> (r: Option<SwapWithoutFeesResult>)
    ensures
        r is Some <==> swap_ok(source_amount, swap_source_amount, swap_destination_amount),
        r is Some ==> r->0.source_amount_swapped == swap_new_source(
            source_amount,
            swap_source_amount,
            swap_destination_amount,
        ) - swap_source_amount,
        r is Some ==> r->0.destination_amount_swapped == swap_destination_amount
            - swap_new_destination(source_amount, swap_source_amount, swap_destination_amount),
{
    let invariant_value = match swap_source_amount.checked_mul(swap_destination_amount) {
        Some(v) => v,
        None => {
            return None;
        },
    };
    let new_source_amount = match swap_source_amount.checked_add(source_amount) {
        Some(v) => v,
        None => {
            return None;
        },
    };
    let (new_destination_amount, new_source_back) = match checked_ceil_div(
        invariant_value,
        new_source_amount,
    ) {
        Some(p) => p,
        None => {
            return None;
        },
    };
    proof {
        lemma_swap_bounds(source_amount, swap_source_amount, swap_destination_amount);
    }
    let source_amount_swapped = new_source_back - swap_source_amount;
    let destination_amount_swapped = match map_zero_to_none(
        swap_destination_amount - new_destination_amount,
    ) {
        Some(v) => v,
        None => {
            return None;
        },
    };
    Some(
        SwapWithoutFeesResult {
            source_amount_swapped,
            destination_amount_swapped,
        },
    )
}

/// A successful swap never shrinks the invariant, and grows the
/// normalized pool value by at most one token: with `P` the product of
/// the reserves after the swap, `P` is at least the old product and its
/// floored square root exceeds the old one by at most one.
pub proof fn lemma_swap_preserves_value(source_amount: u128, x: u128, y: u128)
    requires
        swap_ok(source_amount, x, y),
    ensures
        swap_new_source(source_amount, x, y) * swap_new_destination(source_amount, x, y) >= x * y,
        sqrt_floor(swap_new_source(source_amount, x, y) * swap_new_destination(source_amount, x, y))
            >= sqrt_floor(x * y),
        sqrt_floor(swap_new_source(source_amount, x, y) * swap_new_destination(source_amount, x, y))
            <= sqrt_floor(x * y) + 1,
{
    let inv = x * y;
    let n = x + source_amount;
    let q = inv / n;
    let rem = inv % n;
    let d = swap_new_destination(source_amount, x, y);
    let b = swap_new_source(source_amount, x, y);
    let p = b * d;
    lemma_swap_bounds(source_amount, x, y);
    lemma_fundamental_div_mod(inv, n);
    if rem == 0 {
        assert(d == q && b == n);
        assert(inv == n * q + rem);
        assert(p == n * q);
        assert(p == inv);
        lemma_sqrt_floor_bounds(inv);
    } else {
        assert(d == q + 1);
        let q2 = inv / d;
        let r2 = inv % d;
        lemma_fundamental_div_mod(inv, d);
        assert(b == q2 + if r2 == 0 { 0int } else { 1int });
        // The product covers the invariant and overshoots it by less
        // than either factor.
        assert(p >= inv && p < inv + d && p < inv + b) by (nonlinear_arith)
            requires
                p == b * d,
                q2 * d + r2 == inv,
                b == q2 + if r2 == 0 { 0int } else { 1int },
                0 <= r2 < d,
                inv == q * n + rem,
                d == q + 1,
                0 < rem < n,
                b <= n,
                d >= 1,
                n >= 1,
        ;
        let s = sqrt_floor(inv);
        let t = sqrt_floor(p);
        lemma_sqrt_floor_bounds(inv);
        lemma_sqrt_floor_bounds(p);
        lemma_sqrt_floor_monotonic(inv, p);
        // The smaller factor is at most the root of the product.
        assert(b <= t || d <= t) by (nonlinear_arith)
            requires
                p == b * d,
                p < (t + 1) * (t + 1),
                t >= 0,
                b >= 1,
                d >= 1,
        ;
        // So p <= inv + t, which pins the root to at most s + 1.
        assert(t <= s + 1) by (nonlinear_arith)
            requires
                t * t <= p,
                p < inv + t + 1,
                inv < (s + 1) * (s + 1),
                s >= 0,
                t >= 0,
        ;
    }
}

/// Share of a reserve matching `pool_tokens`, rounded down.
pub open spec fn floor_share(pool_tokens: u128, reserve: u128, supply: u128) -> int {
    (pool_tokens * reserve) / (supply as int)
}

/// Share of a reserve matching `pool_tokens`, rounded up.
pub open spec fn ceiling_share(pool_tokens: u128, reserve: u128, supply: u128) -> int {
    ceil_div_int(pool_tokens * reserve, supply as int)
}

/// A share small enough to floor to zero while leaving a remainder is
/// dust: rounding it up would overcharge, keeping it at zero would
/// mint shares against nothing, so the ceiling conversion refuses it.
pub open spec fn share_not_dust(pool_tokens: u128, reserve: u128, supply: u128) -> bool {
    floor_share(pool_tokens, reserve, supply) != 0 || (pool_tokens * reserve) % (supply as int)
        == 0
}

/// When a proportional conversion succeeds: a live supply and products
/// that fit in 128 bits.
pub open spec fn trading_tokens_ok(
    pool_tokens: u128,
    swap_token_a_amount: u128,
    swap_token_b_amount: u128,
    pool_token_supply: u128,
) -> bool {
    &&& pool_token_supply >= 1
    &&& pool_tokens * swap_token_a_amount <= u128::MAX
    &&& pool_tokens * swap_token_b_amount <= u128::MAX
}

/// One rounded share of a reserve; a ceiling share refuses dust.
fn reserve_share(pool_tokens: u128, reserve: u128, supply: u128, ceiling: bool) -> (r: Option<u128>)
    requires
        supply >= 1,
    ensures
        r is Some <==> (pool_tokens * reserve <= u128::MAX && (ceiling ==> share_not_dust(
            pool_tokens,
            reserve,
            supply,
        ))),
        (r is Some && !ceiling) ==> r->0 == floor_share(pool_tokens, reserve, supply),
        (r is Some && ceiling) ==> r->0 == ceiling_share(pool_tokens, reserve, supply),
{
    let product = match pool_tokens.checked_mul(reserve) {
        Some(p) => p,
        None => {
            return None;
        },
    };
    let amount = product / supply;
    if ceiling {
        let remainder = product % supply;
        proof {
            lemma_fundamental_div_mod(product as int, supply as int);
        }
        if remainder > 0 {
            if amount == 0 {
                return None;
            }
            proof {
                assert(amount + 1 <= u128::MAX) by (nonlinear_arith)
                    requires
                        product == supply * amount + remainder,
                        0 < remainder < supply,
                        amount >= 1,
                        product <= u128::MAX,
                ;
            }
            Some(amount + 1)
        } else {
            Some(amount)
        }
    } else {
        Some(amount)
    }
}

/// Converts a pool-token amount into the matching amounts of the two
/// reserves, proportionally to the supply.
pub fn pool_tokens_to_trading_tokens(
    pool_tokens: u128,
    pool_token_supply: u128,
    swap_token_a_amount: u128,
    swap_token_b_amount: u128,
    round_direction: RoundDirection,
) -> (r: Option<TradingTokenResult>)
    ensures
        r is Some <==> (trading_tokens_ok(
            pool_tokens,
            swap_token_a_amount,
            swap_token_b_amount,
            pool_token_supply,
        ) && (round_direction is Ceiling ==> (share_not_dust(
            pool_tokens,
            swap_token_a_amount,
            pool_token_supply,
        ) && share_not_dust(pool_tokens, swap_token_b_amount, pool_token_supply)))),
        (r is Some && round_direction is Floor) ==> r->0.token_a_amount == floor_share(
            pool_tokens,
            swap_token_a_amount,
            pool_token_supply,
        ) && r->0.token_b_amount == floor_share(
            pool_tokens,
            swap_token_b_amount,
            pool_token_supply,
        ),
        (r is Some && round_direction is Ceiling) ==> r->0.token_a_amount == ceiling_share(
            pool_tokens,
            swap_token_a_amount,
            pool_token_supply,
        ) && r->0.token_b_amount == ceiling_share(
            pool_tokens,
            swap_token_b_amount,
            pool_token_supply,
        ),
{
    if pool_token_supply == 0 {
        return None;
    }
    let ceiling = match round_direction {
        RoundDirection::Floor => false,
        RoundDirection::Ceiling => true,
    };
    let token_a_amount = match reserve_share(
        pool_tokens,
        swap_token_a_amount,
        pool_token_supply,
        ceiling,
    ) {
        Some(v) => v,
        None => {
            return None;
        },
    };
    let token_b_amount = match reserve_share(
        pool_tokens,
        swap_token_b_amount,
        pool_token_supply,
        ceiling,
    ) {
        Some(v) => v,
        None => {
            return None;
        },
    };
    Some(TradingTokenResult { token_a_amount, token_b_amount })
}

/// A rounded-up deposit share keeps the per-token value from falling:
/// adding the share to the reserve while the supply grows by the
/// deposited pool tokens leaves `reserve / supply` no smaller.  The
/// dust hypothesis is exactly the ceiling conversion's success
/// condition, so the ratio holds at every `Some` it returns.
pub proof fn lemma_deposit_keeps_ratio(pool_tokens: u128, reserve: u128, supply: u128)
    requires
        supply >= 1,
        pool_tokens * reserve <= u128::MAX,
        share_not_dust(pool_tokens, reserve, supply),
    ensures
        (reserve + ceiling_share(pool_tokens, reserve, supply)) * supply >= reserve * (supply
            + pool_tokens),
{
    let pr = pool_tokens * reserve;
    let q = pr / (supply as int);
    let rem = pr % (supply as int);
    let t = ceiling_share(pool_tokens, reserve, supply);
    lemma_fundamental_div_mod(pr, supply as int);
    assert(t == q + if rem == 0 { 0int } else { 1int });
    assert(t * supply >= pr) by (nonlinear_arith)
        requires
            pr == (supply as int) * q + rem,
            0 <= rem < supply,
            t == q + if rem == 0 { 0int } else { 1int },
            supply >= 1,
    ;
    assert((reserve + t) * supply >= reserve * (supply + pool_tokens)) by (nonlinear_arith)
        requires
            t * supply >= pool_tokens * reserve,
            reserve >= 0,
            supply >= 0,
    ;
}

/// A rounded-down withdrawal share never hands out more than the
/// proportional amount: removing it while the supply shrinks by the
/// burned pool tokens leaves `reserve / supply` no smaller.
pub proof fn lemma_withdraw_keeps_ratio(pool_tokens: u128, reserve: u128, supply: u128)
    requires
        supply >= 1,
        pool_tokens <= supply,
        pool_tokens * reserve <= u128::MAX,
    ensures
        floor_share(pool_tokens, reserve, supply) <= reserve,
        (reserve - floor_share(pool_tokens, reserve, supply)) * supply >= reserve * (supply
            - pool_tokens),
{
    let pr = pool_tokens * reserve;
    let q = pr / (supply as int);
    let rem = pr % (supply as int);
    lemma_fundamental_div_mod(pr, supply as int);
    assert(q <= reserve && q * supply <= pr) by (nonlinear_arith)
        requires
            pr == (supply as int) * q + rem,
            pr == pool_tokens * reserve,
            0 <= rem < supply,
            pool_tokens <= supply,
            supply >= 1,
            reserve >= 0,
    ;
    assert((reserve - q) * supply >= reserve * (supply - pool_tokens)) by (nonlinear_arith)
        requires
            q * supply <= pool_tokens * reserve,
            reserve >= 0,
            supply >= 0,
    ;
}

/// The reserve on the side a single-sided operation touches.
pub open spec fn source_reserve(
    trade_direction: TradeDirection,
    swap_token_a_amount: u128,
    swap_token_b_amount: u128,
) -> u128 {
    match trade_direction {
        TradeDirection::AtoB => swap_token_a_amount,
        TradeDirection::BtoA => swap_token_b_amount,
    }
}

/// Square-root term of a single-sided deposit: the root of
/// `reserve * (reserve + source)`, rounded against the depositor.
pub open spec fn single_deposit_root(source: u128, reserve: u128, round: RoundDirection) -> int {
    match round {
        RoundDirection::Floor => sqrt_floor(reserve * (reserve + source)),
        RoundDirection::Ceiling => sqrt_ceil(reserve * (reserve + source)),
    }
}

/// Pool tokens minted for a single-sided deposit of `source` against
/// `reserve`, with `supply` outstanding: the Balancer single-asset
/// formula `supply * (sqrt(1 + source/reserve) - 1)`, evaluated exactly
/// over integers and rounded by `round`.
pub open spec fn single_deposit_pool_tokens(
    source: u128,
    reserve: u128,
    supply: u128,
    round: RoundDirection,
) -> int {
    let t = single_deposit_root(source, reserve, round);
    match round {
        RoundDirection::Floor => (supply * (t - reserve)) / (reserve as int),
        RoundDirection::Ceiling => ceil_div_int(supply * (t - reserve), reserve as int),
    }
}

/// When a single-sided deposit succeeds.
pub open spec fn single_deposit_ok(
    source: u128,
    reserve: u128,
    supply: u128,
    round: RoundDirection,
) -> bool {
    &&& reserve >= 1
    &&& reserve * (reserve + source) < pow256()
    &&& single_deposit_root(source, reserve, round) <= u128::MAX
    &&& single_deposit_pool_tokens(source, reserve, supply, round) <= u128::MAX
}

/// Pool tokens for a one-sided deposit, following the Balancer
/// single-asset formula.
pub fn deposit_single_token_type(
    source_amount: u128,
    swap_token_a_amount: u128,
    swap_token_b_amount: u128,
    pool_supply: u128,
    trade_direction: TradeDirection,
    round_direction: RoundDirection,
) -> (r: Option<u128>)
    ensures
        r is Some <==> single_deposit_ok(
            source_amount,
            source_reserve(trade_direction, swap_token_a_amount, swap_token_b_amount),
            pool_supply,
            round_direction,
        ),
        r is Some ==> r->0 == single_deposit_pool_tokens(
            source_amount,
            source_reserve(trade_direction, swap_token_a_amount, swap_token_b_amount),
            pool_supply,
            round_direction,
        ),
{
    let reserve = match trade_direction {
        TradeDirection::AtoB => swap_token_a_amount,
        TradeDirection::BtoA => swap_token_b_amount,
    };
    if reserve == 0 {
        return None;
    }
    let squared = wide_mul(reserve, reserve);
    let cross = wide_mul(reserve, source_amount);
    let product = match wide_add_checked(squared, cross) {
        Some(p) => p,
        None => {
            proof {
                assert(reserve * (reserve + source_amount) == reserve * reserve + reserve
                    * source_amount) by (nonlinear_arith);
            }
            return None;
        },
    };
    proof {
        assert(product.val() == reserve * (reserve + source_amount)) by (nonlinear_arith)
            requires
                product.val() == reserve * reserve + reserve * source_amount,
        ;
        lemma_wide_range(product);
    }
    let floor_root = wide_isqrt(product);
    proof {
        // The root is at least the reserve, since reserve^2 <= product.
        assert(reserve * reserve < (reserve + 1) * (reserve + 1)) by (nonlinear_arith)
            requires reserve >= 0;
        lemma_sqrt_floor_unique(reserve as int, (reserve * reserve) as int);
        assert(reserve * reserve <= product.val()) by (nonlinear_arith)
            requires
                product.val() == reserve * reserve + reserve * source_amount,
                reserve >= 0,
                source_amount >= 0,
        ;
        lemma_sqrt_floor_monotonic((reserve * reserve) as int, product.val());
    }
    let root = match round_direction {
        RoundDirection::Floor => floor_root,
        RoundDirection::Ceiling => {
            let sq = wide_mul(floor_root, floor_root);
            if sq.hi == product.hi && sq.lo == product.lo {
                floor_root
            } else if floor_root == u128::MAX {
                // The rounded-up root would not fit in 128 bits.
                return None;
            } else {
                floor_root + 1
            }
        },
    };
    let numerator = wide_mul(pool_supply, root - reserve);
    let quotient = match round_direction {
        RoundDirection::Floor => {
            let (q, _rem) = wide_divmod(numerator, Wide::from_u128(reserve));
            q
        },
        RoundDirection::Ceiling => wide_ceil_div(numerator, Wide::from_u128(reserve)),
    };
    quotient.to_u128()
}

/// Square-root term of a single-sided withdrawal: the root of
/// `reserve * (reserve - source)`, rounded against the withdrawer.
pub open spec fn single_withdraw_root(source: u128, reserve: u128, round: RoundDirection) -> int {
    match round {
        RoundDirection::Floor => sqrt_ceil(reserve * (reserve - source)),
        RoundDirection::Ceiling => sqrt_floor(reserve * (reserve - source)),
    }
}

/// Pool tokens burned to withdraw exactly `source` from `reserve`, with
/// `supply` outstanding: the inverse Balancer single-asset formula
/// `supply * (1 - sqrt(1 - source/reserve))`, evaluated exactly over
/// integers and rounded by `round`.
pub open spec fn single_withdraw_pool_tokens(
    source: u128,
    reserve: u128,
    supply: u128,
    round: RoundDirection,
) -> int {
    let t = single_withdraw_root(source, reserve, round);
    match round {
        RoundDirection::Floor => (supply * (reserve - t)) / (reserve as int),
        RoundDirection::Ceiling => ceil_div_int(supply * (reserve - t), reserve as int),
    }
}

/// When a single-sided withdrawal succeeds: the reserve is live and
/// covers the requested output.
pub open spec fn single_withdraw_ok(source: u128, reserve: u128) -> bool {
    reserve >= 1 && source <= reserve
}

/// Pool tokens that must be burned to take an exact one-sided output,
/// following the inverse Balancer single-asset formula.
pub fn withdraw_single_token_type_exact_out(
    source_amount: u128,
    swap_token_a_amount: u128,
    swap_token_b_amount: u128,
    pool_supply: u128,
    trade_direction: TradeDirection,
    round_direction: RoundDirection,
) -> (r: Option<u128>)
    ensures
        r is Some <==> single_withdraw_ok(
            source_amount,
            source_reserve(trade_direction, swap_token_a_amount, swap_token_b_amount),
        ),
        r is Some ==> r->0 == single_withdraw_pool_tokens(
            source_amount,
            source_reserve(trade_direction, swap_token_a_amount, swap_token_b_amount),
            pool_supply,
            round_direction,
        ),
{
    let reserve = match trade_direction {
        TradeDirection::AtoB => swap_token_a_amount,
        TradeDirection::BtoA => swap_token_b_amount,
    };
    if reserve == 0 {
        return None;
    }
    if source_amount > reserve {
        return None;
    }
    let remaining = reserve - source_amount;
    let product = wide_mul(reserve, remaining);
    proof {
        lemma_wide_range(product);
        assert(reserve * reserve < (reserve + 1) * (reserve + 1)) by (nonlinear_arith)
            requires reserve >= 0;
        lemma_sqrt_floor_unique(reserve as int, (reserve * reserve) as int);
        assert(product.val() <= reserve * reserve) by (nonlinear_arith)
            requires
                product.val() == reserve * remaining,
                0 <= remaining <= reserve,
        ;
        lemma_sqrt_floor_monotonic(product.val(), (reserve * reserve) as int);
        lemma_sqrt_floor_bounds(product.val());
    }
    let floor_root = wide_isqrt(product);
    let root = match round_direction {
        RoundDirection::Ceiling => floor_root,
        RoundDirection::Floor => {
            let sq = wide_mul(floor_root, floor_root);
            if sq.hi == product.hi && sq.lo == product.lo {
                floor_root
            } else {
                // Not a perfect square, so the floored root is strictly
                // below the reserve and rounding up stays within it.
                proof {
                    assert(floor_root < reserve);
                }
                floor_root + 1
            }
        },
    };
    proof {
        assert(root <= reserve);
    }
    let numerator = wide_mul(pool_supply, reserve - root);
    let quotient = match round_direction {
        RoundDirection::Floor => {
            let (q, _rem) = wide_divmod(numerator, Wide::from_u128(reserve));
            q
        },
        RoundDirection::Ceiling => wide_ceil_div(numerator, Wide::from_u128(reserve)),
    };
    // The result never exceeds the supply, so it always fits.
    proof {
        lemma_fundamental_div_mod(numerator.val(), reserve as int);
        assert(quotient.val() <= pool_supply) by (nonlinear_arith)
            requires
                numerator.val() == pool_supply * (reserve - root),
                numerator.val() == (reserve as int) * (numerator.val() / (reserve as int)) + (
                numerator.val() % (reserve as int)),
                0 <= numerator.val() % (reserve as int) < reserve,
                0 <= reserve - root <= reserve,
                reserve >= 1,
                pool_supply >= 0,
                quotient.val() == numerator.val() / (reserve as int) + if numerator.val() % (
                reserve as int) == 0 { 0int } else { 1int } || quotient.val() == numerator.val() / (
                reserve as int),
        ;
    }
    match quotient.to_u128() {
        Some(v) => Some(v),
        None => {
            // Unreachable: the quotient was just shown to fit.
            proof {
                assert(false);
            }
            None
        },
    }
}

/// A single-sided deposit never mints more than the half-proportional
/// share `supply * source / (2 * reserve)`: half the deposit is
/// notionally swapped away, so the whole of it can never buy the full
/// proportional share.  This is the provable upper half of the
/// swap-then-deposit equivalence; the two-sided closeness itself is
/// exercised by tests.
pub proof fn lemma_single_deposit_at_most_half_share(source: u128, reserve: u128, supply: u128)
    requires
        reserve >= 1,
    ensures
        2 * reserve * single_deposit_pool_tokens(source, reserve, supply, RoundDirection::Floor)
            <= supply * source,
{
    let product = reserve * (reserve + source);
    let t = sqrt_floor(product);
    lemma_sqrt_floor_bounds(product);
    // The root stays below the reserve plus half the deposit:
    // 4 * reserve * (reserve + source) <= (2 * reserve + source)^2.
    assert(2 * t <= 2 * reserve + source) by (nonlinear_arith)
        requires
            t * t <= product,
            product == reserve * (reserve + source),
            t >= 0,
            reserve >= 0,
            source >= 0,
    ;
    let numerator = supply * (t - reserve);
    let p = numerator / (reserve as int);
    lemma_fundamental_div_mod(numerator, reserve as int);
    // The root is at least the reserve, so nothing here is negative.
    assert(reserve * reserve < (reserve + 1) * (reserve + 1)) by (nonlinear_arith)
        requires reserve >= 0;
    lemma_sqrt_floor_unique(reserve as int, (reserve * reserve) as int);
    assert(reserve * reserve <= product) by (nonlinear_arith)
        requires
            product == reserve * (reserve + source),
            reserve >= 0,
            source >= 0,
    ;
    lemma_sqrt_floor_monotonic((reserve * reserve) as int, product);
    assert(2 * reserve * p <= supply * source) by (nonlinear_arith)
        requires
            numerator == (reserve as int) * p + numerator % (reserve as int),
            numerator == supply * (t - reserve),
            0 <= numerator % (reserve as int),
            2 * (t - reserve) <= source,
            t >= reserve,
            reserve >= 1,
            supply >= 0,
    ;
}

/// A single-sided exact-out withdrawal always burns at least the
/// half-proportional share `supply * source / (2 * reserve)`: half the
/// output is notionally bought in a swap, so the exact output can never
/// cost less than the proportional half.  The provable lower half of
/// the withdraw-then-swap equivalence.
pub proof fn lemma_single_withdraw_at_least_half_share(source: u128, reserve: u128, supply: u128)
    requires
        single_withdraw_ok(source, reserve),
    ensures
        2 * reserve * single_withdraw_pool_tokens(source, reserve, supply, RoundDirection::Ceiling)
            >= supply * source,
{
    let product = reserve * (reserve - source);
    let t = sqrt_floor(product);
    lemma_sqrt_floor_bounds(product);
    assert(product >= 0) by (nonlinear_arith)
        requires
            product == reserve * (reserve - source),
            0 <= source <= reserve,
    ;
    // The root stays below the reserve minus half the output:
    // 4 * reserve * (reserve - source) <= (2 * reserve - source)^2.
    assert(2 * t <= 2 * reserve - source) by (nonlinear_arith)
        requires
            t * t <= product,
            product == reserve * (reserve - source),
            t >= 0,
            0 <= source <= reserve,
    ;
    let numerator = supply * (reserve - t);
    let p = ceil_div_int(numerator, reserve as int);
    lemma_fundamental_div_mod(numerator, reserve as int);
    assert(2 * reserve * p >= supply * source) by (nonlinear_arith)
        requires
            numerator == (reserve as int) * (numerator / (reserve as int)) + numerator % (
            reserve as int),
            p == numerator / (reserve as int) + if numerator % (reserve as int) == 0 {
                0int
            } else {
                1int
            },
            numerator == supply * (reserve - t),
            0 <= numerator % (reserve as int) < reserve,
            2 * (reserve - t) >= source,
            0 <= t <= reserve,
            reserve >= 1,
            supply >= 0,
    ;
}

/// Total pool worth in token units: the geometric mean of the reserves,
/// rounded down.
pub open spec fn normalized_value_spec(swap_token_a_amount: u128, swap_token_b_amount: u128) -> int {
    sqrt_floor(swap_token_a_amount * swap_token_b_amount)
}

/// Geometric mean of the two reserves, the scalar worth of the pool.
pub fn normalized_value(swap_token_a_amount: u128, swap_token_b_amount: u128) -> (r: Option<u128>)
    ensures
        r is Some,
        r->0 == normalized_value_spec(swap_token_a_amount, swap_token_b_amount),
{
    let product = wide_mul(swap_token_a_amount, swap_token_b_amount);
    Some(wide_isqrt(product))
}

/// Uniswap-style curve: the product of the reserves is invariant.
#[derive(Clone, Copy, Debug, Default, PartialEq, Eq, Structural)]
pub struct ConstantProductCurve {}

impl ConstantProductCurve {
    /// Swap quote without fees; the direction does not matter because
    /// the formula is symmetric in the two reserves.
    pub fn swap_without_fees(
        &self,
        source_amount: u128,
        swap_source_amount: u128,
        swap_destination_amount: u128,
        _trade_direction: TradeDirection,
    ) -> (r: Option<SwapWithoutFeesResult>)
        ensures
            r is Some <==> swap_ok(source_amount, swap_source_amount, swap_destination_amount),
            r is Some ==> r->0.source_amount_swapped == swap_new_source(
                source_amount,
                swap_source_amount,
                swap_destination_amount,
            ) - swap_source_amount,
            r is Some ==> r->0.destination_amount_swapped == swap_destination_amount
                - swap_new_destination(source_amount, swap_source_amount, swap_destination_amount),
    {
        swap(source_amount, swap_source_amount, swap_destination_amount)
    }

    /// Proportional conversion of pool tokens into both reserves.
    pub fn pool_tokens_to_trading_tokens(
        &self,
        pool_tokens: u128,
        pool_token_supply: u128,
        swap_token_a_amount: u128,
        swap_token_b_amount: u128,
        round_direction: RoundDirection,
    ) -> (r: Option<TradingTokenResult>)
        ensures
            r is Some <==> (trading_tokens_ok(
                pool_tokens,
                swap_token_a_amount,
                swap_token_b_amount,
                pool_token_supply,
            ) && (round_direction is Ceiling ==> (share_not_dust(
                pool_tokens,
                swap_token_a_amount,
                pool_token_supply,
            ) && share_not_dust(pool_tokens, swap_token_b_amount, pool_token_supply)))),
            (r is Some && round_direction is Floor) ==> r->0.token_a_amount == floor_share(
                pool_tokens,
                swap_token_a_amount,
                pool_token_supply,
            ) && r->0.token_b_amount == floor_share(
                pool_tokens,
                swap_token_b_amount,
                pool_token_supply,
            ),
            (r is Some && round_direction is Ceiling) ==> r->0.token_a_amount == ceiling_share(
                pool_tokens,
                swap_token_a_amount,
                pool_token_supply,
            ) && r->0.token_b_amount == ceiling_share(
                pool_tokens,
                swap_token_b_amount,
                pool_token_supply,
            ),
    {
        pool_tokens_to_trading_tokens(
            pool_tokens,
            pool_token_supply,
            swap_token_a_amount,
            swap_token_b_amount,
            round_direction,
        )
    }

    /// Pool tokens for a one-sided deposit, floored in the pool's favor.
    pub fn deposit_single_token_type(
        &self,
        source_amount: u128,
        swap_token_a_amount: u128,
        swap_token_b_amount: u128,
        pool_supply: u128,
        trade_direction: TradeDirection,
    ) -> (r: Option<u128>)
        ensures
            r is Some <==> single_deposit_ok(
                source_amount,
                source_reserve(trade_direction, swap_token_a_amount, swap_token_b_amount),
                pool_supply,
                RoundDirection::Floor,
            ),
            r is Some ==> r->0 == single_deposit_pool_tokens(
                source_amount,
                source_reserve(trade_direction, swap_token_a_amount, swap_token_b_amount),
                pool_supply,
                RoundDirection::Floor,
            ),
    {
        deposit_single_token_type(
            source_amount,
            swap_token_a_amount,
            swap_token_b_amount,
            pool_supply,
            trade_direction,
            RoundDirection::Floor,
        )
    }

    /// Pool tokens burned for an exact one-sided output.
    pub fn withdraw_single_token_type_exact_out(
        &self,
        source_amount: u128,
        swap_token_a_amount: u128,
        swap_token_b_amount: u128,
        pool_supply: u128,
        trade_direction: TradeDirection,
        round_direction: RoundDirection,
    ) -> (r: Option<u128>)
        ensures
            r is Some <==> single_withdraw_ok(
                source_amount,
                source_reserve(trade_direction, swap_token_a_amount, swap_token_b_amount),
            ),
            r is Some ==> r->0 == single_withdraw_pool_tokens(
                source_amount,
                source_reserve(trade_direction, swap_token_a_amount, swap_token_b_amount),
                pool_supply,
                round_direction,
            ),
    {
        withdraw_single_token_type_exact_out(
            source_amount,
            swap_token_a_amount,
            swap_token_b_amount,
            pool_supply,
            trade_direction,
            round_direction,
        )
    }

    /// Constant-product parameters are always valid.
    pub fn validate(&self) -> (r: Result<(), SwapError>)
        ensures
            r is Ok,
    {
        Ok(())
    }

    /// Both reserves must be funded at pool creation.
    pub fn validate_supply(&self, token_a_amount: u64, token_b_amount: u64) -> (r: Result<
        (),
        SwapError,
    >)
        ensures
            r is Ok <==> (token_a_amount > 0 && token_b_amount > 0),
            r is Err ==> r->Err_0 == SwapError::EmptySupply,
    {
        if token_a_amount == 0 {
            return Err(SwapError::EmptySupply);
        }
        if token_b_amount == 0 {
            return Err(SwapError::EmptySupply);
        }
        Ok(())
    }

    /// Deposits are always welcome on this curve.
    pub fn allows_deposits(&self) -> (r: bool)
        ensures
            r,
    {
        true
    }

    /// Fixed initial supply for a new pool.
    pub fn new_pool_supply(&self) -> (r: u128)
        ensures
            r == INITIAL_SWAP_POOL_AMOUNT,
    {
        INITIAL_SWAP_POOL_AMOUNT
    }

    /// Geometric mean of the reserves.
    pub fn normalized_value(&self, swap_token_a_amount: u128, swap_token_b_amount: u128) -> (r:
        Option<u128>)
        ensures
            r is Some,
            r->0 == normalized_value_spec(swap_token_a_amount, swap_token_b_amount),
    {
        normalized_value(swap_token_a_amount, swap_token_b_amount)
    }
}

} // verus!
