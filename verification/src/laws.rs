use vstd::prelude::*;
use vstd::arithmetic::div_mod::{
    lemma_div_multiples_vanish, lemma_div_pos_is_pos, lemma_fundamental_div_mod,
    lemma_mod_division_less_than_divisor, lemma_multiply_divide_lt,
};
use vstd::arithmetic::mul::lemma_mul_nonnegative;

use crate::contract::{
    add_liquidity_spec, mint_amount_spec, native_out_spec, remove_liquidity_spec,
    token_amount_spec, token_out_spec,
};
use crate::error::ContractError;
use crate::state::State;

verus! {

/// Bootstrap correctness: the first deposit on an empty pool (zero share
/// supply) is credited exactly one share per native unit deposited, and locks
/// exactly the paired-token cap the depositor offered — the first depositor
/// sets the pool's initial price.
pub proof fn lemma_bootstrap(deposit: int, native_reserve: int, token_reserve: int, max_token: int)
    ensures
        mint_amount_spec(deposit, 0, native_reserve) == deposit,
        token_amount_spec(deposit, 0, native_reserve, token_reserve, max_token) == max_token,
{
}

/// Proportionality: once the pool has a share supply, a deposit never mints
/// more shares than the proportional formula allows, and is never charged
/// fewer paired tokens than the proportional cost — rounding always favours
/// the existing holders.
pub proof fn lemma_proportionality(
    deposit: int,
    supply: int,
    native_reserve: int,
    token_reserve: int,
    max_token: int,
)
    requires
        supply > 0,
    ensures
        mint_amount_spec(deposit, supply, native_reserve) <= deposit * supply / native_reserve,
        token_amount_spec(deposit, supply, native_reserve, token_reserve, max_token) >= deposit
            * token_reserve / native_reserve,
{
}

/// Round-trip conservation: a deposit followed immediately by a withdrawal of
/// exactly the minted shares returns at most the native amount and at most the
/// paired-token amount that the deposit brought in — floor rounding on both
/// legs always favours the pool, never the round-tripping caller.
///
/// `deposit` native units enter a pool with share supply `supply`, native
/// reserve `native_reserve` and paired-token reserve `token_reserve`;
/// `max_token` is the depositor's paired-token cap, which on an empty pool is
/// the amount actually locked. An empty pool has empty reserves (reserves and
/// shares move in lock-step), a funded pool has a positive native reserve (it
/// was funded), and for the withdrawal to divide at all, the share supply
/// after the deposit must be positive — on an empty pool the deposit itself
/// must be.
pub proof fn lemma_round_trip(
    deposit: int,
    supply: int,
    native_reserve: int,
    token_reserve: int,
    max_token: int,
)
    requires
        deposit >= 0,
        supply >= 0,
        native_reserve >= 0,
        token_reserve >= 0,
        max_token >= 0,
        supply == 0 ==> native_reserve == 0 && token_reserve == 0 && deposit > 0,
        supply > 0 ==> native_reserve > 0,
    ensures
        ({
            let minted = mint_amount_spec(deposit, supply, native_reserve);
            let locked = token_amount_spec(
                deposit,
                supply,
                native_reserve,
                token_reserve,
                max_token,
            );
            &&& native_out_spec(minted, supply + minted, native_reserve + deposit) <= deposit
            &&& token_out_spec(minted, supply + minted, token_reserve + locked) <= locked
        }),
{
    let minted = mint_amount_spec(deposit, supply, native_reserve);
    let locked = token_amount_spec(deposit, supply, native_reserve, token_reserve, max_token);
    if supply == 0 {
        // minted == deposit, locked == max_token, and both reserves are empty:
        // the withdrawal divides deposit * deposit by deposit, and
        // deposit * max_token by deposit.
        lemma_div_multiples_vanish(deposit, deposit);
        lemma_div_multiples_vanish(max_token, deposit);
    } else {
        let share_product = deposit * supply;
        let token_product = deposit * token_reserve;
        lemma_mul_nonnegative(deposit, supply);
        lemma_mul_nonnegative(deposit, token_reserve);
        lemma_fundamental_div_mod(share_product, native_reserve);
        lemma_mod_division_less_than_divisor(share_product, native_reserve);
        lemma_fundamental_div_mod(token_product, native_reserve);
        lemma_mod_division_less_than_divisor(token_product, native_reserve);
        lemma_div_pos_is_pos(share_product, native_reserve);
        lemma_div_pos_is_pos(token_product, native_reserve);
        // Rounding down never over-mints: minted * native_reserve stays under
        // the exact product. Rounding up never under-charges: locked covers
        // the exact product with one unit to spare.
        assert(minted * native_reserve <= share_product) by (nonlinear_arith)
            requires
                share_product == native_reserve * minted + share_product % native_reserve,
                share_product % native_reserve >= 0,
        ;
        assert(locked * native_reserve >= token_product + 1) by (nonlinear_arith)
            requires
                token_product == native_reserve * (locked - 1) + token_product % native_reserve,
                token_product % native_reserve < native_reserve,
        ;
        // Native side: what the minted shares can draw from the grown pool is
        // strictly under one unit more than the deposit.
        assert(minted * (native_reserve + deposit) < (supply + minted) * (deposit + 1))
            by (nonlinear_arith)
            requires
                minted * native_reserve <= deposit * supply,
                share_product == deposit * supply,
                minted * native_reserve <= share_product,
                supply > 0,
                minted >= 0,
                deposit >= 0,
        ;
        lemma_multiply_divide_lt(
            minted * (native_reserve + deposit),
            supply + minted,
            deposit + 1,
        );
        // Paired-token side: scale both rounding facts up to a common product
        // with the native reserve, compare there, then cancel the reserve.
        assert(minted * token_reserve * native_reserve <= deposit * supply * token_reserve)
            by (nonlinear_arith)
            requires
                minted * native_reserve <= deposit * supply,
                token_reserve >= 0,
        ;
        assert(deposit * supply * token_reserve + supply <= supply * locked * native_reserve)
            by (nonlinear_arith)
            requires
                locked * native_reserve >= deposit * token_reserve + 1,
                supply >= 0,
        ;
        assert(minted * token_reserve * native_reserve < (supply * locked + supply + minted)
            * native_reserve) by (nonlinear_arith)
            requires
                minted * token_reserve * native_reserve <= deposit * supply * token_reserve,
                deposit * supply * token_reserve + supply <= supply * locked * native_reserve,
                supply >= 1,
                native_reserve >= 1,
                minted >= 0,
        ;
        assert(minted * token_reserve < supply * locked + supply + minted) by (nonlinear_arith)
            requires
                minted * token_reserve * native_reserve < (supply * locked + supply + minted)
                    * native_reserve,
                native_reserve > 0,
        ;
        assert(minted * (token_reserve + locked) < (supply + minted) * (locked + 1))
            by (nonlinear_arith)
            requires
                minted * token_reserve < supply * locked + supply + minted,
        ;
        lemma_multiply_divide_lt(
            minted * (token_reserve + locked),
            supply + minted,
            locked + 1,
        );
    }
}

/// Bound enforcement on deposits: whenever the share price is computable (no
/// arithmetic fault) but a minimum above the mintable amount was asked for,
/// the deposit fails with exactly the minimum-liquidity violation, carrying
/// the requested minimum and the achievable amount. The contract of
/// [`crate::contract::try_add_liquidity`] then forces the ledger to be left
/// unchanged on that outcome.
pub proof fn lemma_add_bound_enforcement(
    deposit: u128,
    supply: u128,
    native_reserve: u128,
    token_reserve: u128,
    min_liquidity: u128,
    max_token: u128,
)
    requires
        supply > 0 ==> {
            &&& deposit * supply <= u128::MAX
            &&& native_reserve > 0
            &&& deposit * token_reserve <= u128::MAX
            &&& deposit * token_reserve / (native_reserve as int) + 1 <= u128::MAX
        },
        min_liquidity > mint_amount_spec(deposit as int, supply as int, native_reserve as int),
    ensures
        add_liquidity_spec(deposit, supply, native_reserve, token_reserve, min_liquidity, max_token)
            == Err::<(u128, u128), ContractError>(ContractError::MinLiquidityError {
            min_liquidity,
            liquidity_available: mint_amount_spec(
                deposit as int,
                supply as int,
                native_reserve as int,
            ) as u128,
        }),
{
}

/// Bound enforcement on withdrawals: asking for more shares than the caller
/// holds always fails with exactly the insufficient-liquidity violation,
/// carrying the requested and the available amount, before any arithmetic is
/// attempted. The contract of [`crate::contract::try_remove_liquidity`] then
/// forces the ledger to be left unchanged on that outcome.
pub proof fn lemma_remove_bound_enforcement(
    amount: u128,
    balance: u128,
    supply: u128,
    native_reserve: u128,
    token_reserve: u128,
    min_native: u128,
    min_token: u128,
)
    requires
        amount > balance,
    ensures
        remove_liquidity_spec(
            amount,
            balance,
            supply,
            native_reserve,
            token_reserve,
            min_native,
            min_token,
        ) == Err::<(u128, u128), ContractError>(ContractError::InsufficientLiquidityError {
            requested: amount,
            available: balance,
        }),
{
}

/// Non-negativity: both reserves of any ledger record are non-negative, and
/// every operation keeps them so — amounts are unsigned and every decrement
/// is checked before it is applied.
pub proof fn lemma_reserves_non_negative(s: State)
    ensures
        s.native_supply.amount >= 0,
        s.token_supply >= 0,
{
}

} // verus!

