use vstd::prelude::*;

use crate::error::ContractError;
use crate::state::State;

verus! {

/// A request to the pool, already decoded by the host's messaging layer.
#[derive(Clone, Debug)]
pub enum ExecuteMsg {
    /// Deposit liquidity. The native amount deposited travels with the
    /// request's funds, not as a field here.
    AddLiquidity { min_liquidity: u128, max_token: u128 },
    /// Withdraw liquidity by burning `amount` shares.
    RemoveLiquidity { amount: u128, min_native: u128, min_token: u128 },
}

/// One follow-up action the host must execute atomically with the ledger
/// mutation that produced it. Addresses and the native denomination are the
/// host's to fill in: it knows the caller, the pool's own identity, and the
/// ledger's denom and paired-token contract.
#[derive(Clone, Debug, PartialEq, Eq, Structural)]
pub enum Instruction {
    /// Pull this many paired tokens from the caller into the pool.
    PullToken { amount: u128 },
    /// Mint this many shares to the caller.
    MintShares { amount: u128 },
    /// Burn this many of the caller's shares.
    BurnShares { amount: u128 },
    /// Send this much of the native asset to the caller.
    SendNative { amount: u128 },
    /// Send this many paired tokens from the pool to the caller.
    SendToken { amount: u128 },
}

/// What a successful operation hands back to the host: the instructions to
/// execute, in order, atomically with the already-applied ledger mutation.
#[derive(Clone, Debug)]
pub struct Response {
    pub messages: Vec<Instruction>,
}

/// Shares minted for a deposit of `deposit` native units against a pool with
/// total share supply `supply` and native reserve `native_reserve`.
///
/// The first deposit on an empty pool (zero supply) is credited one share per
/// native unit; after that, shares are priced proportionally and rounded down.
pub open spec fn mint_amount_spec(deposit: int, supply: int, native_reserve: int) -> int {
    if supply == 0 {
        deposit
    } else {
        deposit * supply / native_reserve
    }
}

/// Paired tokens a deposit must bring along. The first depositor sets the
/// price by locking exactly the cap it offered; after that the proportional
/// cost is rounded up (the `+ 1`), so the pool never under-collects relative
/// to the shares it mints.
pub open spec fn token_amount_spec(
    deposit: int,
    supply: int,
    native_reserve: int,
    token_reserve: int,
    max_token: int,
) -> int {
    if supply == 0 {
        max_token
    } else {
        deposit * token_reserve / native_reserve + 1
    }
}

/// Native units paid out for burning `shares` shares: the proportional slice
/// of the native reserve, rounded down.
pub open spec fn native_out_spec(shares: int, supply: int, native_reserve: int) -> int {
    shares * native_reserve / supply
}

/// Paired tokens paid out for burning `shares` shares: the proportional slice
/// of the paired-token reserve, rounded down.
pub open spec fn token_out_spec(shares: int, supply: int, token_reserve: int) -> int {
    shares * token_reserve / supply
}

/// The exact outcome of a deposit, checks in the order they are made:
/// arithmetic on the share price, then the caller's two slippage bounds,
/// then the checked increase of both reserves. `Ok` carries the shares to
/// mint and the paired tokens to collect.
pub open spec fn add_liquidity_spec(
    deposit: u128,
    supply: u128,
    native_reserve: u128,
    token_reserve: u128,
    min_liquidity: u128,
    max_token: u128,
) -> Result<(u128, u128), ContractError> {
    if supply > 0 && deposit * supply > u128::MAX {
        Err(ContractError::Overflow {})
    } else if supply > 0 && native_reserve == 0 {
        Err(ContractError::DivideByZero {})
    } else if supply > 0 && deposit * token_reserve > u128::MAX {
        Err(ContractError::Overflow {})
    } else if supply > 0 && deposit * token_reserve / (native_reserve as int) + 1 > u128::MAX {
        Err(ContractError::Overflow {})
    } else {
        let mint = mint_amount_spec(deposit as int, supply as int, native_reserve as int);
        let token = token_amount_spec(
            deposit as int,
            supply as int,
            native_reserve as int,
            token_reserve as int,
            max_token as int,
        );
        if mint < min_liquidity {
            Err(ContractError::MinLiquidityError {
                min_liquidity,
                liquidity_available: mint as u128,
            })
        } else if token > max_token {
            Err(ContractError::MaxTokenError { max_token, tokens_required: token as u128 })
        } else if native_reserve + deposit > u128::MAX {
            Err(ContractError::Overflow {})
        } else if token_reserve + token > u128::MAX {
            Err(ContractError::Overflow {})
        } else {
            Ok((mint as u128, token as u128))
        }
    }
}

/// The exact outcome of a withdrawal, checks in the order they are made:
/// the caller's share balance, then for each side the arithmetic and the
/// caller's minimum, then the checked decrease of both reserves (paired
/// token first). `Ok` carries the native and paired-token payouts.
pub open spec fn remove_liquidity_spec(
    amount: u128,
    balance: u128,
    supply: u128,
    native_reserve: u128,
    token_reserve: u128,
    min_native: u128,
    min_token: u128,
) -> Result<(u128, u128), ContractError> {
    if amount > balance {
        Err(ContractError::InsufficientLiquidityError { requested: amount, available: balance })
    } else if amount * native_reserve > u128::MAX {
        Err(ContractError::Overflow {})
    } else if supply == 0 {
        Err(ContractError::DivideByZero {})
    } else {
        let native_out = native_out_spec(amount as int, supply as int, native_reserve as int);
        if native_out < min_native {
            Err(ContractError::MinNative { requested: min_native, available: native_out as u128 })
        } else if amount * token_reserve > u128::MAX {
            Err(ContractError::Overflow {})
        } else {
            let token_out = token_out_spec(amount as int, supply as int, token_reserve as int);
            if token_out < min_token {
                Err(ContractError::MinNative {
                    requested: min_token,
                    available: token_out as u128,
                })
            } else if token_reserve < token_out {
                Err(ContractError::Overflow {})
            } else if native_reserve < native_out {
                Err(ContractError::Overflow {})
            } else {
                Ok((native_out as u128, token_out as u128))
            }
        }
    }
}

/// Deposit liquidity.
///
/// `token_total_supply` is the paired ledger's total issued share supply, read
/// by the host just before the call; `deposited_native` is the native amount
/// attached to the request. On success the ledger has both reserves increased
/// and the response instructs the host to pull the paired tokens in and mint
/// the shares, in that order. On any failure the ledger is untouched and the
/// error says which check failed, with the requested and the computed value.
pub fn try_add_liquidity(
    state: &mut State,
    token_total_supply: u128,
    deposited_native: u128,
    min_liquidity: u128,
    max_token: u128,
) -> (res: Result<Response, ContractError>)
    ensures
        match add_liquidity_spec(
            deposited_native,
            token_total_supply,
            old(state).native_supply.amount,
            old(state).token_supply,
            min_liquidity,
            max_token,
        ) {
            Ok((mint, token)) => {
                &&& res matches Ok(resp) && resp.messages@ == seq![
                    Instruction::PullToken { amount: token },
                    Instruction::MintShares { amount: mint },
                ]
                &&& final(state).native_supply.amount == old(state).native_supply.amount
                    + deposited_native
                &&& final(state).token_supply == old(state).token_supply + token
                &&& final(state).native_supply.denom == old(state).native_supply.denom
                &&& final(state).token_address == old(state).token_address
            },
            Err(e) => res matches Err(err) && err == e && *final(state) == *old(state),
        },
{
    let mint_amount: u128;
    let token_amount: u128;
    if token_total_supply == 0 {
        mint_amount = deposited_native;
        token_amount = max_token;
    } else {
        mint_amount = match deposited_native.checked_mul(token_total_supply) {
            Some(product) => match product.checked_div(state.native_supply.amount) {
                Some(quotient) => quotient,
                None => {
                    return Err(ContractError::DivideByZero {});
                },
            },
            None => {
                return Err(ContractError::Overflow {});
            },
        };
        token_amount = match deposited_native.checked_mul(state.token_supply) {
            Some(product) => match product.checked_div(state.native_supply.amount) {
                Some(quotient) => match quotient.checked_add(1) {
                    Some(cost) => cost,
                    None => {
                        return Err(ContractError::Overflow {});
                    },
                },
                None => {
                    return Err(ContractError::DivideByZero {});
                },
            },
            None => {
                return Err(ContractError::Overflow {});
            },
        };
    }
    if mint_amount < min_liquidity {
        return Err(ContractError::MinLiquidityError {
            min_liquidity,
            liquidity_available: mint_amount,
        });
    }
    if token_amount > max_token {
        return Err(ContractError::MaxTokenError { max_token, tokens_required: token_amount });
    }
    let new_native = match state.native_supply.amount.checked_add(deposited_native) {
        Some(total) => total,
        None => {
            return Err(ContractError::Overflow {});
        },
    };
    let new_token = match state.token_supply.checked_add(token_amount) {
        Some(total) => total,
        None => {
            return Err(ContractError::Overflow {});
        },
    };
    state.native_supply.amount = new_native;
    state.token_supply = new_token;
    let mut messages: Vec<Instruction> = Vec::new();
    messages.push(Instruction::PullToken { amount: token_amount });
    messages.push(Instruction::MintShares { amount: mint_amount });
    Ok(Response { messages })
}

/// Withdraw liquidity by burning `amount` shares.
///
/// `token_total_supply` is the paired ledger's total issued share supply and
/// `caller_balance` the caller's share balance, both read by the host just
/// before the call. On success the ledger has both reserves decreased and the
/// response instructs the host to burn the shares, pay out the native asset,
/// and pay out the paired tokens, in that order. On any failure the ledger is
/// untouched and the error says which check failed.
pub fn try_remove_liquidity(
    state: &mut State,
    token_total_supply: u128,
    caller_balance: u128,
    amount: u128,
    min_native: u128,
    min_token: u128,
) -> (res: Result<Response, ContractError>)
    ensures
        match remove_liquidity_spec(
            amount,
            caller_balance,
            token_total_supply,
            old(state).native_supply.amount,
            old(state).token_supply,
            min_native,
            min_token,
        ) {
            Ok((native_out, token_out)) => {
                &&& res matches Ok(resp) && resp.messages@ == seq![
                    Instruction::BurnShares { amount: amount },
                    Instruction::SendNative { amount: native_out },
                    Instruction::SendToken { amount: token_out },
                ]
                &&& final(state).native_supply.amount == old(state).native_supply.amount
                    - native_out
                &&& final(state).token_supply == old(state).token_supply - token_out
                &&& final(state).native_supply.denom == old(state).native_supply.denom
                &&& final(state).token_address == old(state).token_address
            },
            Err(e) => res matches Err(err) && err == e && *final(state) == *old(state),
        },
{
    if amount > caller_balance {
        return Err(ContractError::InsufficientLiquidityError {
            requested: amount,
            available: caller_balance,
        });
    }
    let native_amount: u128 = match amount.checked_mul(state.native_supply.amount) {
        Some(product) => match product.checked_div(token_total_supply) {
            Some(quotient) => quotient,
            None => {
                return Err(ContractError::DivideByZero {});
            },
        },
        None => {
            return Err(ContractError::Overflow {});
        },
    };
    if native_amount < min_native {
        return Err(ContractError::MinNative { requested: min_native, available: native_amount });
    }
    let token_amount: u128 = match amount.checked_mul(state.token_supply) {
        Some(product) => match product.checked_div(token_total_supply) {
            Some(quotient) => quotient,
            None => {
                return Err(ContractError::DivideByZero {});
            },
        },
        None => {
            return Err(ContractError::Overflow {});
        },
    };
    if token_amount < min_token {
        return Err(ContractError::MinNative { requested: min_token, available: token_amount });
    }
    let new_token = match state.token_supply.checked_sub(token_amount) {
        Some(rest) => rest,
        None => {
            return Err(ContractError::Overflow {});
        },
    };
    let new_native = match state.native_supply.amount.checked_sub(native_amount) {
        Some(rest) => rest,
        None => {
            return Err(ContractError::Overflow {});
        },
    };
    state.token_supply = new_token;
    state.native_supply.amount = new_native;
    let mut messages: Vec<Instruction> = Vec::new();
    messages.push(Instruction::BurnShares { amount: amount });
    messages.push(Instruction::SendNative { amount: native_amount });
    messages.push(Instruction::SendToken { amount: token_amount });
    Ok(Response { messages })
}

/// Dispatch one decoded request against the ledger.
///
/// The host reads the share supply, the caller's share balance and the
/// attached native funds from its environment and passes them in; a deposit
/// ignores `caller_balance`, a withdrawal ignores `deposited_native`.
pub fn execute(
    state: &mut State,
    token_total_supply: u128,
    caller_balance: u128,
    deposited_native: u128,
    msg: ExecuteMsg,
) -> (res: Result<Response, ContractError>)
    ensures
        match msg {
            ExecuteMsg::AddLiquidity { min_liquidity, max_token } => {
                match add_liquidity_spec(
                    deposited_native,
                    token_total_supply,
                    old(state).native_supply.amount,
                    old(state).token_supply,
                    min_liquidity,
                    max_token,
                ) {
                    Ok((mint, token)) => {
                        &&& res matches Ok(resp) && resp.messages@ == seq![
                            Instruction::PullToken { amount: token },
                            Instruction::MintShares { amount: mint },
                        ]
                        &&& final(state).native_supply.amount == old(
                            state,
                        ).native_supply.amount + deposited_native
                        &&& final(state).token_supply == old(state).token_supply + token
                        &&& final(state).native_supply.denom == old(state).native_supply.denom
                        &&& final(state).token_address == old(state).token_address
                    },
                    Err(e) => res matches Err(err) && err == e && *final(state) == *old(state),
                }
            },
            ExecuteMsg::RemoveLiquidity { amount, min_native, min_token } => {
                match remove_liquidity_spec(
                    amount,
                    caller_balance,
                    token_total_supply,
                    old(state).native_supply.amount,
                    old(state).token_supply,
                    min_native,
                    min_token,
                ) {
                    Ok((native_out, token_out)) => {
                        &&& res matches Ok(resp) && resp.messages@ == seq![
                            Instruction::BurnShares { amount: amount },
                            Instruction::SendNative { amount: native_out },
                            Instruction::SendToken { amount: token_out },
                        ]
                        &&& final(state).native_supply.amount == old(
                            state,
                        ).native_supply.amount - native_out
                        &&& final(state).token_supply == old(state).token_supply - token_out
                        &&& final(state).native_supply.denom == old(state).native_supply.denom
                        &&& final(state).token_address == old(state).token_address
                    },
                    Err(e) => res matches Err(err) && err == e && *final(state) == *old(state),
                }
            },
        },
{
    match msg {
        ExecuteMsg::AddLiquidity { min_liquidity, max_token } => try_add_liquidity(
            state,
            token_total_supply,
            deposited_native,
            min_liquidity,
            max_token,
        ),
        ExecuteMsg::RemoveLiquidity { amount, min_native, min_token } => try_remove_liquidity(
            state,
            token_total_supply,
            caller_balance,
            amount,
            min_native,
            min_token,
        ),
    }
}

} // verus!
