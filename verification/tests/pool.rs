use amm_core::contract::{execute, ExecuteMsg, Instruction};
use amm_core::error::ContractError;
use amm_core::state::{instantiate, Coin, State};

fn pool(native: u128, token: u128) -> State {
    State {
        native_supply: Coin { denom: String::from("test"), amount: native },
        token_address: String::from("asdf"),
        token_supply: token,
    }
}

#[test]
fn proper_initialization() {
    // A fresh pool paired with token contract "asdf" on denom "test" starts
    // with both reserves empty, whatever funds the creator happens to hold.
    let state = instantiate(String::from("test"), String::from("asdf"));
    assert_eq!(state.native_supply.denom, "test");
    assert_eq!(state.native_supply.amount, 0);
    assert_eq!(state.token_address, "asdf");
    assert_eq!(state.token_supply, 0);
}

#[test]
fn add_liqudity() {
    // Anyone may make the first deposit: 2 native units against a cap of 1
    // paired token, asking for at least 1 share, succeeds on a fresh pool.
    let mut state = instantiate(String::from("test"), String::from("asdf"));
    let msg = ExecuteMsg::AddLiquidity { min_liquidity: 1, max_token: 1 };
    execute(&mut state, 0, 0, 2, msg).unwrap();
}

#[test]
fn execute_dispatches_add_liquidity() {
    let mut state = pool(1000, 500);
    let msg = ExecuteMsg::AddLiquidity { min_liquidity: 100, max_token: 51 };
    let res = execute(&mut state, 1000, 0, 100, msg).unwrap();
    assert_eq!(
        res.messages,
        vec![
            Instruction::PullToken { amount: 51 },
            Instruction::MintShares { amount: 100 },
        ]
    );
    assert_eq!(state.native_supply.amount, 1100);
    assert_eq!(state.token_supply, 551);
}

#[test]
fn execute_dispatches_remove_liquidity() {
    let mut state = pool(1100, 551);
    let msg = ExecuteMsg::RemoveLiquidity { amount: 100, min_native: 90, min_token: 40 };
    let res = execute(&mut state, 1100, 100, 0, msg).unwrap();
    assert_eq!(
        res.messages,
        vec![
            Instruction::BurnShares { amount: 100 },
            Instruction::SendNative { amount: 100 },
            Instruction::SendToken { amount: 50 },
        ]
    );
    assert_eq!(state.native_supply.amount, 1000);
    assert_eq!(state.token_supply, 501);
}

#[test]
fn execute_reports_violation_and_keeps_ledger() {
    let mut state = pool(1000, 500);
    let msg = ExecuteMsg::AddLiquidity { min_liquidity: 1, max_token: 50 };
    let err = execute(&mut state, 1000, 0, 100, msg).unwrap_err();
    assert_eq!(err, ContractError::MaxTokenError { max_token: 50, tokens_required: 51 });
    assert_eq!(state.native_supply.amount, 1000);
    assert_eq!(state.token_supply, 500);
}

#[test]
fn round_trip_returns_no_more_than_deposited() {
    // Deposit into a funded pool, then immediately burn exactly the minted
    // shares: both payouts stay at or below what the deposit brought in.
    let mut state = pool(1000, 500);
    let deposited_native: u128 = 333;
    let res = amm_core::contract::try_add_liquidity(&mut state, 1000, deposited_native, 0, 500)
        .unwrap();
    let (locked, minted) = match (&res.messages[0], &res.messages[1]) {
        (Instruction::PullToken { amount: locked }, Instruction::MintShares { amount: minted }) => {
            (*locked, *minted)
        }
        other => panic!("unexpected instructions: {:?}", other),
    };
    assert_eq!(minted, 333);
    assert_eq!(locked, 167);
    let res = amm_core::contract::try_remove_liquidity(
        &mut state,
        1000 + minted,
        minted,
        minted,
        0,
        0,
    )
    .unwrap();
    let (native_out, token_out) = match (&res.messages[1], &res.messages[2]) {
        (Instruction::SendNative { amount: native }, Instruction::SendToken { amount: token }) => {
            (*native, *token)
        }
        other => panic!("unexpected instructions: {:?}", other),
    };
    assert!(native_out <= deposited_native);
    assert!(token_out <= locked);
    assert_eq!(native_out, 333);
    assert_eq!(token_out, 166);
}

#[test]
fn bootstrap_round_trip_returns_no_more_than_deposited() {
    let mut state = pool(0, 0);
    amm_core::contract::try_add_liquidity(&mut state, 0, 1000, 1, 500).unwrap();
    let res = amm_core::contract::try_remove_liquidity(&mut state, 1000, 1000, 1000, 0, 0)
        .unwrap();
    let (native_out, token_out) = match (&res.messages[1], &res.messages[2]) {
        (Instruction::SendNative { amount: native }, Instruction::SendToken { amount: token }) => {
            (*native, *token)
        }
        other => panic!("unexpected instructions: {:?}", other),
    };
    assert!(native_out <= 1000);
    assert!(token_out <= 500);
    assert_eq!(state.native_supply.amount, 0);
    assert_eq!(state.token_supply, 0);
}
