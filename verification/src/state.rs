use vstd::prelude::*;

verus! {

/// An amount of the native settlement asset, tagged with its denomination.
#[derive(Clone, Debug)]
pub struct Coin {
    pub denom: String,
    pub amount: u128,
}

/// The pool ledger: one persisted record per deployed pool.
///
/// `native_supply` is the native-asset reserve, `token_supply` mirrors the
/// paired-token balance the pool holds, and `token_address` identifies the
/// external token contract this pool is paired with. The host loads this
/// record before each operation and saves it back afterwards; all mutation
/// goes through the operations in [`crate::contract`].
#[derive(Clone, Debug)]
pub struct State {
    pub native_supply: Coin,
    pub token_address: String,
    pub token_supply: u128,
}

/// Build the ledger record for a freshly instantiated pool: both reserves are
/// zero, and the paired-token contract reference is fixed for the pool's life.
pub fn instantiate(native_denom: String, token_address: String) -> (s: State)
    ensures
        s.native_supply.denom == native_denom,
        s.native_supply.amount == 0,
        s.token_address == token_address,
        s.token_supply == 0,
{
    State {
        native_supply: Coin { denom: native_denom, amount: 0 },
        token_address,
        token_supply: 0,
    }
}

} // verus!
