use vstd::prelude::*;

verus! {

/// Every way an operation on the pool can fail.
///
/// Bound violations carry both the caller's requested bound and the computed
/// actual value; nothing is ever silently clamped. Arithmetic faults come from
/// checked operations on the reserves and amounts. The same
/// `MinNative` kind reports both the native-side and the paired-token-side
/// minimum-output violations of a withdrawal.
#[derive(Clone, Debug, PartialEq, Eq, Structural)]
pub enum ContractError {
    /// A checked addition, subtraction or multiplication left `u128`.
    Overflow {},
    /// A division met a zero total share supply or a zero native reserve.
    DivideByZero {},
    /// A deposit would mint fewer shares than the caller's stated minimum.
    MinLiquidityError { min_liquidity: u128, liquidity_available: u128 },
    /// A deposit would require more paired tokens than the caller's stated cap.
    MaxTokenError { max_token: u128, tokens_required: u128 },
    /// A withdrawal asked for more shares than the caller holds.
    InsufficientLiquidityError { requested: u128, available: u128 },
    /// A withdrawal would pay out less than the caller's stated minimum,
    /// on either the native or the paired-token side.
    MinNative { requested: u128, available: u128 },
}

} // verus!
