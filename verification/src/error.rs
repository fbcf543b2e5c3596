//! The ways in which an operation on a curve is turned down.

use vstd::prelude::*;

verus! {

/// A failure of the pricing engine itself.
#[derive(Clone, Copy, Debug, PartialEq, Eq, Structural)]
pub enum AmmError {
    /// The trade would leave no virtual token reserves to divide by.
    Depleted,
    /// The payout of a sell is larger than the reserve currency actually held.
    InsufficientLiquidity,
    /// A step of the computation does not fit the integer width it runs in.
    Overflow,
}

/// Why an operation was rejected. A rejected operation changes nothing.
#[derive(Clone, Copy, Debug, PartialEq, Eq, Structural)]
pub enum CurveLaunchpadError {
    /// The global configuration was already initialized.
    AlreadyInitialized,
    /// The global configuration has not been initialized yet.
    NotInitialized,
    /// The caller is not the authority of the global configuration.
    InvalidAuthority,
    /// The curve has sold out and accepts no further trade.
    CurveComplete,
    /// The fee recipient handed in is not the configured one.
    InvalidFeeRecipient,
    /// The request exceeds the tokens the curve still has for sale.
    InsufficientTokens,
    /// A trade of zero tokens.
    MinBuy,
    /// Cost plus fee exceeds what the buyer is willing to pay.
    MaxCostExceeded,
    /// Proceeds minus fee fall short of what the seller asked for.
    MinProceedsNotMet,
    /// The actor does not hold what the trade takes from them.
    InsufficientBalance,
    /// The actor asked for more than the throttle allows them right now.
    RateLimited,
    /// A sum, product or difference does not fit its integer type.
    ArithmeticOverflow,
    /// The pricing engine rejected the trade.
    Amm(AmmError),
}

} // verus!
