//! The fee on a trade, and the throttle on how much one actor may trade.

use vstd::prelude::*;
use crate::address::Address;
use crate::error::CurveLaunchpadError;
use crate::state::{BondingCurve, UserTransferData};

verus! {

/// The scale of a fee rate: this many basis points are the whole amount.
pub const BASIS_POINTS_SCALE: u64 = 10000;

/// The length of the throttle's window, in seconds.
pub const THROTTLE_WINDOW_SECONDS: u64 = 3600;

/// The share of the total supply that a curve's creator may trade after a
/// full window, in thousandths.
pub const CREATOR_SHARE_PER_MILLE: u64 = 5;

/// The fee on `amount` at `fee_basis_points`, rounded down.
pub open spec fn fee_of(amount: int, fee_basis_points: int) -> int {
    amount * fee_basis_points / 10000
}

/// The fee on `amount` at a rate of `fee_basis_points`, rounded down.
///
/// The rate is not capped: from 10000 basis points on the fee is no less than
/// the amount. The product of the two must fit 64 bits; `try_calculate_fee`
/// takes any two.
pub fn calculate_fee(amount: u64, fee_basis_points: u64) -> (fee: u64)
    requires
        amount * fee_basis_points <= u64::MAX,
    ensures
        fee == fee_of(amount as int, fee_basis_points as int),
{
    amount * fee_basis_points / BASIS_POINTS_SCALE
}

/// The fee on `amount` at a rate of `fee_basis_points`, rounded down, or
/// `ArithmeticOverflow` where the product of the two does not fit 64 bits.
pub fn try_calculate_fee(amount: u64, fee_basis_points: u64) -> (fee: Result<
    u64,
    CurveLaunchpadError,
>)
    ensures
        amount * fee_basis_points <= u64::MAX ==> fee == Ok::<u64, CurveLaunchpadError>(
            fee_of(amount as int, fee_basis_points as int) as u64,
        ),
        amount * fee_basis_points > u64::MAX ==> fee == Err::<u64, CurveLaunchpadError>(
            CurveLaunchpadError::ArithmeticOverflow,
        ),
{
    match amount.checked_mul(fee_basis_points) {
        Some(_) => Ok(calculate_fee(amount, fee_basis_points)),
        None => Err(CurveLaunchpadError::ArithmeticOverflow),
    }
}

/// The seconds of the throttle's window that count when `elapsed` seconds have
/// gone by: none before the last trade, and no more than the whole window.
pub open spec fn counted_seconds(elapsed: int) -> int {
    if elapsed < 0 {
        0
    } else if elapsed > 3600 {
        3600
    } else {
        elapsed
    }
}

/// The most that the creator of a curve may trade `elapsed` seconds after
/// their last trade: half a percent of the supply per hour gone by, and never
/// more than half a percent.
pub open spec fn creator_allowance(total_supply: int, elapsed: int) -> int {
    total_supply * counted_seconds(elapsed) * 5 / 3_600_000
}

/// The most that an actor may trade in one request. Everyone but the creator
/// may trade up to the whole supply.
pub open spec fn max_allowed_amount(
    is_creator: bool,
    total_supply: int,
    elapsed: int,
) -> int {
    if is_creator {
        creator_allowance(total_supply, elapsed)
    } else {
        total_supply
    }
}

/// The most that `actor` may trade on `curve` at time `now`, given the record
/// of their last trade.
pub open spec fn allowance(
    record: UserTransferData,
    actor: Address,
    curve: BondingCurve,
    now: i64,
) -> int {
    max_allowed_amount(
        actor == curve.creator,
        curve.token_total_supply as int,
        now - record.last_transfer_timestamp,
    )
}

/// Computes `allowance`.
pub fn max_transfer_amount(
    record: &UserTransferData,
    actor: &Address,
    curve: &BondingCurve,
    now: i64,
) -> (max: u64)
    ensures
        max == allowance(*record, *actor, *curve, now),
{
    if !actor.same_as(&curve.creator) {
        return curve.token_total_supply;
    }
    let elapsed: i128 = now as i128 - record.last_transfer_timestamp as i128;
    let counted: u128 = if elapsed < 0 {
        0
    } else if elapsed > THROTTLE_WINDOW_SECONDS as i128 {
        THROTTLE_WINDOW_SECONDS as u128
    } else {
        elapsed as u128
    };
    let supply: u128 = curve.token_total_supply as u128;
    assert(supply * counted <= 0xffff_ffff_ffff_ffff * 3600) by (nonlinear_arith)
        requires
            supply <= 0xffff_ffff_ffff_ffff,
            counted <= 3600,
    ;
    let scaled: u128 = supply * counted * (CREATOR_SHARE_PER_MILLE as u128);
    let window: u128 = THROTTLE_WINDOW_SECONDS as u128 * 1000;
    let max: u128 = scaled / window;
    assert(max <= supply) by (nonlinear_arith)
        requires
            scaled == supply * counted * 5,
            counted <= 3600,
            max == scaled / 3_600_000,
    ;
    max as u64
}

/// The throttle. A request for more than the actor's allowance is turned down
/// as `RateLimited` and leaves the record as it was; any other request passes
/// and stamps the record with `current_timestamp`, whoever the actor is.
pub fn check_buy_sell(
    user_transfer_data: &mut UserTransferData,
    user_account: &Address,
    bonding_curve: &BondingCurve,
    amount: u64,
    current_timestamp: i64,
) -> (checked: Result<(), CurveLaunchpadError>)
    ensures
        amount > allowance(
            *old(user_transfer_data),
            *user_account,
            *bonding_curve,
            current_timestamp,
        ) ==> checked == Err::<(), CurveLaunchpadError>(CurveLaunchpadError::RateLimited)
            && *final(user_transfer_data) == *old(user_transfer_data),
        amount <= allowance(
            *old(user_transfer_data),
            *user_account,
            *bonding_curve,
            current_timestamp,
        ) ==> checked == Ok::<(), CurveLaunchpadError>(())
            && final(user_transfer_data).last_transfer_timestamp == current_timestamp,
{
    let max_allowed_amount: u64 = max_transfer_amount(
        user_transfer_data,
        user_account,
        bonding_curve,
        current_timestamp,
    );
    if amount > max_allowed_amount {
        return Err(CurveLaunchpadError::RateLimited);
    }
    user_transfer_data.last_transfer_timestamp = current_timestamp;
    Ok(())
}

} // verus!
