//! Selling tokens back to a curve.

use vstd::prelude::*;
use crate::address::Address;
use crate::amm::AMM;
use crate::error::CurveLaunchpadError;
use crate::events::TradeEvent;
use crate::instructions::util::{allowance, check_buy_sell, fee_of, try_calculate_fee};
use crate::state::{BondingCurve, Global, UserTransferData};

verus! {

/// Everything a sell reads, and the two records it writes: the curve and the
/// seller's throttle record.
#[derive(Clone, Copy, Debug, PartialEq, Eq)]
pub struct Sell {
    /// The seller.
    pub user: Address,
    /// The tokens of the curve's asset that the seller holds.
    pub user_token_balance: u64,
    pub global: Global,
    /// Who the caller says the fee goes to.
    pub fee_recipient: Address,
    /// The asset that the curve buys back.
    pub mint: Address,
    pub bonding_curve: BondingCurve,
    pub user_transfer_data: UserTransferData,
    /// The time of the trade.
    pub unix_timestamp: i64,
}

/// What a sell that went through amounts to.
#[derive(Clone, Copy, Debug, PartialEq, Eq)]
pub struct SellReceipt {
    /// Reserve currency that leaves the curve: the seller's proceeds and the
    /// fee together.
    pub sol_amount: u64,
    /// Tokens that the seller owes the curve.
    pub token_amount: u64,
    /// The part of `sol_amount` that goes to the fee recipient.
    pub fee: u64,
    /// The part of `sol_amount` that goes to the seller: all but the fee.
    pub total_proceeds: u64,
    pub trade_event: TradeEvent,
}

impl Sell {
    /// The curve's reserves as the pricing engine sees them.
    pub open spec fn engine(self) -> AMM {
        AMM {
            virtual_sol_reserves: self.bonding_curve.virtual_sol_reserves as u128,
            virtual_token_reserves: self.bonding_curve.virtual_token_reserves as u128,
            real_sol_reserves: self.bonding_curve.real_sol_reserves as u128,
            real_token_reserves: self.bonding_curve.real_token_reserves as u128,
            initial_virtual_token_reserves: self.global.initial_virtual_token_reserves as u128,
        }
    }

    /// The seller holds no more tokens than exist outside the curve's own
    /// stock. A token ledger that never hands out more than the total supply
    /// keeps this true.
    pub open spec fn holdings_within_supply(self) -> bool {
        self.user_token_balance + self.bonding_curve.real_token_reserves
            <= self.bonding_curve.token_total_supply
    }

    /// Why an offer of `token_amount` tokens is turned down before any price
    /// is computed, if it is.
    pub open spec fn admission_error(self, token_amount: u64) -> Option<CurveLaunchpadError> {
        if self.bonding_curve.complete {
            Some(CurveLaunchpadError::CurveComplete)
        } else if token_amount > allowance(
            self.user_transfer_data,
            self.user,
            self.bonding_curve,
            self.unix_timestamp,
        ) {
            Some(CurveLaunchpadError::RateLimited)
        } else if !self.global.initialized {
            Some(CurveLaunchpadError::NotInitialized)
        } else if self.fee_recipient != self.global.fee_recipient {
            Some(CurveLaunchpadError::InvalidFeeRecipient)
        } else if self.user_token_balance < token_amount {
            Some(CurveLaunchpadError::InsufficientBalance)
        } else if token_amount == 0 {
            Some(CurveLaunchpadError::MinBuy)
        } else {
            None
        }
    }

    /// What the curve pays for the tokens, before the fee.
    pub open spec fn sol_amount(self, token_amount: u64) -> int {
        self.engine().sell_price(token_amount as int)
    }

    /// The fee on the payout.
    pub open spec fn fee(self, token_amount: u64) -> int {
        fee_of(self.sol_amount(token_amount), self.global.fee_basis_points as int)
    }

    /// Why an admitted offer is turned down once its price is known, if it is.
    pub open spec fn settlement_error(self, token_amount: u64, min_sol_output: u64) -> Option<
        CurveLaunchpadError,
    > {
        let sol_amount = self.sol_amount(token_amount);
        let fee = self.fee(token_amount);
        match self.engine().sell_error(token_amount as u128) {
            Some(error) => Some(CurveLaunchpadError::Amm(error)),
            None => if sol_amount * self.global.fee_basis_points > u64::MAX || fee > sol_amount {
                Some(CurveLaunchpadError::ArithmeticOverflow)
            } else if sol_amount - fee < min_sol_output {
                Some(CurveLaunchpadError::MinProceedsNotMet)
            } else if self.bonding_curve.virtual_token_reserves + token_amount > u64::MAX
                || self.bonding_curve.real_token_reserves + token_amount > u64::MAX {
                Some(CurveLaunchpadError::ArithmeticOverflow)
            } else {
                None
            },
        }
    }

    /// Why a sell of `token_amount` tokens for at least `min_sol_output` is
    /// rejected, if it is.
    pub open spec fn sell_error(self, token_amount: u64, min_sol_output: u64) -> Option<
        CurveLaunchpadError,
    > {
        match self.admission_error(token_amount) {
            Some(error) => Some(error),
            None => self.settlement_error(token_amount, min_sol_output),
        }
    }

    /// The curve after a sell of `token_amount` tokens that is not rejected.
    pub open spec fn curve_after_sell(self, token_amount: u64) -> BondingCurve {
        let sol_amount = self.sol_amount(token_amount);
        BondingCurve {
            virtual_sol_reserves: (self.bonding_curve.virtual_sol_reserves - sol_amount) as u64,
            virtual_token_reserves: (self.bonding_curve.virtual_token_reserves + token_amount) as u64,
            real_sol_reserves: (self.bonding_curve.real_sol_reserves - sol_amount) as u64,
            real_token_reserves: (self.bonding_curve.real_token_reserves + token_amount) as u64,
            ..self.bonding_curve
        }
    }

    /// The context after a sell of `token_amount` tokens that is not
    /// rejected: the curve has traded and the seller's throttle record is
    /// stamped.
    pub open spec fn after_sell(self, token_amount: u64) -> Sell {
        Sell {
            bonding_curve: self.curve_after_sell(token_amount),
            user_transfer_data: UserTransferData { last_transfer_timestamp: self.unix_timestamp },
            ..self
        }
    }

    /// What a sell of `token_amount` tokens that is not rejected amounts to.
    pub open spec fn sell_receipt(self, token_amount: u64) -> SellReceipt {
        let curve = self.curve_after_sell(token_amount);
        SellReceipt {
            sol_amount: self.sol_amount(token_amount) as u64,
            token_amount,
            fee: self.fee(token_amount) as u64,
            total_proceeds: (self.sol_amount(token_amount) - self.fee(token_amount)) as u64,
            trade_event: TradeEvent {
                mint: self.mint,
                sol_amount: self.sol_amount(token_amount) as u64,
                token_amount,
                is_buy: false,
                user: self.user,
                timestamp: self.unix_timestamp,
                virtual_sol_reserves: curve.virtual_sol_reserves,
                virtual_token_reserves: curve.virtual_token_reserves,
                real_sol_reserves: curve.real_sol_reserves,
                real_token_reserves: curve.real_token_reserves,
            },
        }
    }
}

/// Sells `token_amount` tokens back to the curve for at least
/// `min_sol_output`, fee deducted.
///
/// A curve that is complete rejects every sell with `CurveComplete`. On any
/// other curve the offer passes the throttle, then the checks on the
/// configuration, the seller's holdings and the amount, in the order of
/// `Sell::admission_error`. It is then priced; the fee is taken out of the
/// payout and what is left is held against `min_sol_output`. Only then are
/// the curve and the throttle record written. A rejected sell changes nothing.
///
/// The library moves no value: the receipt says what is owed to whom.
pub fn sell(ctx: &mut Sell, token_amount: u64, min_sol_output: u64) -> (sold: Result<
    SellReceipt,
    CurveLaunchpadError,
>)
    ensures
        match sold {
            Ok(receipt) => {
                &&& old(ctx).sell_error(token_amount, min_sol_output) is None
                &&& receipt == old(ctx).sell_receipt(token_amount)
                &&& *final(ctx) == old(ctx).after_sell(token_amount)
            },
            Err(error) => {
                &&& old(ctx).sell_error(token_amount, min_sol_output) == Some(error)
                &&& *final(ctx) == *old(ctx)
            },
        },
        old(ctx).bonding_curve.complete ==> sold == Err::<SellReceipt, CurveLaunchpadError>(
            CurveLaunchpadError::CurveComplete,
        ),
        !old(ctx).global.initialized ==> sold is Err,
        old(ctx).bonding_curve.wf() && old(ctx).holdings_within_supply()
            ==> final(ctx).bonding_curve.wf(),
        sold is Ok ==> old(ctx).bonding_curve.product()
            - final(ctx).bonding_curve.virtual_token_reserves
            < final(ctx).bonding_curve.product() <= old(ctx).bonding_curve.product(),
{
    if ctx.bonding_curve.complete {
        return Err(CurveLaunchpadError::CurveComplete);
    }
    let mut record: UserTransferData = ctx.user_transfer_data;
    match check_buy_sell(
        &mut record,
        &ctx.user,
        &ctx.bonding_curve,
        token_amount,
        ctx.unix_timestamp,
    ) {
        Ok(()) => {},
        Err(error) => {
            return Err(error);
        },
    }
    if !ctx.global.initialized {
        return Err(CurveLaunchpadError::NotInitialized);
    }
    if !ctx.fee_recipient.same_as(&ctx.global.fee_recipient) {
        return Err(CurveLaunchpadError::InvalidFeeRecipient);
    }
    if ctx.user_token_balance < token_amount {
        return Err(CurveLaunchpadError::InsufficientBalance);
    }
    if token_amount == 0 {
        return Err(CurveLaunchpadError::MinBuy);
    }
    let mut amm: AMM = AMM::new(
        ctx.bonding_curve.virtual_sol_reserves as u128,
        ctx.bonding_curve.virtual_token_reserves as u128,
        ctx.bonding_curve.real_sol_reserves as u128,
        ctx.bonding_curve.real_token_reserves as u128,
        ctx.global.initial_virtual_token_reserves as u128,
    );
    let sell_result = match amm.apply_sell(token_amount as u128) {
        Ok(result) => result,
        Err(error) => {
            return Err(CurveLaunchpadError::Amm(error));
        },
    };
    let fee: u64 = match try_calculate_fee(sell_result.sol_amount, ctx.global.fee_basis_points) {
        Ok(fee) => fee,
        Err(error) => {
            return Err(error);
        },
    };
    let sell_amount_minus_fee: u64 = match sell_result.sol_amount.checked_sub(fee) {
        Some(difference) => difference,
        None => {
            return Err(CurveLaunchpadError::ArithmeticOverflow);
        },
    };
    if sell_amount_minus_fee < min_sol_output {
        return Err(CurveLaunchpadError::MinProceedsNotMet);
    }
    if amm.virtual_token_reserves > u64::MAX as u128 || amm.real_token_reserves > u64::MAX as u128 {
        return Err(CurveLaunchpadError::ArithmeticOverflow);
    }
    ctx.bonding_curve.real_token_reserves = amm.real_token_reserves as u64;
    ctx.bonding_curve.real_sol_reserves = amm.real_sol_reserves as u64;
    ctx.bonding_curve.virtual_token_reserves = amm.virtual_token_reserves as u64;
    ctx.bonding_curve.virtual_sol_reserves = amm.virtual_sol_reserves as u64;
    ctx.user_transfer_data = record;
    let trade_event = TradeEvent {
        mint: ctx.mint,
        sol_amount: sell_result.sol_amount,
        token_amount: sell_result.token_amount,
        is_buy: false,
        user: ctx.user,
        timestamp: ctx.unix_timestamp,
        virtual_sol_reserves: ctx.bonding_curve.virtual_sol_reserves,
        virtual_token_reserves: ctx.bonding_curve.virtual_token_reserves,
        real_sol_reserves: ctx.bonding_curve.real_sol_reserves,
        real_token_reserves: ctx.bonding_curve.real_token_reserves,
    };
    Ok(
        SellReceipt {
            sol_amount: sell_result.sol_amount,
            token_amount: sell_result.token_amount,
            fee,
            total_proceeds: sell_amount_minus_fee,
            trade_event,
        },
    )
}

} // verus!
