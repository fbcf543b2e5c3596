//! Buying tokens from a curve.

use vstd::prelude::*;
use crate::address::Address;
use crate::amm::AMM;
use crate::error::CurveLaunchpadError;
use crate::events::{CompleteEvent, TradeEvent};
use crate::instructions::util::{allowance, check_buy_sell, fee_of, try_calculate_fee};
use crate::state::{BondingCurve, Global, UserTransferData};

verus! {

/// Everything a buy reads, and the two records it writes: the curve and the
/// buyer's throttle record.
#[derive(Clone, Copy, Debug, PartialEq, Eq)]
pub struct Buy {
    /// The buyer.
    pub user: Address,
    /// The reserve currency that the buyer holds.
    pub user_lamports: u64,
    pub global: Global,
    /// Who the caller says the fee goes to.
    pub fee_recipient: Address,
    /// The asset that the curve sells.
    pub mint: Address,
    /// Where the curve's record is kept.
    pub bonding_curve_address: Address,
    pub bonding_curve: BondingCurve,
    /// The tokens actually held for the curve, which may be fewer than its
    /// books say.
    pub bonding_curve_token_balance: u64,
    pub user_transfer_data: UserTransferData,
    /// The time of the trade.
    pub unix_timestamp: i64,
}

/// What a buy that went through amounts to.
#[derive(Clone, Copy, Debug, PartialEq, Eq)]
pub struct BuyReceipt {
    /// Reserve currency that the buyer owes the curve.
    pub sol_amount: u64,
    /// Tokens that the curve owes the buyer.
    pub token_amount: u64,
    /// Reserve currency that the buyer owes the fee recipient.
    pub fee: u64,
    /// What the buyer pays in all: the cost and the fee.
    pub total_cost: u64,
    pub trade_event: TradeEvent,
    /// Present when this buy completed the curve.
    pub complete_event: Option<CompleteEvent>,
}

impl Buy {
    /// The tokens that change hands when `token_amount` are asked for: no
    /// more than are actually held for the curve.
    pub open spec fn target_token_amount(self, token_amount: u64) -> u64 {
        if self.bonding_curve_token_balance < token_amount {
            self.bonding_curve_token_balance
        } else {
            token_amount
        }
    }

    /// The curve's reserves as the pricing engine sees them.
    pub open spec fn engine(self) -> AMM {
        AMM {
            virtual_sol_reserves: self.bonding_curve.virtual_sol_reserves as u128,
            virtual_token_reserves: self.bonding_curve.virtual_token_reserves as u128,
            real_sol_reserves: self.bonding_curve.real_sol_reserves as u128,
            real_token_reserves: self.bonding_curve.real_token_reserves as u128,
            initial_virtual_token_reserves: self.global.initial_virtual_token_reserves as u128,
        }
    }

    /// Why a request for `token_amount` tokens is turned down before any
    /// price is computed, if it is.
    pub open spec fn admission_error(self, token_amount: u64) -> Option<CurveLaunchpadError> {
        if self.bonding_curve.complete {
            Some(CurveLaunchpadError::CurveComplete)
        } else if token_amount > allowance(
            self.user_transfer_data,
            self.user,
            self.bonding_curve,
            self.unix_timestamp,
        ) {
            Some(CurveLaunchpadError::RateLimited)
        } else if !self.global.initialized {
            Some(CurveLaunchpadError::NotInitialized)
        } else if self.fee_recipient != self.global.fee_recipient {
            Some(CurveLaunchpadError::InvalidFeeRecipient)
        } else if self.bonding_curve.real_token_reserves < token_amount {
            Some(CurveLaunchpadError::InsufficientTokens)
        } else if token_amount == 0 {
            Some(CurveLaunchpadError::MinBuy)
        } else {
            None
        }
    }

    /// What the tokens cost, before the fee.
    pub open spec fn sol_amount(self, token_amount: u64) -> int {
        self.engine().buy_price(self.target_token_amount(token_amount) as int)
    }

    /// The fee on the cost.
    pub open spec fn fee(self, token_amount: u64) -> int {
        fee_of(self.sol_amount(token_amount), self.global.fee_basis_points as int)
    }

    /// Why an admitted request is turned down once its price is known, if it
    /// is.
    pub open spec fn settlement_error(self, token_amount: u64, max_sol_cost: u64) -> Option<
        CurveLaunchpadError,
    > {
        let sol_amount = self.sol_amount(token_amount);
        let fee = self.fee(token_amount);
        match self.engine().buy_error(self.target_token_amount(token_amount) as u128) {
            Some(error) => Some(CurveLaunchpadError::Amm(error)),
            None => if sol_amount * self.global.fee_basis_points > u64::MAX || sol_amount + fee
                > u64::MAX {
                Some(CurveLaunchpadError::ArithmeticOverflow)
            } else if sol_amount + fee > max_sol_cost {
                Some(CurveLaunchpadError::MaxCostExceeded)
            } else if self.user_lamports < sol_amount + fee {
                Some(CurveLaunchpadError::InsufficientBalance)
            } else if self.bonding_curve.virtual_sol_reserves + sol_amount > u64::MAX
                || self.bonding_curve.real_sol_reserves + sol_amount > u64::MAX {
                Some(CurveLaunchpadError::ArithmeticOverflow)
            } else {
                None
            },
        }
    }

    /// Why a buy of `token_amount` tokens for at most `max_sol_cost` is
    /// rejected, if it is.
    pub open spec fn buy_error(self, token_amount: u64, max_sol_cost: u64) -> Option<
        CurveLaunchpadError,
    > {
        match self.admission_error(token_amount) {
            Some(error) => Some(error),
            None => self.settlement_error(token_amount, max_sol_cost),
        }
    }

    /// The curve after a buy of `token_amount` tokens that is not rejected.
    pub open spec fn curve_after_buy(self, token_amount: u64) -> BondingCurve {
        let target = self.target_token_amount(token_amount);
        let sol_amount = self.sol_amount(token_amount);
        BondingCurve {
            virtual_sol_reserves: (self.bonding_curve.virtual_sol_reserves + sol_amount) as u64,
            virtual_token_reserves: (self.bonding_curve.virtual_token_reserves - target) as u64,
            real_sol_reserves: (self.bonding_curve.real_sol_reserves + sol_amount) as u64,
            real_token_reserves: (self.bonding_curve.real_token_reserves - target) as u64,
            complete: self.bonding_curve.real_token_reserves == target,
            ..self.bonding_curve
        }
    }

    /// The context after a buy of `token_amount` tokens that is not rejected:
    /// the curve has traded and the buyer's throttle record is stamped.
    pub open spec fn after_buy(self, token_amount: u64) -> Buy {
        Buy {
            bonding_curve: self.curve_after_buy(token_amount),
            user_transfer_data: UserTransferData { last_transfer_timestamp: self.unix_timestamp },
            ..self
        }
    }

    /// What a buy of `token_amount` tokens that is not rejected amounts to.
    pub open spec fn buy_receipt(self, token_amount: u64) -> BuyReceipt {
        let curve = self.curve_after_buy(token_amount);
        BuyReceipt {
            sol_amount: self.sol_amount(token_amount) as u64,
            token_amount: self.target_token_amount(token_amount),
            fee: self.fee(token_amount) as u64,
            total_cost: (self.sol_amount(token_amount) + self.fee(token_amount)) as u64,
            trade_event: TradeEvent {
                mint: self.mint,
                sol_amount: self.sol_amount(token_amount) as u64,
                token_amount: self.target_token_amount(token_amount),
                is_buy: true,
                user: self.user,
                timestamp: self.unix_timestamp,
                virtual_sol_reserves: curve.virtual_sol_reserves,
                virtual_token_reserves: curve.virtual_token_reserves,
                real_sol_reserves: curve.real_sol_reserves,
                real_token_reserves: curve.real_token_reserves,
            },
            complete_event: if curve.complete {
                Some(
                    CompleteEvent {
                        user: self.user,
                        mint: self.mint,
                        bonding_curve: self.bonding_curve_address,
                        timestamp: self.unix_timestamp,
                    },
                )
            } else {
                None
            },
        }
    }
}

/// Buys `token_amount` tokens from the curve for at most `max_sol_cost`,
/// fee included.
///
/// A curve that is complete rejects every buy with `CurveComplete`. On any
/// other curve the request passes the throttle, then the checks on the
/// configuration and the amount, in the order of `Buy::admission_error`. It
/// is then cut down to the tokens actually held for the curve and priced; the
/// price and the fee are held against `max_sol_cost` and against what the
/// buyer holds. Only then are the curve and the throttle record written. A
/// buy that takes the last tokens for sale completes the curve. A rejected
/// buy changes nothing.
///
/// The library moves no value: the receipt says what is owed to whom.
pub fn buy(ctx: &mut Buy, token_amount: u64, max_sol_cost: u64) -> (bought: Result<
    BuyReceipt,
    CurveLaunchpadError,
>)
    ensures
        match bought {
            Ok(receipt) => {
                &&& old(ctx).buy_error(token_amount, max_sol_cost) is None
                &&& receipt == old(ctx).buy_receipt(token_amount)
                &&& *final(ctx) == old(ctx).after_buy(token_amount)
            },
            Err(error) => {
                &&& old(ctx).buy_error(token_amount, max_sol_cost) == Some(error)
                &&& *final(ctx) == *old(ctx)
            },
        },
        old(ctx).bonding_curve.complete ==> bought == Err::<BuyReceipt, CurveLaunchpadError>(
            CurveLaunchpadError::CurveComplete,
        ),
        !old(ctx).global.initialized ==> bought is Err,
        old(ctx).bonding_curve.wf() ==> final(ctx).bonding_curve.wf(),
        bought is Ok ==> old(ctx).bonding_curve.product() <= final(ctx).bonding_curve.product()
            < old(ctx).bonding_curve.product() + final(ctx).bonding_curve.virtual_token_reserves,
        bought is Ok ==> (final(ctx).bonding_curve.complete
            <==> final(ctx).bonding_curve.real_token_reserves == 0),
        bought is Ok && token_amount == old(ctx).bonding_curve.real_token_reserves
            && token_amount <= old(ctx).bonding_curve_token_balance
            ==> final(ctx).bonding_curve.real_token_reserves == 0
                && final(ctx).bonding_curve.complete,
{
    if ctx.bonding_curve.complete {
        return Err(CurveLaunchpadError::CurveComplete);
    }
    let mut record: UserTransferData = ctx.user_transfer_data;
    match check_buy_sell(
        &mut record,
        &ctx.user,
        &ctx.bonding_curve,
        token_amount,
        ctx.unix_timestamp,
    ) {
        Ok(()) => {},
        Err(error) => {
            return Err(error);
        },
    }
    if !ctx.global.initialized {
        return Err(CurveLaunchpadError::NotInitialized);
    }
    if !ctx.fee_recipient.same_as(&ctx.global.fee_recipient) {
        return Err(CurveLaunchpadError::InvalidFeeRecipient);
    }
    if ctx.bonding_curve.real_token_reserves < token_amount {
        return Err(CurveLaunchpadError::InsufficientTokens);
    }
    if token_amount == 0 {
        return Err(CurveLaunchpadError::MinBuy);
    }
    let target_token_amount: u64 = if ctx.bonding_curve_token_balance < token_amount {
        ctx.bonding_curve_token_balance
    } else {
        token_amount
    };
    let mut amm: AMM = AMM::new(
        ctx.bonding_curve.virtual_sol_reserves as u128,
        ctx.bonding_curve.virtual_token_reserves as u128,
        ctx.bonding_curve.real_sol_reserves as u128,
        ctx.bonding_curve.real_token_reserves as u128,
        ctx.global.initial_virtual_token_reserves as u128,
    );
    let buy_result = match amm.apply_buy(target_token_amount as u128) {
        Ok(result) => result,
        Err(error) => {
            return Err(CurveLaunchpadError::Amm(error));
        },
    };
    let fee: u64 = match try_calculate_fee(buy_result.sol_amount, ctx.global.fee_basis_points) {
        Ok(fee) => fee,
        Err(error) => {
            return Err(error);
        },
    };
    let buy_amount_with_fee: u64 = match buy_result.sol_amount.checked_add(fee) {
        Some(sum) => sum,
        None => {
            return Err(CurveLaunchpadError::ArithmeticOverflow);
        },
    };
    if buy_amount_with_fee > max_sol_cost {
        return Err(CurveLaunchpadError::MaxCostExceeded);
    }
    if ctx.user_lamports < buy_amount_with_fee {
        return Err(CurveLaunchpadError::InsufficientBalance);
    }
    if amm.virtual_sol_reserves > u64::MAX as u128 || amm.real_sol_reserves > u64::MAX as u128 {
        return Err(CurveLaunchpadError::ArithmeticOverflow);
    }
    ctx.bonding_curve.real_token_reserves = amm.real_token_reserves as u64;
    ctx.bonding_curve.real_sol_reserves = amm.real_sol_reserves as u64;
    ctx.bonding_curve.virtual_token_reserves = amm.virtual_token_reserves as u64;
    ctx.bonding_curve.virtual_sol_reserves = amm.virtual_sol_reserves as u64;
    ctx.user_transfer_data = record;
    let trade_event = TradeEvent {
        mint: ctx.mint,
        sol_amount: buy_result.sol_amount,
        token_amount: buy_result.token_amount,
        is_buy: true,
        user: ctx.user,
        timestamp: ctx.unix_timestamp,
        virtual_sol_reserves: ctx.bonding_curve.virtual_sol_reserves,
        virtual_token_reserves: ctx.bonding_curve.virtual_token_reserves,
        real_sol_reserves: ctx.bonding_curve.real_sol_reserves,
        real_token_reserves: ctx.bonding_curve.real_token_reserves,
    };
    let mut complete_event: Option<CompleteEvent> = None;
    if ctx.bonding_curve.real_token_reserves == 0 {
        ctx.bonding_curve.complete = true;
        complete_event = Some(
            CompleteEvent {
                user: ctx.user,
                mint: ctx.mint,
                bonding_curve: ctx.bonding_curve_address,
                timestamp: ctx.unix_timestamp,
            },
        );
    }
    Ok(
        BuyReceipt {
            sol_amount: buy_result.sol_amount,
            token_amount: buy_result.token_amount,
            fee,
            total_cost: buy_amount_with_fee,
            trade_event,
            complete_event,
        },
    )
}

} // verus!
