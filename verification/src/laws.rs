//! What holds of a curve over any number of trades.

use vstd::prelude::*;
use crate::amm::AMM;
use crate::arith::{div_ceil, lemma_div_ceil_at_most_dividend, lemma_round_trip};
use crate::error::{AmmError, CurveLaunchpadError};
use crate::instructions::buy::Buy;
use crate::instructions::sell::Sell;
use crate::instructions::util::{counted_seconds, creator_allowance, fee_of};
use crate::state::BondingCurve;

verus! {

/// The fee is the exact share of the amount, rounded down. No rate gives a
/// fee on nothing, a rate of zero gives no fee, a rate of up to 10000 basis
/// points gives at most the amount, and a higher rate at least the amount.
pub proof fn lemma_fee_rounds_down(amount: nat, fee_basis_points: nat)
    ensures
        0 <= fee_of(amount as int, fee_basis_points as int),
        fee_of(amount as int, fee_basis_points as int) * 10000 <= amount * fee_basis_points
            < fee_of(amount as int, fee_basis_points as int) * 10000 + 10000,
        amount == 0 || fee_basis_points == 0 ==> fee_of(amount as int, fee_basis_points as int)
            == 0,
        fee_basis_points <= 10000 ==> fee_of(amount as int, fee_basis_points as int) <= amount,
        fee_basis_points >= 10000 ==> fee_of(amount as int, fee_basis_points as int) >= amount,
{
    let product: int = (amount * fee_basis_points) as int;
    assert(product >= 0) by (nonlinear_arith)
        requires
            product == amount * fee_basis_points,
    ;
    assert(amount == 0 || fee_basis_points == 0 ==> product == 0) by (nonlinear_arith)
        requires
            product == amount * fee_basis_points,
    ;
    assert(fee_basis_points <= 10000 ==> product <= amount * 10000) by (nonlinear_arith)
        requires
            product == amount * fee_basis_points,
    ;
    assert(fee_basis_points >= 10000 ==> product >= amount * 10000) by (nonlinear_arith)
        requires
            product == amount * fee_basis_points,
    ;
}

/// The creator's allowance never shrinks as time goes by.
pub proof fn lemma_creator_allowance_grows(total_supply: nat, earlier: int, later: int)
    requires
        earlier <= later,
    ensures
        creator_allowance(total_supply as int, earlier) <= creator_allowance(
            total_supply as int,
            later,
        ),
{
    let first: int = counted_seconds(earlier);
    let second: int = counted_seconds(later);
    assert(total_supply * first * 5 <= total_supply * second * 5) by (nonlinear_arith)
        requires
            first <= second,
            total_supply >= 0,
    ;
}

/// The creator of a curve is allowed nothing up to the moment of their last
/// trade, never more than half a percent of the supply, and exactly that from
/// one hour on.
pub proof fn lemma_creator_allowance_is_capped(total_supply: nat, elapsed: int)
    ensures
        0 <= creator_allowance(total_supply as int, elapsed) <= total_supply / 200,
        elapsed <= 0 ==> creator_allowance(total_supply as int, elapsed) == 0,
        elapsed >= 3600 ==> creator_allowance(total_supply as int, elapsed) == total_supply / 200,
{
    let counted: int = counted_seconds(elapsed);
    assert(0 <= total_supply * counted * 5 <= total_supply * 18000) by (nonlinear_arith)
        requires
            0 <= counted <= 3600,
            total_supply >= 0,
    ;
    assert(counted == 0 ==> total_supply * counted * 5 == 0) by (nonlinear_arith);
    assert(counted == 3600 ==> total_supply * counted * 5 == total_supply * 18000)
        by (nonlinear_arith);
}

/// A buy followed at once by the sell of the tokens it handed out leaves the
/// product of the virtual reserves at least where it was, and pays the seller
/// no more than the buyer was charged. Such a sell never fails for want of
/// liquidity; the engine rejects it only where the product of the reserves in
/// between does not fit 128 bits.
pub proof fn lemma_buy_then_sell_keeps_product(amm: AMM, token_amount: u128)
    requires
        amm.buy_error(token_amount) is None,
    ensures
        amm.after_buy(token_amount).sell_price(amm.buy_amount(token_amount) as int)
            <= amm.buy_price(amm.buy_amount(token_amount) as int),
        amm.after_buy(token_amount).sell_error(amm.buy_amount(token_amount)) is None
            || amm.after_buy(token_amount).sell_error(amm.buy_amount(token_amount)) == Some(
            AmmError::Overflow,
        ),
        amm.after_buy(token_amount).sell_error(amm.buy_amount(token_amount)) is None
            <==> amm.after_buy(token_amount).product() <= u128::MAX,
        amm.after_buy(token_amount).sell_error(amm.buy_amount(token_amount)) is None
            ==> amm.after_buy(token_amount).after_sell(amm.buy_amount(token_amount)).product()
            >= amm.product(),
{
    let bought: u128 = amm.buy_amount(token_amount);
    let s: int = amm.virtual_sol_reserves as int;
    let t: int = amm.virtual_token_reserves as int;
    let a: int = bought as int;
    let up: int = div_ceil(s * t, t - a);
    lemma_round_trip(s, t, a);
    lemma_div_ceil_at_most_dividend(s * t, t - a);
    let between = amm.after_buy(token_amount);
    assert(between.virtual_sol_reserves == up);
    assert(between.virtual_token_reserves == t - a);
    assert(between.product() == up * (t - a));
    let back: int = between.product() / t;
    assert(between.sell_price(a) == up - back);
    if between.sell_error(bought) is None {
        assert(between.after_sell(bought).virtual_sol_reserves == back);
        assert(back * t >= s * t) by (nonlinear_arith)
            requires
                back >= s,
                t > 0,
        ;
    }
}

/// A buy on a curve followed at once by the sell, on the same curve, of the
/// tokens that the buy handed out leaves the product of the curve's virtual
/// reserves at least where it was before the two.
pub proof fn lemma_buy_then_sell_on_curve(
    buying: Buy,
    token_amount: u64,
    max_sol_cost: u64,
    selling: Sell,
    min_sol_output: u64,
)
    requires
        buying.buy_error(token_amount, max_sol_cost) is None,
        selling.bonding_curve == buying.curve_after_buy(token_amount),
        selling.sell_error(buying.target_token_amount(token_amount), min_sol_output) is None,
    ensures
        selling.curve_after_sell(buying.target_token_amount(token_amount)).product()
            >= buying.bonding_curve.product(),
        selling.sol_amount(buying.target_token_amount(token_amount)) <= buying.sol_amount(
            token_amount,
        ),
{
    let bought: u64 = buying.target_token_amount(token_amount);
    let s: int = buying.bonding_curve.virtual_sol_reserves as int;
    let t: int = buying.bonding_curve.virtual_token_reserves as int;
    let up: int = div_ceil(s * t, t - bought);
    lemma_round_trip(s, t, bought as int);
    assert(buying.engine().product() == s * t);
    assert(buying.sol_amount(token_amount) == up - s);
    assert(selling.bonding_curve.virtual_sol_reserves == up);
    assert(selling.bonding_curve.virtual_token_reserves == t - bought);
    assert(selling.engine().product() == up * (t - bought));
    let back: int = selling.engine().product() / t;
    assert(selling.sol_amount(bought) == up - back);
    assert(selling.curve_after_sell(bought).virtual_sol_reserves == back);
    assert(selling.curve_after_sell(bought).virtual_token_reserves == t);
    assert(back * t >= s * t) by (nonlinear_arith)
        requires
            back >= s,
            t > 0,
    ;
}

/// A buy that is not rejected leaves a well-formed curve well formed.
pub proof fn lemma_buy_keeps_curve_well_formed(buying: Buy, token_amount: u64, max_sol_cost: u64)
    requires
        buying.bonding_curve.wf(),
        buying.buy_error(token_amount, max_sol_cost) is None,
    ensures
        buying.curve_after_buy(token_amount).wf(),
{
}

/// A sell that is not rejected leaves a well-formed curve well formed, as
/// long as the seller held no more tokens than exist outside the curve.
pub proof fn lemma_sell_keeps_curve_well_formed(
    selling: Sell,
    token_amount: u64,
    min_sol_output: u64,
)
    requires
        selling.bonding_curve.wf(),
        selling.holdings_within_supply(),
        selling.sell_error(token_amount, min_sol_output) is None,
    ensures
        selling.curve_after_sell(token_amount).wf(),
{
}

/// One trade on a curve, with everything it was given.
pub enum Trade {
    Buy { buying: Buy, token_amount: u64, max_sol_cost: u64 },
    Sell { selling: Sell, token_amount: u64, min_sol_output: u64 },
}

impl Trade {
    /// The curve as the trade found it.
    pub open spec fn curve_before(self) -> BondingCurve {
        match self {
            Trade::Buy { buying, .. } => buying.bonding_curve,
            Trade::Sell { selling, .. } => selling.bonding_curve,
        }
    }

    /// The trade was accepted, and a seller held no more tokens than exist
    /// outside the curve.
    pub open spec fn valid(self) -> bool {
        match self {
            Trade::Buy { buying, token_amount, max_sol_cost } => buying.buy_error(
                token_amount,
                max_sol_cost,
            ) is None,
            Trade::Sell { selling, token_amount, min_sol_output } => selling.holdings_within_supply()
                && selling.sell_error(token_amount, min_sol_output) is None,
        }
    }

    /// The curve as the trade left it.
    pub open spec fn curve_after(self) -> BondingCurve {
        match self {
            Trade::Buy { buying, token_amount, .. } => buying.curve_after_buy(token_amount),
            Trade::Sell { selling, token_amount, .. } => selling.curve_after_sell(token_amount),
        }
    }
}

/// The trade at `step` found the curve as the trade before it left it.
pub open spec fn follows(trades: Seq<Trade>, step: int) -> bool {
    trades[step].curve_before() == trades[step - 1].curve_after()
}

/// The trades are all valid and follow one another on one curve.
pub open spec fn is_history(trades: Seq<Trade>) -> bool {
    &&& forall|i: int| 0 <= i < trades.len() ==> (#[trigger] trades[i]).valid()
    &&& forall|i: int| 0 < i < trades.len() ==> #[trigger] follows(trades, i)
}

/// After every trade of a history that began on a well-formed curve, the curve
/// is well formed: the tokens for sale exceed neither the virtual token
/// reserves nor the total supply.
pub proof fn lemma_history_keeps_curve_well_formed(trades: Seq<Trade>, step: int)
    requires
        is_history(trades),
        0 <= step < trades.len(),
        trades[0].curve_before().wf(),
    ensures
        trades[step].curve_after().wf(),
        trades[step].curve_after().real_token_reserves
            <= trades[step].curve_after().virtual_token_reserves,
        trades[step].curve_after().real_token_reserves
            <= trades[step].curve_after().token_total_supply,
    decreases step,
{
    if step > 0 {
        lemma_history_keeps_curve_well_formed(trades, step - 1);
        assert(follows(trades, step));
    }
    assert(trades[step].curve_before().wf());
    assert(trades[step].valid());
    match trades[step] {
        Trade::Buy { buying, token_amount, max_sol_cost } => {
            lemma_buy_keeps_curve_well_formed(buying, token_amount, max_sol_cost);
        },
        Trade::Sell { selling, token_amount, min_sol_output } => {
            lemma_sell_keeps_curve_well_formed(selling, token_amount, min_sol_output);
        },
    }
}

/// Whatever is asked of a complete curve, a buy is rejected as
/// `CurveComplete`.
pub proof fn lemma_complete_curve_rejects_buy(buying: Buy, token_amount: u64, max_sol_cost: u64)
    requires
        buying.bonding_curve.complete,
    ensures
        buying.buy_error(token_amount, max_sol_cost) == Some(CurveLaunchpadError::CurveComplete),
{
    assert(buying.admission_error(token_amount) == Some(CurveLaunchpadError::CurveComplete));
}

/// Whatever is offered to a complete curve, a sell is rejected as
/// `CurveComplete`.
pub proof fn lemma_complete_curve_rejects_sell(
    selling: Sell,
    token_amount: u64,
    min_sol_output: u64,
)
    requires
        selling.bonding_curve.complete,
    ensures
        selling.sell_error(token_amount, min_sol_output) == Some(
            CurveLaunchpadError::CurveComplete,
        ),
{
    assert(selling.admission_error(token_amount) == Some(CurveLaunchpadError::CurveComplete));
}

/// Completion is final: a trade that leaves the curve complete is the last
/// of its history, since a complete curve accepts no trade.
pub proof fn lemma_complete_curve_ends_history(trades: Seq<Trade>, step: int)
    requires
        is_history(trades),
        0 <= step < trades.len(),
        trades[step].curve_after().complete,
    ensures
        step == trades.len() - 1,
{
    if step + 1 < trades.len() {
        let next = trades[step + 1];
        assert(follows(trades, step + 1));
        assert(next.curve_before().complete);
        assert(next.valid());
        match next {
            Trade::Buy { buying, token_amount, max_sol_cost } => {
                lemma_complete_curve_rejects_buy(buying, token_amount, max_sol_cost);
            },
            Trade::Sell { selling, token_amount, min_sol_output } => {
                lemma_complete_curve_rejects_sell(selling, token_amount, min_sol_output);
            },
        }
    }
}

} // verus!
